//! How often the shell asks again, in nanoseconds.
use vstd::prelude::*;

verus! {

/// One second.
pub const SECOND: u128 = 1_000_000_000;

/// How long the game list is kept before it is fetched again.
pub const CATALOG_REFRESH_COOLDOWN: u128 = 86_400_000_000_000;

/// How long the list of active-Denuvo games is kept before it is fetched again.
pub const DENUVO_CACHE_LIFETIME: u128 = 86_400_000_000_000;

/// The shortest gap between two automatic checks for a newer Drydock.
pub const UPDATE_CHECK_COOLDOWN: u128 = 900_000_000_000;

/// The shortest gap between two status checks of the Steam Service that page switches trigger.
pub const SERVICE_RECHECK_COOLDOWN: u128 = 30_000_000_000;

/// How often the unlocks of apps added with the latest version are compared with the provider's.
pub const UNLOCK_UPDATE_INTERVAL: u128 = 43_200_000_000_000;

/// How often the shell looks at whether an unlock update sweep is due.
pub const UNLOCK_UPDATE_POLL: u128 = 300_000_000_000;

/// The pause between two apps in a sweep.
pub const UNLOCK_UPDATE_SPACING: u128 = 2_000_000_000;

/// The window of the limiter on game list refreshes.
pub const CATALOG_LIMIT_WINDOW: u128 = 300_000_000_000;

/// The window of the limiter on unlock downloads.
pub const DOWNLOAD_LIMIT_WINDOW: u128 = 60_000_000_000;

/// How long the storefront shows one hero before it moves on.
pub const HERO_INTERVAL: u128 = 5_000_000_000;

/// The next frame while the user interacts: sixty a second.
pub const INTERACTIVE_FRAME: u128 = 16_667_000;

/// The next frame while the window is focused or work is pending: thirty a second.
pub const AMBIENT_FRAME: u128 = 33_333_000;

/// The next frame otherwise: two a second.
pub const IDLE_FRAME: u128 = 500_000_000;

/// Whether `cooldown` has passed since `last`, or nothing happened yet.
pub open spec fn is_due(last: Option<u128>, now: u128, cooldown: u128) -> bool {
    match last {
        Some(at) => crate::rate_limiter::elapsed(now, at) >= cooldown,
        None => true,
    }
}

/// Whether `cooldown` has passed since `last`, or nothing happened yet.
pub fn due(last: Option<u128>, now: u128, cooldown: u128) -> (result: bool)
    ensures
        result == is_due(last, now, cooldown),
{
    match last {
        Some(at) => if now >= at {
            now - at >= cooldown
        } else {
            cooldown == 0
        },
        None => true,
    }
}

} // verus!
