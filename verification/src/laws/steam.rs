//! What the shell promises about Steam: what was read of it stands, unlocks that follow the latest
//! version are swept, and depot manifests are looked after.
use crate::ids::{finite_set_has_an_order, in_order};
use crate::state::{AddedAppState, DrydockApp, SteamServiceState, UnlockSource};
use crate::steam::{app_to_fetch, follows_latest, latest_apps, manifest_at, manifest_ids};
use crate::timing::due;
use crate::types::{Reply, SteamManifest};
use crate::unlocks::UnlockUpdateSweep;
use std::collections::{BTreeSet, HashSet};
use vstd::prelude::*;

verus! {

/// The first manifest of an app is the one found.
pub proof fn the_first_manifest_is_found(
    manifests: &Vec<SteamManifest>,
    app_id: u32,
    at: Option<usize>,
    k: int,
)
    requires
        call_ensures(manifest_at, (manifests, app_id), at),
    ensures
        at matches Some(i) ==> i < manifests@.len() && manifests@[i as int].app_id == app_id,
        at matches Some(i) ==> (0 <= k < i ==> manifests@[k].app_id != app_id),
        at is None && 0 <= k < manifests@.len() ==> manifests@[k].app_id != app_id,
{
    let ids = manifest_ids(manifests@);
    if let Some(i) = at {
        assert(ids[i as int] == manifests@[i as int].app_id);
        if 0 <= k < i {
            assert(ids[k] == manifests@[k].app_id);
        }
    } else if 0 <= k < manifests@.len() {
        assert(ids[k] == manifests@[k].app_id);
        if manifests@[k].app_id == app_id {
            assert(ids.contains(app_id));
        }
    }
}

proof fn swept_apps(
    ids: Seq<u32>,
    added: Map<u32, AddedAppState>,
    loaded: bool,
    applied: Set<u32>,
    id: u32,
)
    ensures
        latest_apps(ids, added, loaded, applied).contains(id) <==> ids.contains(id)
            && follows_latest(added[id].source, loaded, applied.contains(id)),
    decreases ids.len(),
{
    let all = latest_apps(ids, added, loaded, applied);
    if ids.len() > 0 {
        let rest = ids.drop_last();
        let before = latest_apps(rest, added, loaded, applied);
        swept_apps(rest, added, loaded, applied, id);
        if rest.contains(id) {
            let k = choose|k: int| 0 <= k < rest.len() && rest[k] == id;
            assert(ids[k] == id);
        }
        if ids.contains(id) && id != ids.last() {
            let k = choose|k: int| 0 <= k < ids.len() && ids[k] == id;
            assert(rest[k] == id);
        }
        if before.contains(id) {
            let k = choose|k: int| 0 <= k < before.len() && before[k] == id;
            assert(all[k] == id);
        }
        if all.contains(id) && !before.contains(id) {
            let k = choose|k: int| 0 <= k < all.len() && all[k] == id;
            if k < before.len() {
                assert(before[k] == id);
            }
            assert(id == ids.last());
            assert(ids[ids.len() - 1] == id);
        }
        if id == ids.last() && follows_latest(added[id].source, loaded, applied.contains(id)) {
            assert(all[before.len() as int] == id);
        }
    }
}

/// The apps to sweep are the recorded ones that follow the latest version: those recorded as such,
/// and of those with no record of where they came from the ones without a fix, once it is known
/// which apps have one. A cracked or an own version is never swept.
pub proof fn apps_that_follow_the_latest_are_swept(
    app: &DrydockApp,
    applied: &HashSet<u32>,
    apps: Vec<u32>,
    id: u32,
)
    requires
        call_ensures(DrydockApp::apps_following_latest, (app, applied), apps),
        app.settings.added_apps@.dom().finite(),
    ensures
        apps@.contains(id) ==> app.settings.added_apps@.contains_key(id),
        app.settings.added_apps@.contains_key(id) ==> (apps@.contains(id) <==> {
            ||| app.settings.added_apps@[id].source == Some(UnlockSource::Latest)
            ||| app.settings.added_apps@[id].source is None && app.catalog.fixes_loaded
                && !applied@.contains(id)
        }),
{
    let added = app.settings.added_apps@;
    let ids = in_order(added.dom());
    finite_set_has_an_order(added.dom());
    swept_apps(ids, added, app.catalog.fixes_loaded, applied@, id);
    assert(ids.to_set().contains(id) <==> added.contains_key(id));
}

/// A sweep starts only where it may: updates of unlocks are on, none runs, the last look was long
/// enough ago, Steam is found and its service is current, and some app follows the latest version.
/// Every look counts, whatever comes of it.
pub proof fn a_sweep_starts_where_it_may(
    app: &mut DrydockApp,
    now: u128,
    applied: &HashSet<u32>,
    apps: Option<Vec<u32>>,
    list: Vec<u32>,
    is_time: bool,
)
    requires
        call_ensures(DrydockApp::maybe_update_unlocks, (app, now, applied), apps),
        call_ensures(DrydockApp::apps_following_latest, (&*old(app), applied), list),
        call_ensures(
            due,
            (old(app).last_unlock_update_check, now, 300_000_000_000),
            is_time,
        ),
    ensures
        apps is Some <==> {
            &&& old(app).settings.auto_update_unlocks
            &&& !old(app).steam_jobs.unlock_update
            &&& is_time
            &&& old(app).steam.root is Some
            &&& old(app).steam.service_status matches Some(status) && status.state
                == SteamServiceState::Current
            &&& list@.len() > 0
        },
        apps matches Some(apps) ==> apps@ == list@,
        old(app).settings.auto_update_unlocks && !old(app).steam_jobs.unlock_update && is_time
            ==> final(app).last_unlock_update_check == Some(now),
        !(old(app).settings.auto_update_unlocks && !old(app).steam_jobs.unlock_update && is_time)
            ==> *final(app) == *old(app),
        final(app).settings == old(app).settings,
{
}

/// Something is due the first time, and again once the time between has passed, and not before.
pub proof fn things_are_due_after_a_while(
    last: Option<u128>,
    now: u128,
    cooldown: u128,
    is_time: bool,
)
    requires
        call_ensures(due, (last, now, cooldown), is_time),
    ensures
        last is None ==> is_time,
        last matches Some(then) ==> then <= now ==> (is_time <==> now - then >= cooldown),
{
}

/// An app that a sweep updated and whose source was not known is recorded as following the latest
/// version, and no other record changes. Saving is asked for exactly where a record changed.
pub proof fn a_sweep_records_what_it_updated(
    app: &mut DrydockApp,
    sweep: UnlockUpdateSweep,
    reply: &Reply<UnlockUpdateSweep>,
    save: bool,
    id: u32,
)
    requires
        old(app).steam_jobs.unlock_update,
        *reply == Reply::Done(sweep),
        call_ensures(DrydockApp::poll_unlock_updates, (app, reply), save),
    ensures
        final(app).settings.added_apps@.contains_key(id) <==> old(
            app,
        ).settings.added_apps@.contains_key(id),
        old(app).settings.added_apps@.contains_key(id) ==> {
            let before = old(app).settings.added_apps@[id];
            let after = final(app).settings.added_apps@[id];
            &&& after.files == before.files
            &&& before.source is Some || !sweep.updated@.contains(id) ==> after == before
            &&& before.source is None && sweep.updated@.contains(id) ==> after.source == Some(
                UnlockSource::Latest,
            ) && save
        },
        !save ==> (old(app).settings.added_apps@.contains_key(id)
            ==> final(app).settings.added_apps@[id] == old(app).settings.added_apps@[id]),
        !final(app).steam_jobs.unlock_update,
        final(app).settings.installed_games == old(app).settings.installed_games,
{
    let before = old(app).settings.added_apps@;
    let after = final(app).settings.added_apps@;
    assert(after.dom().contains(id) <==> before.dom().contains(id));
    if before.contains_key(id) && sweep.updated@.contains(id) && before[id].source is None {
        let i = choose|i: int| 0 <= i < sweep.updated@.len() && sweep.updated@[i] == id;
        assert(crate::steam::some_unrecorded(before, sweep.updated@));
    }
}

/// Depot manifests are looked after when Steam has started or stopped or enough time has passed, by
/// one look at a time. Every recorded app is looked at, with whether its files came from the
/// provider.
pub proof fn manifests_are_looked_after(
    app: &mut DrydockApp,
    running: bool,
    now: u128,
    cooldown: u128,
    apps: Option<Vec<(u32, bool)>>,
    is_time: bool,
    id: u32,
    again: &mut DrydockApp,
    second: Option<Vec<(u32, bool)>>,
)
    requires
        call_ensures(DrydockApp::guard_depot_manifests, (app, running, now, cooldown), apps),
        call_ensures(due, (old(app).steam.last_manifest_check, now, cooldown), is_time),
        old(app).settings.added_apps@.dom().finite(),
        *old(again) == *final(app),
        call_ensures(DrydockApp::guard_depot_manifests, (again, running, now, cooldown), second),
    ensures
        apps is Some ==> old(app).steam.root is Some && !old(app).steam_jobs.manifest_guard,
        apps is Some ==> running != old(app).steam.was_running || is_time,
        !old(app).steam_jobs.manifest_guard && old(app).steam.root is Some && (running != old(
            app,
        ).steam.was_running || is_time) && old(app).settings.added_apps@.contains_key(id) ==> {
            &&& apps is Some
            &&& apps->0@.contains((id, old(app).settings.added_apps@[id].source != Some(
                UnlockSource::Own,
            )))
        },
        apps matches Some(list) ==> forall|i: int|
            0 <= i < list@.len() ==> old(app).settings.added_apps@.contains_key(
                (#[trigger] list@[i]).0,
            ),
        apps is Some ==> second is None,
        !old(app).steam_jobs.manifest_guard && old(app).steam.root is Some
            ==> final(app).steam.was_running == running,
        final(app).steam.manifests == old(app).steam.manifests,
{
    let added = old(app).settings.added_apps@;
    let ids = in_order(added.dom());
    finite_set_has_an_order(added.dom());
    assert(ids.to_set() == added.dom());
    if added.contains_key(id) {
        assert(ids.to_set().contains(id));
        let k = choose|k: int| 0 <= k < ids.len() && ids[k] == id;
        let list = crate::steam::guarded(ids, added);
        assert(list[k] == (id, added[id].source != Some(UnlockSource::Own)));
    }
    if let Some(list) = apps {
        assert forall|i: int| 0 <= i < list@.len() implies added.contains_key(
            (#[trigger] list@[i]).0,
        ) by {
            assert(list@[i].0 == ids[i]);
            assert(ids.to_set().contains(ids[i]));
        }
    }
}

/// An app whose package was asked for in vain is not asked for again, and what was restored is told
/// of.
pub proof fn an_attempt_is_remembered(
    app: &mut DrydockApp,
    restored: usize,
    repaired: usize,
    attempted: Option<u32>,
    id: u32,
)
    requires
        old(app).steam_jobs.manifest_guard,
        call_ensures(
            DrydockApp::poll_manifest_guard,
            (app, Reply::Done((restored, repaired, attempted))),
            (),
        ),
    ensures
        !final(app).steam_jobs.manifest_guard,
        final(app).steam.manifest_fetch_attempted@.contains(id) <==> attempted == Some(id) || old(
            app,
        ).steam.manifest_fetch_attempted@.contains(id),
        restored == 0 ==> final(app).line == old(app).line,
        restored > 0 ==> !final(app).line.error,
{
}

/// The app whose package is fetched is the first that was never stored and never asked for.
pub proof fn the_first_untried_app_is_fetched(
    never_stored: &Vec<u32>,
    attempted: &HashSet<u32>,
    app: Option<u32>,
    i: int,
)
    requires
        call_ensures(app_to_fetch, (never_stored, attempted), app),
        0 <= i < never_stored@.len(),
        !attempted@.contains(never_stored@[i]),
        forall|k: int| 0 <= k < i ==> attempted@.contains(#[trigger] never_stored@[k]),
    ensures
        app == Some(never_stored@[i]),
{
    if app is None {
        assert(attempted@.contains(never_stored@[i]));
    }
    let n = choose|n: int|
        0 <= n < never_stored@.len() && #[trigger] never_stored@[n] == app->0 && forall|j: int|
            0 <= j < n ==> attempted@.contains(#[trigger] never_stored@[j]);
    if n < i {
        assert(attempted@.contains(never_stored@[n]));
    }
    if i < n {
        assert(attempted@.contains(never_stored@[i]));
    }
}

/// What was read of Steam is what the shell has: the root, the games and the plug-in files. A game
/// that is gone is no longer selected, and one that is still there stays selected with its codes.
pub proof fn what_was_read_of_steam_stands(
    app: &mut DrydockApp,
    root: Option<String>,
    conflicts: Vec<String>,
    manifests: Vec<SteamManifest>,
    k: int,
)
    requires
        call_ensures(
            DrydockApp::refresh_steam,
            (app, root, conflicts, Ok::<Vec<SteamManifest>, String>(manifests)),
            (),
        ),
    ensures
        final(app).steam.root == root,
        final(app).steam.conflicts == conflicts,
        final(app).steam.manifests == manifests,
        final(app).steam.service_status is None,
        final(app).line.error <==> root is None,
        old(app).selected_app is None ==> final(app).selected_app is None,
        old(app).selected_app matches Some(id) ==> 0 <= k < manifests@.len()
            && manifests@[k].app_id == id ==> final(app).selected_app == Some(id)
            && final(app).activation == old(app).activation,
        final(app).selected_app matches Some(id) ==> old(app).selected_app == Some(id),
        final(app).settings == old(app).settings,
{
    let ids = manifest_ids(manifests@);
    if let Some(id) = old(app).selected_app {
        if 0 <= k < manifests@.len() && manifests@[k].app_id == id {
            assert(ids[k] == id);
            assert(ids.contains(id));
        }
    }
}

/// A selected game that is no longer installed is given up with its codes.
pub proof fn a_game_that_is_gone_is_given_up(
    app: &mut DrydockApp,
    manifests: Vec<SteamManifest>,
    id: u32,
)
    requires
        call_ensures(
            DrydockApp::refresh_manifests,
            (app, Ok::<Vec<SteamManifest>, String>(manifests)),
            (),
        ),
        old(app).steam.root is Some,
        old(app).selected_app == Some(id),
        forall|k: int| 0 <= k < manifests@.len() ==> (#[trigger] manifests@[k]).app_id != id,
    ensures
        final(app).steam.manifests == manifests,
        final(app).selected_app is None,
        final(app).activation.request_code@.len() == 0,
{
    let ids = manifest_ids(manifests@);
    if ids.contains(id) {
        let k = choose|k: int| 0 <= k < ids.len() && ids[k] == id;
        assert(manifests@[k].app_id != id);
    }
}

/// An app counts as added where its Lua is in the plug-in folder or it is recorded; a plug-in file
/// that is gone no longer counts, and without Steam there are none.
pub proof fn an_app_is_added_by_file_or_record(
    app: &mut DrydockApp,
    found: BTreeSet<u32>,
    after: &DrydockApp,
    id: u32,
    added: bool,
)
    requires
        call_ensures(DrydockApp::refresh_plugin_luas, (app, found), ()),
        *after == *final(app),
        call_ensures(DrydockApp::is_app_added, (after, id), added),
    ensures
        added <==> (old(app).steam.root is Some && found@.contains(id))
            || old(app).settings.added_apps@.contains_key(id),
{
}

/// A fix is applied to the folder that Steam has the game in, where the game is installed and a fix
/// is offered, and by one background action at a time.
pub proof fn a_fix_goes_to_the_installed_game(
    app: &mut DrydockApp,
    app_id: u32,
    order: Option<(String, String)>,
    offered: bool,
    m: int,
    again: &mut DrydockApp,
    second: Option<(String, String)>,
)
    requires
        call_ensures(DrydockApp::apply_denuvo_fix_for, (app, app_id), order),
        call_ensures(crate::catalog::Catalog::has_denuvo_fix, (&old(app).catalog, app_id), offered),
        0 <= m <= old(app).steam.manifests@.len(),
        m < old(app).steam.manifests@.len() ==> old(app).steam.manifests@[m].app_id == app_id,
        forall|k: int| 0 <= k < m ==> (#[trigger] old(app).steam.manifests@[k]).app_id != app_id,
        *old(again) == *final(app),
        call_ensures(DrydockApp::apply_denuvo_fix_for, (again, app_id), second),
    ensures
        order is Some <==> !old(app).steam_jobs.background && old(app).steam.root is Some && m < old(
            app,
        ).steam.manifests@.len() && offered,
        order matches Some(order) ==> Some(order.0) == old(app).steam.root && order.1 == old(
            app,
        ).steam.manifests@[m].install_dir && final(app).pending_fix_block == Some(app_id),
        order is Some ==> second is None,
{
    let manifests = old(app).steam.manifests@;
    let ids = manifest_ids(manifests);
    assert forall|k: int| 0 <= k < ids.len() implies #[trigger] ids[k] == manifests[k].app_id by {}
    if m < ids.len() {
        assert(ids[m] == app_id);
        assert(ids.contains(app_id));
        if let Some((root, dir)) = order {
            let i = choose|i: int| #[trigger]
                crate::catalog::first_at(ids, app_id, i) && dir == manifests[i].install_dir;
            if i < m {
                assert(manifests[i].app_id != app_id);
            }
            assert(i == m);
        }
    } else if ids.contains(app_id) {
        let i = choose|i: int| 0 <= i < ids.len() && ids[i] == app_id;
        assert(manifests[i].app_id != app_id);
    }
}

/// Steam is restarted where it is found and by one background action at a time; how that went is
/// told.
pub proof fn steam_is_restarted_once(
    app: &mut DrydockApp,
    root: Option<String>,
    again: &mut DrydockApp,
    second: Option<String>,
    polled: &mut DrydockApp,
    answer: Result<String, String>,
)
    requires
        call_ensures(DrydockApp::restart_steam_in_background, (app,), root),
        root is Some,
        *old(again) == *final(app),
        call_ensures(DrydockApp::restart_steam_in_background, (again,), second),
        *old(polled) == *final(app),
        call_ensures(DrydockApp::poll_background_action, (polled, Reply::Done(answer)), ()),
    ensures
        root == old(app).steam.root,
        second is None,
        !final(polled).steam_jobs.background,
        final(polled).line.error <==> answer is Err,
        answer matches Ok(text) ==> final(polled).line.text@ == text@,
        answer matches Err(text) ==> final(polled).line.text@ == text@,
        final(polled).line.busy is None,
{
}

} // verus!
