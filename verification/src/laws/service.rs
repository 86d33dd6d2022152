//! What adding apps to Steam and removing them promises.
use crate::service::{
    removal_names, service_allows_adding, unlock_plan, AddOrder, RemoveOrder, ServiceFollowUp,
    ServiceOutcome, UnlockPlan,
};
use crate::state::{DrydockApp, SteamServiceState};
use crate::text::{ascii_lowered, decimal, texts};
use crate::types::Reply;
use vstd::prelude::*;

verus! {

/// An app is added with the root and the name it has, once Steam is found, no other action runs and
/// not too many were added. The user's app is marked, and nobody else's mark is lost.
pub proof fn an_app_is_added_once(
    app: &mut DrydockApp,
    app_id: u32,
    now: u128,
    order: Option<AddOrder>,
    name: String,
    again: &mut DrydockApp,
    other: u32,
    later: u128,
    second: Option<AddOrder>,
)
    requires
        call_ensures(DrydockApp::add_app_to_steam, (app, app_id, now), order),
        call_ensures(crate::catalog::Catalog::app_display_name, (&old(app).catalog, app_id), name),
        *old(again) == *final(app),
        call_ensures(DrydockApp::add_app_to_steam, (again, other, later), second),
    ensures
        order is Some ==> old(app).steam.root is Some && !old(app).steam_jobs.service,
        order matches Some(order) ==> {
            &&& Some(order.root) == old(app).steam.root
            &&& order.name@ == name@
            &&& final(app).steam_jobs.service
            &&& final(app).unlock_writes.touched_set().contains(app_id)
            &&& forall|id: u32|
                old(app).unlock_writes.touched_set().contains(id)
                    ==> #[trigger] final(app).unlock_writes.touched_set().contains(id)
            &&& forall|id: u32|
                #[trigger] final(app).unlock_writes.touched_set().contains(id) && id != app_id
                    ==> old(app).unlock_writes.touched_set().contains(id)
        },
        order is Some ==> second is None,
        old(app).steam.root is None ==> order is None && final(app).line.error,
        final(app).settings == old(app).settings,
        final(app).catalog == old(app).catalog,
{
}

/// Too many apps cannot be added in a short time: an add beyond the limit is refused with an error,
/// and one that is granted is remembered.
pub proof fn adds_are_limited(app: &mut DrydockApp, app_id: u32, now: u128, order: Option<AddOrder>)
    requires
        call_ensures(DrydockApp::add_app_to_steam, (app, app_id, now), order),
        old(app).steam.root is Some,
        !old(app).steam_jobs.service,
    ensures
        order is Some ==> final(app).download_limiter.hits@.len() > 0
            && final(app).download_limiter.hits@.last() == now,
        order is None ==> final(app).line.error && final(app).unlock_writes
            == old(app).unlock_writes,
        old(app).download_limiter.hits@.len() == 0 && old(app).download_limiter.max > 0
            ==> order is Some,
        final(app).download_limiter.max == old(app).download_limiter.max,
        final(app).download_limiter.window == old(app).download_limiter.window,
{
    if old(app).download_limiter.hits@.len() == 0 {
        reveal(Seq::filter);
        assert(crate::rate_limiter::in_window(
            old(app).download_limiter.hits@,
            now,
            old(app).download_limiter.window,
        ).len() == 0);
    }
}

/// A cracked version is added only where the catalog's first fix entry of the app offers one.
pub proof fn a_cracked_version_needs_a_fix(
    app: &mut DrydockApp,
    app_id: u32,
    now: u128,
    order: Option<AddOrder>,
    offered: bool,
)
    requires
        call_ensures(DrydockApp::add_cracked_to_steam, (app, app_id, now), order),
        call_ensures(crate::catalog::Catalog::has_denuvo_fix, (&old(app).catalog, app_id), offered),
    ensures
        !offered ==> order is None,
        order matches Some(order) ==> Some(order.root) == old(app).steam.root
            && final(app).unlock_writes.touched_set().contains(app_id)
            && final(app).steam_jobs.service,
        old(app).steam.root is Some && !old(app).steam_jobs.service && !offered
            ==> final(app).line.error && final(app).download_limiter == old(app).download_limiter,
{
}

/// Files of the user's own are added for the app that they name, without asking the limiter.
pub proof fn own_files_are_added_for_their_app(
    app: &mut DrydockApp,
    read: Option<Result<u32, String>>,
    order: Option<AddOrder>,
)
    requires
        call_ensures(DrydockApp::add_own_unlock, (app, read), order),
    ensures
        order is Some <==> old(app).steam.root is Some && !old(app).steam_jobs.service && (
        read matches Some(Ok(_))),
        order is Some ==> final(app).unlock_writes.touched_set().contains(read->0->Ok_0),
        read matches Some(Err(error)) ==> old(app).steam.root is Some
            && !old(app).steam_jobs.service ==> final(app).line.error && final(app).line.text == error,
        final(app).download_limiter == old(app).download_limiter,
{
}

/// What is added is recorded with where it came from, under no other app, and is to be saved. A
/// removal takes the record of that app alone. A failure changes no record.
pub proof fn what_was_done_is_recorded(
    app: &mut DrydockApp,
    reply: Reply<Result<ServiceOutcome, String>>,
    next: ServiceFollowUp,
    other: u32,
)
    requires
        old(app).steam_jobs.service,
        call_ensures(DrydockApp::poll_service_action, (app, reply), next),
    ensures
        reply matches Reply::Done(Ok(ServiceOutcome::Added { app_id, files, note, source })) ==> {
            &&& final(app).settings.added_apps@.contains_key(app_id)
            &&& final(app).settings.added_apps@[app_id].source == Some(source)
            &&& files@.len() > 0 ==> forall|name: Seq<char>|
                #[trigger] texts(final(app).settings.added_apps@[app_id].files@).contains(name)
                    <==> texts(files@).contains(name)
            &&& files@.len() == 0 && old(app).settings.added_apps@.contains_key(app_id)
                ==> final(app).settings.added_apps@[app_id].files@
                == old(app).settings.added_apps@[app_id].files@
            &&& other != app_id ==> (final(app).settings.added_apps@.contains_key(other)
                <==> old(app).settings.added_apps@.contains_key(other)) && (
            old(app).settings.added_apps@.contains_key(other)
                ==> final(app).settings.added_apps@[other]
                == old(app).settings.added_apps@[other])
            &&& next == (ServiceFollowUp::Save { note })
        },
        reply matches Reply::Done(Ok(ServiceOutcome::Removed { app_id, note })) ==> {
            &&& !final(app).settings.added_apps@.contains_key(app_id)
            &&& other != app_id ==> (final(app).settings.added_apps@.contains_key(other)
                <==> old(app).settings.added_apps@.contains_key(other))
            &&& next == (ServiceFollowUp::SaveAndForget { note, app_id })
        },
        reply matches Reply::Done(Ok(ServiceOutcome::Status { status, .. }))
            ==> final(app).steam.service_status == Some(status) && final(app).settings
            == old(app).settings && next is Nothing,
        reply matches Reply::Done(Err(error)) ==> final(app).settings == old(app).settings
            && final(app).line.error && final(app).line.text@ == error@ && next is Nothing,
        final(app).steam_jobs.service <==> reply is Waiting,
        final(app).settings.installed_games == old(app).settings.installed_games,
        final(app).settings.download_queue == old(app).settings.download_queue,
{
    if let Reply::Done(Ok(ServiceOutcome::Added { app_id, files, note, source })) = reply {
        let before = old(app).settings.added_apps@;
        let after = final(app).settings.added_apps@;
        reveal(crate::service::records_add);
        if files@.len() > 0 {
            crate::service::recorded_names_are_distinct(before, app_id, files@, source, after);
        }
    }
}

/// A removal names every file that was recorded for the app, and its Lua where that is in the
/// plug-in folder or nothing was recorded. No file is named that is neither.
pub proof fn a_removal_names_every_file(
    recorded: Vec<String>,
    in_plugins: bool,
    app_id: u32,
    names: Vec<String>,
    number: String,
    i: int,
)
    requires
        call_ensures(removal_names, (recorded, in_plugins, app_id), names),
        call_ensures(decimal, (app_id as u64,), number),
    ensures
        0 <= i < recorded@.len() ==> names@.len() > i && names@[i]@ == recorded@[i]@,
        recorded@.len() <= names@.len() <= recorded@.len() + 1,
        names@.len() > recorded@.len() ==> names@[names@.len() - 1]@ == number@ + ".lua"@,
        recorded@.len() == 0 ==> names@.len() == 1,
        in_plugins ==> exists|k: int|
            0 <= k < names@.len() && ascii_lowered((#[trigger] names@[k])@) == ascii_lowered(
                number@ + ".lua"@,
            ),
        0 <= i < recorded@.len() && ascii_lowered(recorded@[i]@) == ascii_lowered(
            number@ + ".lua"@,
        ) ==> names@.len() == recorded@.len(),
        !in_plugins && recorded@.len() > 0 ==> names@.len() == recorded@.len(),
{
    let all = texts(names@);
    let before = texts(recorded@);
    assert(all.len() == names@.len() && before.len() == recorded@.len());
    if 0 <= i < recorded@.len() {
        assert(all[i] == before[i]);
        assert(names@[i]@ == all[i] && recorded@[i]@ == before[i]);
    }
    let lua = crate::unlocks::lua_name(app_id);
    if names@.len() > recorded@.len() {
        assert(all[all.len() - 1] == lua);
    }
    if in_plugins {
        crate::service::removal_reaches_the_lua(before, in_plugins, app_id);
        let k = choose|k: int|
            0 <= k < all.len() && ascii_lowered(#[trigger] all[k]) == ascii_lowered(lua);
        assert(names@[k]@ == all[k]);
    }
}

/// An app is removed from where Steam is, with the files that were recorded for it.
pub proof fn an_app_is_removed_from_steam(
    app: &mut DrydockApp,
    app_id: u32,
    order: Option<RemoveOrder>,
    i: int,
)
    requires
        call_ensures(DrydockApp::remove_app_from_steam, (app, app_id), order),
    ensures
        order is Some <==> old(app).steam.root is Some && !old(app).steam_jobs.service,
        order matches Some(order) ==> {
            &&& Some(order.root) == old(app).steam.root
            &&& order.files@.len() > 0
            &&& old(app).settings.added_apps@.contains_key(app_id) && 0 <= i
                < old(app).settings.added_apps@[app_id].files@.len() ==> order.files@.len() > i
                && order.files@[i]@ == old(app).settings.added_apps@[app_id].files@[i]@
            &&& final(app).unlock_writes.touched_set().contains(app_id)
            &&& final(app).steam_jobs.service
        },
        final(app).settings == old(app).settings,
{
    if let Some(order) = order {
        let recorded = texts(
            crate::service::recorded_of(old(app).settings.added_apps@, app_id),
        );
        let all = texts(order.files@);
        assert(all.len() == order.files@.len());
        crate::service::removal_reaches_the_lua(
            recorded,
            old(app).steam.plugin_luas@.contains(app_id),
            app_id,
        );
        if old(app).settings.added_apps@.contains_key(app_id) && 0 <= i
            < old(app).settings.added_apps@[app_id].files@.len() {
            assert(all[i] == recorded[i]);
            assert(order.files@[i]@ == all[i]);
        }
    }
}

/// The unlock of a package is used where it carries one; otherwise the app's own Lua is written,
/// and why no manifests come with it is kept.
pub proof fn a_package_is_used_where_it_fits(
    app_id: u32,
    package: Result<Option<String>, String>,
    plan: UnlockPlan,
    number: String,
)
    requires
        call_ensures(unlock_plan, (app_id, package), plan),
        call_ensures(decimal, (app_id as u64,), number),
    ensures
        plan.from_package <==> package matches Ok(Some(_)),
        package matches Ok(Some(name)) ==> plan.file_name == name && plan.no_manifests is None,
        !plan.from_package ==> plan.file_name@ == number@ + ".lua"@ && plan.no_manifests is Some,
        package matches Err(error) ==> plan.no_manifests == Some(error),
{
}

/// Apps are added under a current service only.
pub proof fn adding_needs_a_current_service(state: SteamServiceState, allowed: Result<(), String>)
    requires
        call_ensures(service_allows_adding, (state,), allowed),
    ensures
        state == SteamServiceState::Current ==> allowed is Ok,
        state == SteamServiceState::NotInstalled ==> allowed is Err,
        state == SteamServiceState::UpdateAvailable ==> allowed is Err,
        state == SteamServiceState::Error ==> allowed is Err,
{
}

/// The service is installed and removed where Steam is, one action at a time.
pub proof fn one_service_action_at_a_time(
    app: &mut DrydockApp,
    root: Option<String>,
    again: &mut DrydockApp,
    second: Option<String>,
)
    requires
        call_ensures(DrydockApp::install_steam_service, (app,), root),
        *old(again) == *final(app),
        call_ensures(DrydockApp::uninstall_steam_service, (again,), second),
    ensures
        root is Some <==> old(app).steam.root is Some && !old(app).steam_jobs.service,
        root is Some ==> root == old(app).steam.root && final(app).steam_jobs.service,
        root is Some ==> second is None,
        old(app).steam.root is None ==> final(app).line.error && second is None,
{
}

} // verus!
