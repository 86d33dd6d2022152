//! What updates promise: a choice for a game decides over what is on disk, an unsaved choice is
//! undone, and Drydock updates itself when it is asked to or may.
use crate::state::{DrydockApp, Settings};
use crate::types::Reply;
use crate::updates::{blocked_count, update_marker, updates_allowed, UpdatesView};
use std::collections::BTreeMap;
use vstd::prelude::*;

verus! {

/// A game that a choice was made for is updated as chosen, whatever is on disk; another one as it
/// says on disk, and freely where nothing is said.
pub proof fn the_choice_comes_before_the_disk(
    chosen: &BTreeMap<u32, bool>,
    app_id: u32,
    on_disk: Option<bool>,
    allowed: bool,
)
    requires
        call_ensures(updates_allowed, (chosen, app_id, on_disk), allowed),
    ensures
        chosen@.contains_key(app_id) ==> allowed == chosen@[app_id],
        !chosen@.contains_key(app_id) && on_disk is Some ==> allowed == on_disk->0,
        !chosen@.contains_key(app_id) && on_disk is None ==> allowed,
{
}

/// A choice that is made holds for its game from then on, and for no other game.
pub proof fn a_choice_holds_for_its_game(
    settings: &mut Settings,
    app_id: u32,
    enabled: bool,
    other: u32,
    on_disk: Option<bool>,
    before: bool,
    own: bool,
    after: bool,
)
    requires
        call_ensures(Settings::choose_updates, (settings, app_id, enabled), ()),
        other != app_id,
        call_ensures(
            updates_allowed,
            (&old(settings).steam_updates_enabled, other, on_disk),
            before,
        ),
        call_ensures(
            updates_allowed,
            (&final(settings).steam_updates_enabled, app_id, on_disk),
            own,
        ),
        call_ensures(
            updates_allowed,
            (&final(settings).steam_updates_enabled, other, on_disk),
            after,
        ),
    ensures
        own == enabled,
        after == before,
        final(settings).installed_games == old(settings).installed_games,
        final(settings).added_apps == old(settings).added_apps,
        final(settings).download_queue == old(settings).download_queue,
{
}

/// A choice is taken once Steam's own file is changed, and given up again where it cannot be saved:
/// the game then counts as before. A file that could not be changed changes nothing.
pub proof fn an_unsaved_choice_is_given_up(
    app: &mut DrydockApp,
    app_id: u32,
    enabled: bool,
    on_disk: Option<bool>,
    previous: bool,
    changed: Result<(), String>,
    save: bool,
    saved: &mut DrydockApp,
    written: Result<(), String>,
    rollback: Result<(), String>,
    now: bool,
)
    requires
        call_ensures(
            updates_allowed,
            (&old(app).settings.steam_updates_enabled, app_id, on_disk),
            previous,
        ),
        call_ensures(DrydockApp::manifest_changed, (app, app_id, enabled, changed), save),
        *old(saved) == *final(app),
        call_ensures(
            DrydockApp::choice_saved,
            (saved, app_id, enabled, previous, written, rollback),
            (),
        ),
        call_ensures(
            updates_allowed,
            (&final(saved).settings.steam_updates_enabled, app_id, on_disk),
            now,
        ),
    ensures
        save <==> changed is Ok,
        changed is Err ==> final(app).settings == old(app).settings && final(app).line.error,
        changed is Ok && written is Ok ==> now == enabled && !final(saved).line.error,
        changed is Ok && written is Err ==> now == previous && final(saved).line.error,
{
}

/// The marker of an update check changes with the version, the repository and the way GitHub is
/// asked.
pub proof fn the_marker_names_what_was_checked(
    version: &str,
    repository: &str,
    mode: &str,
    marker: String,
)
    requires
        call_ensures(update_marker, (version, repository, mode), marker),
    ensures
        marker@.len() == version@.len() + repository@.len() + mode@.len() + 2,
        marker@.take(version@.len() as int) == version@,
        marker@.subrange(version@.len() as int + 1, (version@.len() + 1 + repository@.len()) as int)
            == repository@,
        marker@.skip(marker@.len() - mode@.len()) == mode@,
{
    reveal_strlit(":");
    assert(marker@.take(version@.len() as int) =~= version@);
    assert(marker@.subrange(version@.len() as int + 1, (version@.len() + 1 + repository@.len()) as int)
        =~= repository@);
    assert(marker@.skip(marker@.len() - mode@.len()) =~= mode@);
}

/// A check runs where Drydock can update itself and none runs yet; one that nobody asked for is
/// left out where one was made not long ago. A version that was found is the one launched, and a
/// failure is told of.
pub proof fn a_found_version_is_launched(
    app: &mut DrydockApp,
    automatic: bool,
    can: bool,
    current: bool,
    check: bool,
    again: &mut DrydockApp,
    second: bool,
    polled: &mut DrydockApp,
    answer: Result<Option<String>, String>,
    launch: Option<String>,
)
    requires
        call_ensures(DrydockApp::start_update_check, (app, automatic, can, current), check),
        *old(again) == *final(app),
        call_ensures(DrydockApp::start_update_check, (again, false, can, current), second),
        *old(polled) == *final(app),
        call_ensures(DrydockApp::poll_update, (polled, Reply::Done(answer)), launch),
    ensures
        !can ==> !check,
        automatic && current ==> !check,
        can && !old(app).steam_jobs.update && !(automatic && current) ==> check,
        check ==> !second,
        check ==> launch == (match answer {
            Ok(version) => version,
            Err(_) => None,
        }),
        check && answer is Err ==> final(polled).line.error,
        check && answer == Ok::<Option<String>, String>(None) ==> !final(polled).line.error,
        check ==> !final(polled).steam_jobs.update && final(polled).line.busy is None,
        !final(app).exit_for_update || old(app).exit_for_update,
{
}

/// Drydock leaves for an update only once that was started.
pub proof fn drydock_leaves_for_a_started_update(
    app: &mut DrydockApp,
    version: &str,
    launched: Result<(), String>,
)
    requires
        call_ensures(DrydockApp::update_launched, (app, version, launched), ()),
    ensures
        launched is Ok ==> final(app).exit_for_update && !final(app).line.error,
        launched is Err ==> final(app).exit_for_update == old(app).exit_for_update
            && final(app).line.error,
{
}

/// The automatic update is set as chosen, and set back where that cannot be saved.
pub proof fn automatic_updates_are_set_as_saved(
    app: &mut DrydockApp,
    enabled: bool,
    saved: &mut DrydockApp,
    written: Result<(), String>,
)
    requires
        call_ensures(DrydockApp::set_auto_update, (app, enabled), ()),
        *old(saved) == *final(app),
        call_ensures(
            DrydockApp::auto_update_saved,
            (saved, old(app).settings.auto_update_drydock, written),
            (),
        ),
    ensures
        final(app).settings.auto_update_drydock == enabled,
        written is Ok ==> final(saved).settings.auto_update_drydock == enabled,
        written is Err ==> final(saved).settings.auto_update_drydock
            == old(app).settings.auto_update_drydock && final(saved).line.error,
        final(saved).settings.steam_updates_enabled == old(app).settings.steam_updates_enabled,
        final(saved).settings.max_download_mbps == old(app).settings.max_download_mbps,
{
}

proof fn blocked_games_are_counted(allowed: Seq<bool>)
    ensures
        blocked_count(allowed) == allowed.filter(|one: bool| !one).len(),
        blocked_count(allowed) > 0 <==> allowed.contains(false),
    decreases allowed.len(),
{
    reveal(Seq::filter);
    if allowed.len() > 0 {
        let head = allowed.drop_last();
        blocked_games_are_counted(head);
        if head.contains(false) {
            let i = choose|i: int| 0 <= i < head.len() && head[i] == false;
            assert(allowed[i] == false);
        }
        if allowed.contains(false) && allowed.last() {
            let i = choose|i: int| 0 <= i < allowed.len() && allowed[i] == false;
            assert(head[i] == false);
        }
        if !allowed.last() {
            assert(allowed[allowed.len() - 1] == false);
        }
    }
}

/// The page lists every installed game in the order of the manifests, each as it is updated, and
/// speaks of protection exactly where some game is blocked.
pub proof fn the_page_shows_each_game_as_it_is(
    app: &DrydockApp,
    on_disk: &Vec<Option<bool>>,
    can: bool,
    own: bool,
    view: UpdatesView,
    i: int,
    allowed: bool,
)
    requires
        call_ensures(DrydockApp::updates_page, (app, on_disk, can, own), view),
        on_disk@.len() == app.steam.manifests@.len(),
        0 <= i < app.steam.manifests@.len(),
        call_ensures(
            updates_allowed,
            (
                &app.settings.steam_updates_enabled,
                app.steam.manifests@[i].app_id,
                on_disk@[i],
            ),
            allowed,
        ),
    ensures
        view.games@.len() == app.steam.manifests@.len(),
        view.games@[i].app_id == app.steam.manifests@[i].app_id,
        view.games@[i].name@ == app.steam.manifests@[i].name@,
        view.games@[i].allowed == allowed,
        view.can_check <==> can && !app.steam_jobs.update,
        view.checking == app.steam_jobs.update,
        !allowed ==> view.protection_pill.1 == crate::types::Tone::Danger,
        view.games_found@ == crate::text::decimal_text(app.steam.manifests@.len())
            + " games found"@,
        view.auto_update.1 == crate::types::Tone::Text <==> app.settings.auto_update_drydock,
        (forall|k: int| 0 <= k < view.games@.len() ==> (#[trigger] view.games@[k]).allowed)
            ==> view.protection_pill.1 == crate::types::Tone::AccentSoft,
{
    let all = app.game_updates(on_disk@);
    blocked_games_are_counted(all);
    assert(crate::updates::shows_game(view.games@[i], app.steam.manifests@[i], all[i]));
    assert(all[i] == allowed);
    if forall|k: int| 0 <= k < view.games@.len() ==> (#[trigger] view.games@[k]).allowed {
        if all.contains(false) {
            let k = choose|k: int| 0 <= k < all.len() && all[k] == false;
            assert(crate::updates::shows_game(view.games@[k], app.steam.manifests@[k], all[k]));
        }
    }
}

} // verus!
