//! What the start of the shell promises, and what it keeps of itself.
use crate::refresh::RefreshOrder;
use crate::startup::{first_catalog, first_line, LoadOutcome, Start};
use crate::state::{
    CloudProvider, DrydockApp, LibraryFilter, Part, StatusLine,
};
use crate::types::{CatalogApp, FixFilter, Page, RepackFilter, SteamManifest, StoreTab};
use std::collections::BTreeSet;
use vstd::prelude::*;

verus! {

broadcast use vstd::std_specs::hash::group_hash_axioms;

/// The shell starts with the settings that were read, on the store, with nothing running and nothing
/// chosen. What it read broken it does not write.
pub proof fn the_shell_starts_afresh(start: Start, app: DrydockApp, saved: Result<(), String>, busy: bool, pending: bool)
    requires
        call_ensures(DrydockApp::new, (start,), app),
        call_ensures(DrydockApp::write_settings, (&app,), saved),
        call_ensures(DrydockApp::download_busy, (&app,), busy),
        call_ensures(DrydockApp::has_pending_background, (&app,), pending),
    ensures
        app.settings == start.settings,
        app.page == Page::Home,
        app.steam.root == start.root,
        saved is Ok <==> start.outcome is Loaded || start.outcome is RecoveredFromBackup,
        app.settings_read_only <==> saved is Err,
        !busy,
        !pending,
        app.downloads.job is None,
        app.selected_app is None,
        app.details.app_id is None,
        app.library.selected is None,
        app.library.filter == LibraryFilter::All,
        app.store.tab == StoreTab::Featured,
        app.store.search@.len() == 0,
        app.store.featured is None,
        app.activation.request_code@.len() == 0,
        app.activation.path@.len() == 0,
        app.catalog.fix_filter == FixFilter::Any,
        app.catalog.repack_filter == RepackFilter::Any,
        app.steam.service_status is None,
        start.manifests matches Ok(manifests) ==> app.steam.manifests == manifests,
        app.steam.conflicts == start.conflicts,
        app.steam.was_running == start.running,
        app.form.games_directory@ == start.settings.games_directory@,
        start.root matches Some(root) ==> app.form.steam_directory@ == root@,
        start.root is None ==> app.form.steam_directory@ == start.settings.steam_directory@,
{
}

/// Every field that the user can type in starts empty, and nothing was chosen, checked or warned of.
pub proof fn every_field_starts_empty(start: Start, app: DrydockApp, app_id: u32, i: int)
    requires
        call_ensures(DrydockApp::new, (start,), app),
    ensures
        app.tools.language_path@.len() == 0,
        app.tools.language_options is None,
        app.tools.language_selection@.len() == 0,
        app.tools.emu_appid@.len() == 0,
        !app.tools.emu_loader_winmm,
        !app.tools.emu_reframework,
        app.cloud.form.provider == CloudProvider::Folder,
        app.cloud.form.folder_path@.len() == 0,
        app.cloud.form.local_path@.len() == 0,
        app.cloud.form.account_id@.len() == 0,
        app.cloud.form.endpoint@.len() == 0,
        app.cloud.form.region@.len() == 0,
        app.cloud.form.access_key_id@.len() == 0,
        app.cloud.form.secret_access_key@.len() == 0,
        app.cloud.form.bucket@.len() == 0,
        app.cloud.form.key_prefix@.len() == 0,
        app.cloud.provider is None && app.cloud.dll_installed is None,
        app.activation.search@.len() == 0,
        app.activation.root is None,
        0 <= i < 8 ==> app.activation.response_code@[i]@.len() == 0,
        app.activation.verified_entitlement is None,
        app.activation.success_app is None,
        app.activation.pending_crack is None,
        app.activation.awaiting_verify is None,
        app.activation.ubisoft_code@.len() == 0,
        app.library.modal is None,
        app.library.search@.len() == 0,
        app.library.add_game_folder is None,
        app.library.add_game_search@.len() == 0,
        !app.library.launch_warned@.contains(app_id),
        !app.steam.plugin_luas@.contains(app_id),
        !app.steam.manifest_fetch_attempted@.contains(app_id),
        app.steam.last_service_check is None,
        app.steam.last_manifest_check is None,
        app.store.hero_carousel_index == 0,
        app.store.see_all_section is None,
        !app.store.featured_loading,
        app.store.featured_error is None,
        !app.unlock_writes.touched_set().contains(app_id),
        !app.unlock_writes.is_held(),
        !app.downloads.paused && app.downloads.error is None && !app.downloads.switch_pending,
        app.last_unlock_update_check is None,
        app.pending_fix_block is None,
        !app.notifications_open && !app.exit_for_update,
        !app.catalog.denuvo_loaded && !app.catalog.fixes_loaded && !app.catalog.repacks_loaded,
        start.manifests is Err ==> app.steam.manifests@.len() == 0,
{
}

/// From the start one refresh of the game list is granted in five minutes.
pub proof fn the_first_refresh_is_granted(
    start: Start,
    fresh: DrydockApp,
    app: &mut DrydockApp,
    now: u128,
    order: RefreshOrder,
)
    requires
        call_ensures(DrydockApp::new, (start,), fresh),
        *old(app) == fresh,
        call_ensures(DrydockApp::force_catalog_refresh, (app, now), order),
    ensures
        order.catalog,
        order.denuvo is Some,
        fresh.catalog_limiter.max == 1,
        fresh.catalog_limiter.window == 5 * 60 * 1_000_000_000,
        fresh.download_limiter.max == 1,
        fresh.download_limiter.window == 60 * 1_000_000_000,
{
    reveal(Seq::filter);
    assert(crate::rate_limiter::in_window(
        fresh.catalog_limiter.hits@,
        now,
        fresh.catalog_limiter.window,
    ).len() == 0);
}

/// The first thing that the shell says is the gravest: a library that could not be read, then paths
/// that were not found, then what became of the settings. Only loaded settings are no error.
pub proof fn the_gravest_is_said_first(
    outcome: &LoadOutcome,
    no_paths: Option<String>,
    no_library: Option<String>,
    line: StatusLine,
)
    requires
        call_ensures(first_line, (outcome, no_paths, no_library), line),
    ensures
        line.busy is None,
        line.error <==> no_library is Some || no_paths is Some || !(*outcome is Loaded),
        no_library matches Some(error) ==> exists|start: Seq<char>|
            line.text@ == #[trigger] (start + error@),
        no_library is None && no_paths is Some ==> exists|a: Seq<char>, b: Seq<char>|
            line.text@ == #[trigger] (a + no_paths->0@ + b),
        no_library is None && no_paths is None && *outcome is Loaded ==> line.text@ == "Ready"@,
        no_library is None && no_paths is None && (*outcome is RecoveredFromBackup) ==> exists|
            start: Seq<char>,
        | line.text@ == #[trigger] (start + outcome->RecoveredFromBackup_reason@),
{
    if let Some(error) = no_library {
        assert(line.text@ == "Steam library could not be read: "@ + error@);
    } else if let Some(error) = no_paths {
        assert(line.text@ == "Portable paths could not be discovered ("@ + error@
            + "); falling back to the current directory."@);
    } else if let LoadOutcome::RecoveredFromBackup { reason } = *outcome {
        assert(line.text@ == "Settings recovered from the backup: "@ + reason@);
    }
}

/// Settings are safe to save where they were read, from the file or its backup.
pub proof fn only_what_was_read_is_saved(outcome: &LoadOutcome, safe: bool)
    requires
        call_ensures(LoadOutcome::save_is_safe, (outcome,), safe),
    ensures
        safe <==> *outcome is Loaded || *outcome is RecoveredFromBackup,
        *outcome is Quarantined || *outcome is Unreadable ==> !safe,
{
}

/// The first game list is the cached one; without it the one that came with the shell; without both
/// the installed games, each under its number and name.
pub proof fn the_best_game_list_is_used(
    cached: Option<Vec<CatalogApp>>,
    embedded: Option<Vec<CatalogApp>>,
    manifests: &Vec<SteamManifest>,
    apps: Vec<CatalogApp>,
    i: int,
)
    requires
        call_ensures(first_catalog, (cached, embedded, manifests), apps),
    ensures
        (cached matches Some(list) && list@.len() > 0) ==> Some(apps) == cached,
        !(cached matches Some(list) && list@.len() > 0) && embedded is Some ==> Some(apps)
            == embedded,
        !(cached matches Some(list) && list@.len() > 0) && embedded is None ==> apps@.len()
            == manifests@.len(),
        !(cached matches Some(list) && list@.len() > 0) && embedded is None && 0 <= i
            < manifests@.len() ==> apps@[i].app_id == manifests@[i].app_id && apps@[i].name@
            == manifests@[i].name@ && !apps@[i].drm && apps@[i].tags@.len() == 0,
{
    if !(cached matches Some(list) && list@.len() > 0) && embedded is None && 0 <= i
        < manifests@.len() {
        assert(crate::refresh::app_model(apps@[i]) == crate::startup::from_manifest(manifests@[i]));
        assert(crate::text::texts(apps@[i].tags@).len() == apps@[i].tags@.len());
    }
}

/// What was scanned anew is what is shown: the installed games, the unlocks and the cloud. Without a
/// Steam folder, or after a failed scan, the installed games stay. The selection stays while its
/// game is installed.
pub proof fn a_new_scan_is_shown(
    app: &mut DrydockApp,
    hook: bool,
    provider: Option<CloudProvider>,
    luas: BTreeSet<u32>,
    scanned: Result<Vec<SteamManifest>, String>,
    app_id: u32,
)
    requires
        call_ensures(DrydockApp::refresh_dynamic_state, (app, hook, provider, luas, scanned), ()),
    ensures
        old(app).steam.root is Some ==> final(app).cloud.dll_installed == Some(hook)
            && final(app).steam.plugin_luas@ == luas@,
        old(app).steam.root is None ==> final(app).cloud.dll_installed is None && !final(
            app).steam.plugin_luas@.contains(app_id),
        final(app).cloud.provider == provider,
        old(app).steam.root is Some && scanned is Ok ==> final(app).steam.manifests
            == scanned->Ok_0,
        old(app).steam.root is None || scanned is Err ==> final(app).steam.manifests
            == old(app).steam.manifests && final(app).selected_app == old(app).selected_app
            && final(app).activation == old(app).activation,
        final(app).selected_app is None || final(app).selected_app == old(app).selected_app,
        old(app).selected_app == Some(app_id) && scanned is Ok && (exists|i: int|
            0 <= i < scanned->Ok_0@.len() && (#[trigger] scanned->Ok_0@[i]).app_id == app_id)
            ==> final(app).selected_app == Some(app_id) && final(app).activation
            == old(app).activation,
        old(app).selected_app == Some(app_id) && old(app).steam.root is Some && scanned is Ok && !(
        exists|i: int|
            0 <= i < scanned->Ok_0@.len() && (#[trigger] scanned->Ok_0@[i]).app_id == app_id)
            ==> final(app).selected_app is None && final(app).activation.request_code@.len() == 0,
        final(app).settings == old(app).settings,
        final(app).downloads == old(app).downloads,
        final(app).catalog == old(app).catalog,
        final(app).steam.root == old(app).steam.root,
        final(app).steam.service_status == old(app).steam.service_status,
{
    if let Ok(manifests) = scanned {
        let ids = crate::steam::manifest_ids(manifests@);
        if exists|i: int| 0 <= i < manifests@.len() && (#[trigger] manifests@[i]).app_id == app_id {
            let i = choose|i: int|
                0 <= i < manifests@.len() && (#[trigger] manifests@[i]).app_id == app_id;
            assert(ids[i] == app_id);
        }
        if ids.contains(app_id) {
            let i = choose|i: int| 0 <= i < ids.len() && ids[i] == app_id;
            assert(manifests@[i].app_id == app_id);
        }
    }
}

/// A change that names the parts it touches leaves every other part of the shell as it was; one that
/// names none leaves the shell as it was.
pub proof fn what_is_not_named_is_kept(before: DrydockApp, changed: Set<Part>, after: DrydockApp)
    requires
        before.keeps_all_but(changed, after),
    ensures
        !changed.contains(Part::Page) ==> after.page == before.page,
        !changed.contains(Part::LastPage) ==> after.last_page == before.last_page,
        !changed.contains(Part::GuideFlow) ==> after.guide_flow == before.guide_flow,
        !changed.contains(Part::NotificationsOpen) ==> after.notifications_open
            == before.notifications_open,
        !changed.contains(Part::ExitForUpdate) ==> after.exit_for_update == before.exit_for_update,
        !changed.contains(Part::Line) ==> after.line == before.line,
        !changed.contains(Part::ListJobs) ==> after.list_jobs == before.list_jobs,
        !changed.contains(Part::SteamJobs) ==> after.steam_jobs == before.steam_jobs,
        !changed.contains(Part::ActivationJobs) ==> after.activation_jobs
            == before.activation_jobs,
        !changed.contains(Part::SideJobs) ==> after.side_jobs == before.side_jobs,
        !changed.contains(Part::Settings) ==> after.settings == before.settings,
        !changed.contains(Part::SettingsReadOnly) ==> after.settings_read_only
            == before.settings_read_only,
        !changed.contains(Part::Form) ==> after.form == before.form,
        !changed.contains(Part::Steam) ==> after.steam == before.steam,
        !changed.contains(Part::Catalog) ==> after.catalog == before.catalog,
        !changed.contains(Part::Store) ==> after.store == before.store,
        !changed.contains(Part::Details) ==> after.details == before.details,
        !changed.contains(Part::SelectedApp) ==> after.selected_app == before.selected_app,
        !changed.contains(Part::Activation) ==> after.activation == before.activation,
        !changed.contains(Part::Library) ==> after.library == before.library,
        !changed.contains(Part::Tools) ==> after.tools == before.tools,
        !changed.contains(Part::Cloud) ==> after.cloud == before.cloud,
        !changed.contains(Part::Downloads) ==> after.downloads == before.downloads,
        !changed.contains(Part::CatalogLimiter) ==> after.catalog_limiter
            == before.catalog_limiter,
        !changed.contains(Part::DownloadLimiter) ==> after.download_limiter
            == before.download_limiter,
        !changed.contains(Part::UnlockWrites) ==> after.unlock_writes == before.unlock_writes,
        !changed.contains(Part::LastUnlockUpdateCheck) ==> after.last_unlock_update_check
            == before.last_unlock_update_check,
        !changed.contains(Part::PendingFixBlock) ==> after.pending_fix_block
            == before.pending_fix_block,
        changed == Set::<Part>::empty() ==> after == before,
{
}

} // verus!
