//! What each operation leaves alone within the parts that it changes.
use crate::activation::{ResponseOrder, UbisoftPrepared};
use crate::catalog::Catalog;
use crate::library_actions::AddGameOutcome;
use crate::refresh::{DenuvoOrder, RefreshOrder};
use crate::service::{ServiceFollowUp, ServiceOutcome};
use crate::state::{
    ActivationJobs, ActivationState, CloudProvider, CloudState, DownloadState, DrydockApp,
    LibraryState, ListJobs, Settings, SettingsForm, SideJobs, SteamJobs, SteamState,
    SteamStoreDetails, StoreState, VerifiedEntitlement,
};
use crate::types::{
    CatalogApp, FixEntry, RepackApp, Reply, SeeAllSection, SteamManifest, StoreFeatured,
};
use crate::unlocks::UnlockUpdateSweep;
use std::collections::BTreeSet;
use vstd::prelude::*;

verus! {

/// `poll_activation_request`, `verify_activation_response`, `poll_activation_verification`,
/// `choose_activation_folder`, `choose_ubisoft_folder` change of each part only the fields named
/// here.
pub proof fn fields_that_activation_leaves(
    a: &mut DrydockApp,
    a_reply: Reply<Result<String, String>>,
    b: &mut DrydockApp,
    b_answer: Option<ResponseOrder>,
    c: &mut DrydockApp,
    c_reply: Reply<Result<VerifiedEntitlement, String>>,
    d: &mut DrydockApp,
    d_folder: String,
    e: &mut DrydockApp,
    e_folder: String,
)
    requires
        call_ensures(DrydockApp::poll_activation_request, (a, a_reply), ()),
        call_ensures(DrydockApp::verify_activation_response, (b,), b_answer),
        call_ensures(DrydockApp::poll_activation_verification, (c, c_reply), ()),
        call_ensures(DrydockApp::choose_activation_folder, (d, d_folder), ()),
        call_ensures(DrydockApp::choose_ubisoft_folder, (e, e_folder), ()),
    ensures
        final(a).activation_jobs == (ActivationJobs {
            request: final(a).activation_jobs.request,
            ..old(a).activation_jobs
        }),
        final(a).activation == (ActivationState {
            request_code: final(a).activation.request_code,
            ..old(a).activation
        }),
        final(b).activation_jobs == (ActivationJobs {
            verify: final(b).activation_jobs.verify,
            ..old(b).activation_jobs
        }),
        final(b).activation == (ActivationState {
            success_app: final(b).activation.success_app,
            verified_entitlement: final(b).activation.verified_entitlement,
            ..old(b).activation
        }),
        final(c).activation_jobs == (ActivationJobs {
            verify: final(c).activation_jobs.verify,
            ..old(c).activation_jobs
        }),
        final(c).activation == (ActivationState {
            success_app: final(c).activation.success_app,
            verified_entitlement: final(c).activation.verified_entitlement,
            ..old(c).activation
        }),
        final(d).activation == (ActivationState {
            path: final(d).activation.path,
            root: final(d).activation.root,
            ..old(d).activation
        }),
        final(e).activation == (ActivationState {
            path: final(e).activation.path,
            ubisoft_code: final(e).activation.ubisoft_code,
            ..old(e).activation
        }),
{
}

/// `verify_setting_saved`, `poll_ubisoft_prepare`, `verify_ubisoft_response` change of each part
/// only the fields named here.
pub proof fn fields_that_activation_leaves_too(
    a: &mut DrydockApp,
    a_previous: bool,
    a_written: Result<(), String>,
    b: &mut DrydockApp,
    b_reply: Reply<Result<UbisoftPrepared, String>>,
    c: &mut DrydockApp,
    c_answer: Option<ResponseOrder>,
)
    requires
        call_ensures(DrydockApp::verify_setting_saved, (a, a_previous, a_written), ()),
        call_ensures(DrydockApp::poll_ubisoft_prepare, (b, b_reply), ()),
        call_ensures(DrydockApp::verify_ubisoft_response, (c,), c_answer),
    ensures
        final(a).settings == (Settings {
            verify_before_activation: final(a).settings.verify_before_activation,
            ..old(a).settings
        }),
        final(b).activation_jobs == (ActivationJobs {
            ubisoft_prepare: final(b).activation_jobs.ubisoft_prepare,
            ..old(b).activation_jobs
        }),
        final(b).activation == (ActivationState {
            ubisoft_code: final(b).activation.ubisoft_code,
            ubisoft_exe_dir: final(b).activation.ubisoft_exe_dir,
            ..old(b).activation
        }),
        final(c).activation_jobs == (ActivationJobs {
            verify: final(c).activation_jobs.verify,
            ..old(c).activation_jobs
        }),
        final(c).activation == (ActivationState {
            verified_entitlement: final(c).activation.verified_entitlement,
            ..old(c).activation
        }),
{
}

/// `refresh_cloud_state`, `start_cloud_download`, `start_cloud_oauth` change of each part only the
/// fields named here.
pub proof fn fields_that_cloud_leaves(
    a: &mut DrydockApp,
    a_hook_installed: bool,
    a_provider: Option<CloudProvider>,
    b: &mut DrydockApp,
    b_answer: bool,
    c: &mut DrydockApp,
    c_provider: &str,
    c_answer: bool,
)
    requires
        call_ensures(DrydockApp::refresh_cloud_state, (a, a_hook_installed, a_provider), ()),
        call_ensures(DrydockApp::start_cloud_download, (b,), b_answer),
        call_ensures(DrydockApp::start_cloud_oauth, (c, c_provider), c_answer),
    ensures
        final(a).cloud == (CloudState {
            dll_installed: final(a).cloud.dll_installed,
            provider: final(a).cloud.provider,
            ..old(a).cloud
        }),
        final(b).side_jobs == (SideJobs {
            cloud_download: final(b).side_jobs.cloud_download,
            ..old(b).side_jobs
        }),
        final(c).side_jobs == (SideJobs {
            cloud_oauth: final(c).side_jobs.cloud_oauth,
            ..old(c).side_jobs
        }),
{
}

/// `open_details`, `poll_store_details` change of each part only the fields named here.
pub proof fn fields_that_details_leaves(
    a: &mut DrydockApp,
    a_app_id: u32,
    b: &mut DrydockApp,
    b_reply: Reply<(u32, Result<SteamStoreDetails, String>)>,
)
    requires
        call_ensures(DrydockApp::open_details, (a, a_app_id), ()),
        call_ensures(DrydockApp::poll_store_details, (b, b_reply), ()),
    ensures
        final(a).list_jobs == (ListJobs {
            store: final(a).list_jobs.store,
            ..old(a).list_jobs
        }),
        final(b).list_jobs == (ListJobs {
            store: final(b).list_jobs.store,
            ..old(b).list_jobs
        }),
{
}

/// `dismiss_verify` changes of each part only the fields named here.
pub proof fn fields_that_downloads_leaves(app: &mut DrydockApp)
    requires
        call_ensures(DrydockApp::dismiss_verify, (app,), ()),
    ensures
        final(app).downloads == (DownloadState {
            job: final(app).downloads.job,
            ..old(app).downloads
        }),
{
}

/// `open_see_all` changes of each part only the fields named here.
pub proof fn fields_that_home_leaves(app: &mut DrydockApp, section: SeeAllSection)
    requires
        call_ensures(DrydockApp::open_see_all, (app, section), ()),
    ensures
        final(app).store == (StoreState {
            see_all_section: final(app).store.see_all_section,
            ..old(app).store
        }),
{
}

/// `set_library_launch_path`, `begin_add_game`, `cancel_add_game`, `start_add_game_detect`,
/// `poll_add_game` change of each part only the fields named here.
pub proof fn fields_that_library_actions_leaves(
    a: &mut DrydockApp,
    a_app_id: u32,
    a_file: String,
    b: &mut DrydockApp,
    b_folder: String,
    c: &mut DrydockApp,
    d: &mut DrydockApp,
    d_app_id: u32,
    d_answer: Option<String>,
    e: &mut DrydockApp,
    e_reply: Reply<Result<AddGameOutcome, String>>,
    e_answer: Option<String>,
)
    requires
        call_ensures(DrydockApp::set_library_launch_path, (a, a_app_id, a_file), ()),
        call_ensures(DrydockApp::begin_add_game, (b, b_folder), ()),
        call_ensures(DrydockApp::cancel_add_game, (c,), ()),
        call_ensures(DrydockApp::start_add_game_detect, (d, d_app_id), d_answer),
        call_ensures(DrydockApp::poll_add_game, (e, e_reply), e_answer),
    ensures
        final(a).settings == (Settings {
            launch_paths: final(a).settings.launch_paths,
            ..old(a).settings
        }),
        final(b).library == (LibraryState {
            add_game_folder: final(b).library.add_game_folder,
            add_game_search: final(b).library.add_game_search,
            ..old(b).library
        }),
        final(c).library == (LibraryState {
            add_game_folder: final(c).library.add_game_folder,
            add_game_search: final(c).library.add_game_search,
            ..old(c).library
        }),
        final(d).side_jobs == (SideJobs {
            add_game: final(d).side_jobs.add_game,
            ..old(d).side_jobs
        }),
        final(e).side_jobs == (SideJobs {
            add_game: final(e).side_jobs.add_game,
            ..old(e).side_jobs
        }),
        final(e).library == (LibraryState {
            add_game_folder: final(e).library.add_game_folder,
            add_game_search: final(e).library.add_game_search,
            selected: final(e).library.selected,
            ..old(e).library
        }),
{
}

/// `start_download_install_detect`, `poll_download_install` change of each part only the fields
/// named here.
pub proof fn fields_that_library_actions_leaves_too(
    a: &mut DrydockApp,
    a_answer: bool,
    b: &mut DrydockApp,
    b_reply: Reply<Result<AddGameOutcome, String>>,
    b_answer: bool,
)
    requires
        call_ensures(DrydockApp::start_download_install_detect, (a,), a_answer),
        call_ensures(DrydockApp::poll_download_install, (b, b_reply), b_answer),
    ensures
        final(a).side_jobs == (SideJobs {
            download_install: final(a).side_jobs.download_install,
            ..old(a).side_jobs
        }),
        final(b).side_jobs == (SideJobs {
            download_install: final(b).side_jobs.download_install,
            ..old(b).side_jobs
        }),
{
}

/// `start_catalog_refresh`, `start_denuvo_refresh`, `start_fixes_refresh`, `start_repacks_refresh`,
/// `force_catalog_refresh` change of each part only the fields named here.
pub proof fn fields_that_refresh_leaves(
    a: &mut DrydockApp,
    a_force: bool,
    a_marker_current: bool,
    a_answer: bool,
    b: &mut DrydockApp,
    b_force: bool,
    b_answer: Option<DenuvoOrder>,
    c: &mut DrydockApp,
    c_answer: bool,
    d: &mut DrydockApp,
    d_answer: bool,
    e: &mut DrydockApp,
    e_now: u128,
    e_answer: RefreshOrder,
)
    requires
        call_ensures(DrydockApp::start_catalog_refresh, (a, a_force, a_marker_current), a_answer),
        call_ensures(DrydockApp::start_denuvo_refresh, (b, b_force), b_answer),
        call_ensures(DrydockApp::start_fixes_refresh, (c,), c_answer),
        call_ensures(DrydockApp::start_repacks_refresh, (d,), d_answer),
        call_ensures(DrydockApp::force_catalog_refresh, (e, e_now), e_answer),
    ensures
        final(a).list_jobs == (ListJobs {
            catalog: final(a).list_jobs.catalog,
            ..old(a).list_jobs
        }),
        final(b).list_jobs == (ListJobs {
            denuvo: final(b).list_jobs.denuvo,
            ..old(b).list_jobs
        }),
        final(c).list_jobs == (ListJobs {
            fixes: final(c).list_jobs.fixes,
            ..old(c).list_jobs
        }),
        final(d).list_jobs == (ListJobs {
            repacks: final(d).list_jobs.repacks,
            ..old(d).list_jobs
        }),
        final(e).list_jobs == (ListJobs {
            catalog: final(e).list_jobs.catalog,
            denuvo: final(e).list_jobs.denuvo,
            ..old(e).list_jobs
        }),
        final(e).catalog == (Catalog {
            denuvo_loaded: final(e).catalog.denuvo_loaded,
            ..old(e).catalog
        }),
{
}

/// `poll_catalog_refresh`, `poll_denuvo_refresh`, `poll_fixes_refresh`, `poll_repacks_refresh`,
/// `poll_featured` change of each part only the fields named here.
pub proof fn fields_that_refresh_leaves_too(
    a: &mut DrydockApp,
    a_reply: Reply<Result<Vec<CatalogApp>, String>>,
    a_answer: Option<bool>,
    b: &mut DrydockApp,
    b_reply: Reply<Result<Vec<u32>, String>>,
    c: &mut DrydockApp,
    c_reply: Reply<Result<Vec<FixEntry>, String>>,
    d: &mut DrydockApp,
    d_reply: Reply<Result<Vec<RepackApp>, String>>,
    e: &mut DrydockApp,
    e_reply: Reply<Result<StoreFeatured, String>>,
)
    requires
        call_ensures(DrydockApp::poll_catalog_refresh, (a, a_reply), a_answer),
        call_ensures(DrydockApp::poll_denuvo_refresh, (b, b_reply), ()),
        call_ensures(DrydockApp::poll_fixes_refresh, (c, c_reply), ()),
        call_ensures(DrydockApp::poll_repacks_refresh, (d, d_reply), ()),
        call_ensures(DrydockApp::poll_featured, (e, e_reply), ()),
    ensures
        final(a).list_jobs == (ListJobs {
            catalog: final(a).list_jobs.catalog,
            ..old(a).list_jobs
        }),
        final(b).list_jobs == (ListJobs {
            denuvo: final(b).list_jobs.denuvo,
            ..old(b).list_jobs
        }),
        final(c).list_jobs == (ListJobs {
            fixes: final(c).list_jobs.fixes,
            ..old(c).list_jobs
        }),
        final(d).list_jobs == (ListJobs {
            repacks: final(d).list_jobs.repacks,
            ..old(d).list_jobs
        }),
        final(e).list_jobs == (ListJobs {
            featured: final(e).list_jobs.featured,
            ..old(e).list_jobs
        }),
{
}

/// `install_steam_service`, `uninstall_steam_service`, `poll_service_action` change of each part
/// only the fields named here.
pub proof fn fields_that_service_leaves(
    a: &mut DrydockApp,
    a_answer: Option<String>,
    b: &mut DrydockApp,
    b_answer: Option<String>,
    c: &mut DrydockApp,
    c_reply: Reply<Result<ServiceOutcome, String>>,
    c_answer: ServiceFollowUp,
)
    requires
        call_ensures(DrydockApp::install_steam_service, (a,), a_answer),
        call_ensures(DrydockApp::uninstall_steam_service, (b,), b_answer),
        call_ensures(DrydockApp::poll_service_action, (c, c_reply), c_answer),
    ensures
        final(a).steam_jobs == (SteamJobs {
            service: final(a).steam_jobs.service,
            ..old(a).steam_jobs
        }),
        final(b).steam_jobs == (SteamJobs {
            service: final(b).steam_jobs.service,
            ..old(b).steam_jobs
        }),
        final(c).steam_jobs == (SteamJobs {
            service: final(c).steam_jobs.service,
            ..old(c).steam_jobs
        }),
        final(c).settings == (Settings {
            added_apps: final(c).settings.added_apps,
            ..old(c).settings
        }),
        final(c).steam == (SteamState {
            service_status: final(c).steam.service_status,
            ..old(c).steam
        }),
{
}

/// `save_settings`, `steam_folder_detected`, `steam_folder_picked`, `games_folder_picked`,
/// `use_steam_library` change of each part only the fields named here.
pub proof fn fields_that_settings_page_leaves(
    a: &mut DrydockApp,
    b: &mut DrydockApp,
    b_found: Option<String>,
    c: &mut DrydockApp,
    c_folder: String,
    d: &mut DrydockApp,
    d_folder: String,
    e: &mut DrydockApp,
)
    requires
        call_ensures(DrydockApp::save_settings, (a,), ()),
        call_ensures(DrydockApp::steam_folder_detected, (b, b_found), ()),
        call_ensures(DrydockApp::steam_folder_picked, (c, c_folder), ()),
        call_ensures(DrydockApp::games_folder_picked, (d, d_folder), ()),
        call_ensures(DrydockApp::use_steam_library, (e,), ()),
    ensures
        final(a).settings == (Settings {
            games_directory: final(a).settings.games_directory,
            steam_directory: final(a).settings.steam_directory,
            ..old(a).settings
        }),
        final(b).form == (SettingsForm {
            steam_directory: final(b).form.steam_directory,
            validated: final(b).form.validated,
            ..old(b).form
        }),
        final(c).form == (SettingsForm {
            steam_directory: final(c).form.steam_directory,
            validated: final(c).form.validated,
            ..old(c).form
        }),
        final(d).form == (SettingsForm {
            games_directory: final(d).form.games_directory,
            ..old(d).form
        }),
        final(e).settings == (Settings {
            games_directory: final(e).settings.games_directory,
            steam_directory: final(e).settings.steam_directory,
            ..old(e).settings
        }),
        final(e).form == (SettingsForm {
            games_directory: final(e).form.games_directory,
            ..old(e).form
        }),
{
}

/// `set_connections`, `set_bandwidth`, `set_verify_threads`, `self_hosting_panel` change of each
/// part only the fields named here.
pub proof fn fields_that_settings_page_leaves_too(
    a: &mut DrydockApp,
    a_connections: u32,
    a_answer: bool,
    b: &mut DrydockApp,
    b_mbps: u32,
    b_answer: bool,
    c: &mut DrydockApp,
    c_threads: u32,
    c_answer: bool,
    d: &mut DrydockApp,
    d_base_url: String,
    d_secret: String,
    d_repository: String,
    d_answer: bool,
)
    requires
        call_ensures(DrydockApp::set_connections, (a, a_connections), a_answer),
        call_ensures(DrydockApp::set_bandwidth, (b, b_mbps), b_answer),
        call_ensures(DrydockApp::set_verify_threads, (c, c_threads), c_answer),
        call_ensures(
            DrydockApp::self_hosting_panel,
            (d, d_base_url, d_secret, d_repository),
            d_answer,
        ),
    ensures
        final(a).settings == (Settings {
            max_download_connections: final(a).settings.max_download_connections,
            ..old(a).settings
        }),
        final(b).settings == (Settings {
            max_download_mbps: final(b).settings.max_download_mbps,
            ..old(b).settings
        }),
        final(c).settings == (Settings {
            verify_threads: final(c).settings.verify_threads,
            ..old(c).settings
        }),
        final(d).settings == (Settings {
            proxy_base_url: final(d).settings.proxy_base_url,
            proxy_hmac_secret: final(d).settings.proxy_hmac_secret,
            update_repository: final(d).settings.update_repository,
            ..old(d).settings
        }),
{
}

/// `cancel_crack_removal`, `close_success_window` change of each part only the fields named here.
pub proof fn fields_that_shell_leaves(a: &mut DrydockApp, b: &mut DrydockApp)
    requires
        call_ensures(DrydockApp::cancel_crack_removal, (a,), ()),
        call_ensures(DrydockApp::close_success_window, (b,), ()),
    ensures
        final(a).activation == (ActivationState {
            pending_crack: final(a).activation.pending_crack,
            ..old(a).activation
        }),
        final(b).activation == (ActivationState {
            success_app: final(b).activation.success_app,
            ..old(b).activation
        }),
{
}

/// `refresh_plugin_luas`, `refresh_manifests`, `refresh_service_status`, `refresh_steam`,
/// `begin_unlock_updates` change of each part only the fields named here.
pub proof fn fields_that_steam_leaves(
    a: &mut DrydockApp,
    a_found: BTreeSet<u32>,
    b: &mut DrydockApp,
    b_scanned: Result<Vec<SteamManifest>, String>,
    c: &mut DrydockApp,
    c_answer: Option<String>,
    d: &mut DrydockApp,
    d_root: Option<String>,
    d_conflicts: Vec<String>,
    d_scanned: Result<Vec<SteamManifest>, String>,
    e: &mut DrydockApp,
)
    requires
        call_ensures(DrydockApp::refresh_plugin_luas, (a, a_found), ()),
        call_ensures(DrydockApp::refresh_manifests, (b, b_scanned), ()),
        call_ensures(DrydockApp::refresh_service_status, (c,), c_answer),
        call_ensures(DrydockApp::refresh_steam, (d, d_root, d_conflicts, d_scanned), ()),
        call_ensures(DrydockApp::begin_unlock_updates, (e,), ()),
    ensures
        final(a).steam == (SteamState {
            plugin_luas: final(a).steam.plugin_luas,
            ..old(a).steam
        }),
        final(b).steam == (SteamState {
            manifests: final(b).steam.manifests,
            ..old(b).steam
        }),
        final(c).steam_jobs == (SteamJobs {
            service: final(c).steam_jobs.service,
            ..old(c).steam_jobs
        }),
        final(d).steam == (SteamState {
            conflicts: final(d).steam.conflicts,
            manifests: final(d).steam.manifests,
            root: final(d).steam.root,
            service_status: final(d).steam.service_status,
            ..old(d).steam
        }),
        final(d).activation == (ActivationState {
            request_code: final(d).activation.request_code,
            response_code: final(d).activation.response_code,
            success_app: final(d).activation.success_app,
            verified_entitlement: final(d).activation.verified_entitlement,
            ..old(d).activation
        }),
        final(e).steam_jobs == (SteamJobs {
            unlock_update: final(e).steam_jobs.unlock_update,
            ..old(e).steam_jobs
        }),
{
}

/// `poll_unlock_updates`, `guard_depot_manifests`, `poll_manifest_guard`,
/// `restart_steam_in_background`, `poll_background_action` change of each part only the fields
/// named here.
pub proof fn fields_that_steam_leaves_too(
    a: &mut DrydockApp,
    a_reply: &Reply<UnlockUpdateSweep>,
    a_answer: bool,
    b: &mut DrydockApp,
    b_running: bool,
    b_now: u128,
    b_cooldown: u128,
    b_answer: Option<Vec<(u32, bool)>>,
    c: &mut DrydockApp,
    c_reply: Reply<(usize, usize, Option<u32>)>,
    d: &mut DrydockApp,
    d_answer: Option<String>,
    e: &mut DrydockApp,
    e_reply: Reply<Result<String, String>>,
)
    requires
        call_ensures(DrydockApp::poll_unlock_updates, (a, a_reply), a_answer),
        call_ensures(
            DrydockApp::guard_depot_manifests,
            (b, b_running, b_now, b_cooldown),
            b_answer,
        ),
        call_ensures(DrydockApp::poll_manifest_guard, (c, c_reply), ()),
        call_ensures(DrydockApp::restart_steam_in_background, (d,), d_answer),
        call_ensures(DrydockApp::poll_background_action, (e, e_reply), ()),
    ensures
        final(a).steam_jobs == (SteamJobs {
            unlock_update: final(a).steam_jobs.unlock_update,
            ..old(a).steam_jobs
        }),
        final(a).settings == (Settings {
            added_apps: final(a).settings.added_apps,
            ..old(a).settings
        }),
        final(b).steam_jobs == (SteamJobs {
            manifest_guard: final(b).steam_jobs.manifest_guard,
            ..old(b).steam_jobs
        }),
        final(c).steam_jobs == (SteamJobs {
            manifest_guard: final(c).steam_jobs.manifest_guard,
            ..old(c).steam_jobs
        }),
        final(c).steam == (SteamState {
            manifest_fetch_attempted: final(c).steam.manifest_fetch_attempted,
            ..old(c).steam
        }),
        final(d).steam_jobs == (SteamJobs {
            background: final(d).steam_jobs.background,
            ..old(d).steam_jobs
        }),
        final(e).steam_jobs == (SteamJobs {
            background: final(e).steam_jobs.background,
            ..old(e).steam_jobs
        }),
{
}

/// `apply_denuvo_fix_for` changes of each part only the fields named here.
pub proof fn fields_that_steam_leaves_also(
    app: &mut DrydockApp,
    app_id: u32,
    answer: Option<(String, String)>,
)
    requires
        call_ensures(DrydockApp::apply_denuvo_fix_for, (app, app_id), answer),
    ensures
        final(app).steam_jobs == (SteamJobs {
            background: final(app).steam_jobs.background,
            ..old(app).steam_jobs
        }),
{
}

/// `start_emu_toolchain_refresh` changes of each part only the fields named here.
pub proof fn fields_that_tools_leaves(app: &mut DrydockApp, answer: bool)
    requires
        call_ensures(DrydockApp::start_emu_toolchain_refresh, (app,), answer),
    ensures
        final(app).steam_jobs == (SteamJobs {
            emu: final(app).steam_jobs.emu,
            ..old(app).steam_jobs
        }),
{
}

/// `start_update_check`, `set_auto_update`, `auto_update_saved` change of each part only the fields
/// named here.
pub proof fn fields_that_updates_leaves(
    a: &mut DrydockApp,
    a_automatic: bool,
    a_can_self_update: bool,
    a_marker_current: bool,
    a_answer: bool,
    b: &mut DrydockApp,
    b_enabled: bool,
    c: &mut DrydockApp,
    c_previous: bool,
    c_written: Result<(), String>,
)
    requires
        call_ensures(
            DrydockApp::start_update_check,
            (a, a_automatic, a_can_self_update, a_marker_current),
            a_answer,
        ),
        call_ensures(DrydockApp::set_auto_update, (b, b_enabled), ()),
        call_ensures(DrydockApp::auto_update_saved, (c, c_previous, c_written), ()),
    ensures
        final(a).steam_jobs == (SteamJobs {
            update: final(a).steam_jobs.update,
            ..old(a).steam_jobs
        }),
        final(b).settings == (Settings {
            auto_update_drydock: final(b).settings.auto_update_drydock,
            ..old(b).settings
        }),
        final(c).settings == (Settings {
            auto_update_drydock: final(c).settings.auto_update_drydock,
            ..old(c).settings
        }),
{
}

} // verus!
