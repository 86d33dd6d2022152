//! What each operation leaves alone: the parts of the shell that it may change are named, and every
//! other part is as it was.
use crate::activation::{
    ActivationCheck, ActivationNext, AfterVerify, ResponseOrder, UbisoftPrepared,
};
use crate::cloud::HookStep;
use crate::downloads::{DownloadEnd, DownloadUpdate, JobOrder, QueueEffect};
use crate::home::StoreColumn;
use crate::library_actions::AddGameOutcome;
use crate::refresh::{DenuvoOrder, RefreshOrder};
use crate::service::{AddOrder, RemoveOrder, ServiceFollowUp, ServiceOutcome};
use crate::state::{
    CloudProvider, DownloadKind, DrydockApp, GameLanguageOptions, PendingCrack, SteamStoreDetails,
    VerifiedEntitlement,
};
use crate::tools::EmuOrder;
use crate::types::{
    CatalogApp, FixEntry, GuideFlow, Page, RepackApp, Reply, SeeAllSection, SteamManifest,
    StoreFeatured,
};
use crate::unlocks::UnlockUpdateSweep;
use std::collections::{BTreeSet, HashSet};
use vstd::prelude::*;

verus! {

/// `choose_activation_folder`, `choose_ubisoft_folder` change nothing but the activation.
pub proof fn activation_leaves_all_but_activation(
    a: &mut DrydockApp,
    a_folder: String,
    b: &mut DrydockApp,
    b_folder: String,
)
    requires
        call_ensures(DrydockApp::choose_activation_folder, (a, a_folder), ()),
        call_ensures(DrydockApp::choose_ubisoft_folder, (b, b_folder), ()),
    ensures
        *final(a) == (DrydockApp { activation: final(a).activation, ..*old(a) }),
        *final(b) == (DrydockApp { activation: final(b).activation, ..*old(b) }),
{
}

/// `code_copied` changes nothing but the status line.
pub proof fn activation_leaves_all_but_line(app: &mut DrydockApp)
    requires
        call_ensures(DrydockApp::code_copied, (app,), ()),
    ensures
        *final(app) == (DrydockApp { line: final(app).line, ..*old(app) }),
{
}

/// `generate_activation_request`, `poll_activation_request`, `verify_activation_response`,
/// `poll_activation_verification`, `poll_ubisoft_prepare`, `verify_ubisoft_response` change nothing
/// but the status line, the activation's jobs and the activation.
pub proof fn activation_leaves_all_but_line_and_activation_jobs_and_activation(
    a: &mut DrydockApp,
    a_answer: bool,
    b: &mut DrydockApp,
    b_reply: Reply<Result<String, String>>,
    c: &mut DrydockApp,
    c_answer: Option<ResponseOrder>,
    d: &mut DrydockApp,
    d_reply: Reply<Result<VerifiedEntitlement, String>>,
    e: &mut DrydockApp,
    e_reply: Reply<Result<UbisoftPrepared, String>>,
    f: &mut DrydockApp,
    f_answer: Option<ResponseOrder>,
)
    requires
        call_ensures(DrydockApp::generate_activation_request, (a,), a_answer),
        call_ensures(DrydockApp::poll_activation_request, (b, b_reply), ()),
        call_ensures(DrydockApp::verify_activation_response, (c,), c_answer),
        call_ensures(DrydockApp::poll_activation_verification, (d, d_reply), ()),
        call_ensures(DrydockApp::poll_ubisoft_prepare, (e, e_reply), ()),
        call_ensures(DrydockApp::verify_ubisoft_response, (f,), f_answer),
    ensures
        *final(a) == (DrydockApp {
            line: final(a).line,
            activation_jobs: final(a).activation_jobs,
            activation: final(a).activation,
            ..*old(a)
        }),
        *final(b) == (DrydockApp {
            line: final(b).line,
            activation_jobs: final(b).activation_jobs,
            activation: final(b).activation,
            ..*old(b)
        }),
        *final(c) == (DrydockApp {
            line: final(c).line,
            activation_jobs: final(c).activation_jobs,
            activation: final(c).activation,
            ..*old(c)
        }),
        *final(d) == (DrydockApp {
            line: final(d).line,
            activation_jobs: final(d).activation_jobs,
            activation: final(d).activation,
            ..*old(d)
        }),
        *final(e) == (DrydockApp {
            line: final(e).line,
            activation_jobs: final(e).activation_jobs,
            activation: final(e).activation,
            ..*old(e)
        }),
        *final(f) == (DrydockApp {
            line: final(f).line,
            activation_jobs: final(f).activation_jobs,
            activation: final(f).activation,
            ..*old(f)
        }),
{
}

/// `start_activation_check`, `start_crack_removal`, `start_ubisoft_prepare` change nothing but the
/// status line, the activation's jobs and the activation.
pub proof fn activation_leaves_all_but_line_and_activation_jobs_and_activation_too(
    a: &mut DrydockApp,
    a_app_id: u32,
    a_answer: bool,
    b: &mut DrydockApp,
    b_answer: Option<PendingCrack>,
    c: &mut DrydockApp,
    c_answer: bool,
)
    requires
        call_ensures(DrydockApp::start_activation_check, (a, a_app_id), a_answer),
        call_ensures(DrydockApp::start_crack_removal, (b,), b_answer),
        call_ensures(DrydockApp::start_ubisoft_prepare, (c,), c_answer),
    ensures
        *final(a) == (DrydockApp {
            line: final(a).line,
            activation_jobs: final(a).activation_jobs,
            activation: final(a).activation,
            ..*old(a)
        }),
        *final(b) == (DrydockApp {
            line: final(b).line,
            activation_jobs: final(b).activation_jobs,
            activation: final(b).activation,
            ..*old(b)
        }),
        *final(c) == (DrydockApp {
            line: final(c).line,
            activation_jobs: final(c).activation_jobs,
            activation: final(c).activation,
            ..*old(c)
        }),
{
}

/// `continue_activation` changes nothing but the status line, the activation's jobs, the activation
/// and the downloads.
pub proof fn continue_activation_leaves_all_but_the_activation(
    app: &mut DrydockApp,
    app_id: u32,
    root: String,
    answer: ActivationNext,
)
    requires
        call_ensures(DrydockApp::continue_activation, (app, app_id, root), answer),
    ensures
        *final(app) == (DrydockApp {
            line: final(app).line,
            activation_jobs: final(app).activation_jobs,
            activation: final(app).activation,
            downloads: final(app).downloads,
            ..*old(app)
        }),
{
    reveal(DrydockApp::continued);
}

/// `poll_activation_check` changes nothing but the status line, the activation's jobs, the
/// activation and the downloads.
pub proof fn poll_activation_check_leaves_all_but_the_activation(
    app: &mut DrydockApp,
    reply: Reply<Result<ActivationCheck, String>>,
    answer: ActivationNext,
)
    requires
        call_ensures(DrydockApp::poll_activation_check, (app, reply), answer),
    ensures
        *final(app) == (DrydockApp {
            line: final(app).line,
            activation_jobs: final(app).activation_jobs,
            activation: final(app).activation,
            downloads: final(app).downloads,
            ..*old(app)
        }),
{
    reveal(DrydockApp::checked);
    reveal(DrydockApp::continued);
}

/// `poll_activation_remove` changes nothing but the status line, the activation's jobs, the
/// activation and the downloads.
pub proof fn poll_activation_remove_leaves_all_but_the_activation(
    app: &mut DrydockApp,
    reply: Reply<Result<(u32, String), String>>,
    answer: ActivationNext,
)
    requires
        call_ensures(DrydockApp::poll_activation_remove, (app, reply), answer),
    ensures
        *final(app) == (DrydockApp {
            line: final(app).line,
            activation_jobs: final(app).activation_jobs,
            activation: final(app).activation,
            downloads: final(app).downloads,
            ..*old(app)
        }),
{
    reveal(DrydockApp::continued);
}

/// `finish_activation_verify` changes nothing but the status line, the activation's jobs, the
/// activation and the downloads.
pub proof fn finish_activation_verify_leaves_all_but_the_activation(
    app: &mut DrydockApp,
    app_id: u32,
    verified: Option<bool>,
    result: &Result<String, String>,
    answer: AfterVerify,
)
    requires
        call_ensures(DrydockApp::finish_activation_verify, (app, app_id, verified, result), answer),
    ensures
        *final(app) == (DrydockApp {
            line: final(app).line,
            activation_jobs: final(app).activation_jobs,
            activation: final(app).activation,
            downloads: final(app).downloads,
            ..*old(app)
        }),
{
}

/// `verify_setting_saved` changes nothing but the status line and the settings.
pub proof fn activation_leaves_all_but_line_and_settings(
    app: &mut DrydockApp,
    previous: bool,
    written: Result<(), String>,
)
    requires
        call_ensures(DrydockApp::verify_setting_saved, (app, previous, written), ()),
    ensures
        *final(app) == (DrydockApp {
            line: final(app).line,
            settings: final(app).settings,
            ..*old(app)
        }),
{
}

/// `go_to_activation` changes nothing but the page, the selection and the activation.
pub proof fn activation_leaves_all_but_page_and_selected_app_and_activation(
    app: &mut DrydockApp,
    app_id: u32,
)
    requires
        call_ensures(DrydockApp::go_to_activation, (app, app_id), ()),
    ensures
        *final(app) == (DrydockApp {
            page: final(app).page,
            selected_app: final(app).selected_app,
            activation: final(app).activation,
            ..*old(app)
        }),
{
}

/// `select_activation_game` changes nothing but the selection and the activation.
pub proof fn activation_leaves_all_but_selected_app_and_activation(
    app: &mut DrydockApp,
    app_id: u32,
)
    requires
        call_ensures(DrydockApp::select_activation_game, (app, app_id), ()),
    ensures
        *final(app) == (DrydockApp {
            selected_app: final(app).selected_app,
            activation: final(app).activation,
            ..*old(app)
        }),
{
}

/// `refresh_cloud_state` changes nothing but the cloud.
pub proof fn cloud_leaves_all_but_cloud(
    app: &mut DrydockApp,
    hook_installed: bool,
    provider: Option<CloudProvider>,
)
    requires
        call_ensures(DrydockApp::refresh_cloud_state, (app, hook_installed, provider), ()),
    ensures
        *final(app) == (DrydockApp { cloud: final(app).cloud, ..*old(app) }),
{
}

/// `hook_deployed`, `hook_removed`, `cloud_saved` change nothing but the status line.
pub proof fn cloud_leaves_all_but_line(
    a: &mut DrydockApp,
    a_version: &str,
    a_deployed: Result<(), String>,
    b: &mut DrydockApp,
    b_removed: Result<(), String>,
    c: &mut DrydockApp,
    c_provider: &str,
    c_saved: Result<(), String>,
)
    requires
        call_ensures(DrydockApp::hook_deployed, (a, a_version, a_deployed), ()),
        call_ensures(DrydockApp::hook_removed, (b, b_removed), ()),
        call_ensures(DrydockApp::cloud_saved, (c, c_provider, c_saved), ()),
    ensures
        *final(a) == (DrydockApp { line: final(a).line, ..*old(a) }),
        *final(b) == (DrydockApp { line: final(b).line, ..*old(b) }),
        *final(c) == (DrydockApp { line: final(c).line, ..*old(c) }),
{
}

/// `start_cloud_download`, `start_cloud_oauth` change nothing but the status line and the side
/// jobs.
pub proof fn cloud_leaves_all_but_line_and_side_jobs(
    a: &mut DrydockApp,
    a_answer: bool,
    b: &mut DrydockApp,
    b_provider: &str,
    b_answer: bool,
)
    requires
        call_ensures(DrydockApp::start_cloud_download, (a,), a_answer),
        call_ensures(DrydockApp::start_cloud_oauth, (b, b_provider), b_answer),
    ensures
        *final(a) == (DrydockApp { line: final(a).line, side_jobs: final(a).side_jobs, ..*old(a) }),
        *final(b) == (DrydockApp { line: final(b).line, side_jobs: final(b).side_jobs, ..*old(b) }),
{
}

/// `poll_cloud_download`, `poll_cloud_oauth` change nothing but the status line, the side jobs and
/// the cloud.
pub proof fn cloud_leaves_all_but_line_and_side_jobs_and_cloud(
    a: &mut DrydockApp,
    a_reply: Reply<Result<String, String>>,
    a_answer: HookStep,
    b: &mut DrydockApp,
    b_reply: Reply<Result<(), String>>,
    b_answer: bool,
)
    requires
        call_ensures(DrydockApp::poll_cloud_download, (a, a_reply), a_answer),
        call_ensures(DrydockApp::poll_cloud_oauth, (b, b_reply), b_answer),
    ensures
        *final(a) == (DrydockApp {
            line: final(a).line,
            side_jobs: final(a).side_jobs,
            cloud: final(a).cloud,
            ..*old(a)
        }),
        *final(b) == (DrydockApp {
            line: final(b).line,
            side_jobs: final(b).side_jobs,
            cloud: final(b).cloud,
            ..*old(b)
        }),
{
}

/// `repack_opened` changes nothing but the status line.
pub proof fn details_leaves_all_but_line(
    app: &mut DrydockApp,
    repacker: &str,
    opened: Result<(), String>,
)
    requires
        call_ensures(DrydockApp::repack_opened, (app, repacker, opened), ()),
    ensures
        *final(app) == (DrydockApp { line: final(app).line, ..*old(app) }),
{
}

/// `poll_store_details` changes nothing but the status line, the fetches and the details.
pub proof fn details_leaves_all_but_line_and_list_jobs_and_details(
    app: &mut DrydockApp,
    reply: Reply<(u32, Result<SteamStoreDetails, String>)>,
)
    requires
        call_ensures(DrydockApp::poll_store_details, (app, reply), ()),
    ensures
        *final(app) == (DrydockApp {
            line: final(app).line,
            list_jobs: final(app).list_jobs,
            details: final(app).details,
            ..*old(app)
        }),
{
}

/// `open_details` changes nothing but the page, the fetches and the details.
pub proof fn details_leaves_all_but_page_and_list_jobs_and_details(
    app: &mut DrydockApp,
    app_id: u32,
)
    requires
        call_ensures(DrydockApp::open_details, (app, app_id), ()),
    ensures
        *final(app) == (DrydockApp {
            page: final(app).page,
            list_jobs: final(app).list_jobs,
            details: final(app).details,
            ..*old(app)
        }),
{
}

/// `spawn_job`, `dismiss_verify` change nothing but the downloads.
pub proof fn downloads_leaves_all_but_downloads(
    a: &mut DrydockApp,
    a_app_id: u32,
    a_name: String,
    a_kind: DownloadKind,
    a_root: Option<String>,
    a_answer: JobOrder,
    b: &mut DrydockApp,
)
    requires
        call_ensures(DrydockApp::spawn_job, (a, a_app_id, a_name, a_kind, a_root), a_answer),
        call_ensures(DrydockApp::dismiss_verify, (b,), ()),
    ensures
        *final(a) == (DrydockApp { downloads: final(a).downloads, ..*old(a) }),
        *final(b) == (DrydockApp { downloads: final(b).downloads, ..*old(b) }),
{
}

/// `start_front_download`, `start_verify`, `pause_download`, `cancel_verify`, `poll_download`,
/// `switch_or_start` change nothing but the status line and the downloads.
pub proof fn downloads_leaves_all_but_line_and_downloads(
    a: &mut DrydockApp,
    a_answer: Option<JobOrder>,
    b: &mut DrydockApp,
    b_app_id: u32,
    b_name: String,
    b_answer: Option<JobOrder>,
    c: &mut DrydockApp,
    d: &mut DrydockApp,
    e: &mut DrydockApp,
    e_updates: Vec<DownloadUpdate>,
    e_lost: bool,
    e_answer: DownloadEnd,
    f: &mut DrydockApp,
    f_switching: &str,
    f_written: Result<(), String>,
    f_answer: Option<JobOrder>,
)
    requires
        call_ensures(DrydockApp::start_front_download, (a,), a_answer),
        call_ensures(DrydockApp::start_verify, (b, b_app_id, b_name), b_answer),
        call_ensures(DrydockApp::pause_download, (c,), ()),
        call_ensures(DrydockApp::cancel_verify, (d,), ()),
        call_ensures(DrydockApp::poll_download, (e, e_updates, e_lost), e_answer),
        call_ensures(DrydockApp::switch_or_start, (f, f_switching, f_written), f_answer),
    ensures
        *final(a) == (DrydockApp { line: final(a).line, downloads: final(a).downloads, ..*old(a) }),
        *final(b) == (DrydockApp { line: final(b).line, downloads: final(b).downloads, ..*old(b) }),
        *final(c) == (DrydockApp { line: final(c).line, downloads: final(c).downloads, ..*old(c) }),
        *final(d) == (DrydockApp { line: final(d).line, downloads: final(d).downloads, ..*old(d) }),
        *final(e) == (DrydockApp { line: final(e).line, downloads: final(e).downloads, ..*old(e) }),
        *final(f) == (DrydockApp { line: final(f).line, downloads: final(f).downloads, ..*old(f) }),
{
}

/// `apply_queue_effect`, `enqueue_download`, `remove_current_download`, `remove_queued_download`,
/// `activate_download`, `demote_current_download` change nothing but the status line and the
/// downloads.
pub proof fn downloads_leaves_all_but_line_and_downloads_too(
    a: &mut DrydockApp,
    a_effect: QueueEffect,
    a_switching: &str,
    a_written: Result<(), String>,
    a_answer: Option<JobOrder>,
    b: &mut DrydockApp,
    b_name: &str,
    b_effect: QueueEffect,
    b_written: Result<(), String>,
    b_answer: Option<JobOrder>,
    c: &mut DrydockApp,
    c_effect: QueueEffect,
    c_written: Result<(), String>,
    c_answer: Option<JobOrder>,
    d: &mut DrydockApp,
    d_effect: QueueEffect,
    d_written: Result<(), String>,
    d_answer: Option<JobOrder>,
    e: &mut DrydockApp,
    e_effect: QueueEffect,
    e_written: Result<(), String>,
    e_answer: Option<JobOrder>,
    f: &mut DrydockApp,
    f_effect: QueueEffect,
    f_written: Result<(), String>,
    f_answer: Option<JobOrder>,
)
    requires
        call_ensures(
            DrydockApp::apply_queue_effect,
            (a, a_effect, a_switching, a_written),
            a_answer,
        ),
        call_ensures(DrydockApp::enqueue_download, (b, b_name, b_effect, b_written), b_answer),
        call_ensures(DrydockApp::remove_current_download, (c, c_effect, c_written), c_answer),
        call_ensures(DrydockApp::remove_queued_download, (d, d_effect, d_written), d_answer),
        call_ensures(DrydockApp::activate_download, (e, e_effect, e_written), e_answer),
        call_ensures(DrydockApp::demote_current_download, (f, f_effect, f_written), f_answer),
    ensures
        *final(a) == (DrydockApp { line: final(a).line, downloads: final(a).downloads, ..*old(a) }),
        *final(b) == (DrydockApp { line: final(b).line, downloads: final(b).downloads, ..*old(b) }),
        *final(c) == (DrydockApp { line: final(c).line, downloads: final(c).downloads, ..*old(c) }),
        *final(d) == (DrydockApp { line: final(d).line, downloads: final(d).downloads, ..*old(d) }),
        *final(e) == (DrydockApp { line: final(e).line, downloads: final(e).downloads, ..*old(e) }),
        *final(f) == (DrydockApp { line: final(f).line, downloads: final(f).downloads, ..*old(f) }),
{
}

/// `screenshot_goto` changes nothing but the page, the walk of the guide, the fetches, the store,
/// the details, the library and the downloads.
pub proof fn gallery_leaves_all_but_its_7_parts(
    app: &mut DrydockApp,
    key: &str,
    answer: Option<u32>,
)
    requires
        call_ensures(DrydockApp::screenshot_goto, (app, key), answer),
    ensures
        *final(app) == (DrydockApp {
            page: final(app).page,
            guide_flow: final(app).guide_flow,
            list_jobs: final(app).list_jobs,
            store: final(app).store,
            details: final(app).details,
            library: final(app).library,
            downloads: final(app).downloads,
            ..*old(app)
        }),
{
    match crate::gallery::stop_of(key@) {
        crate::gallery::Stop::Details => {},
        crate::gallery::Stop::Denuvo => {},
        crate::gallery::Stop::Repacks => {},
        crate::gallery::Stop::AddGame => {},
        crate::gallery::Stop::Guide(_) => {},
        crate::gallery::Stop::Downloads => {},
        crate::gallery::Stop::Plain(_) => {},
    }
}

/// `show_walkthrough` changes nothing but the walk of the guide.
pub proof fn guide_leaves_all_but_guide_flow(app: &mut DrydockApp, flow: GuideFlow)
    requires
        call_ensures(DrydockApp::show_walkthrough, (app, flow), ()),
    ensures
        *final(app) == (DrydockApp { guide_flow: final(app).guide_flow, ..*old(app) }),
{
}

/// `open_see_all` changes nothing but the page and the store.
pub proof fn home_leaves_all_but_page_and_store(app: &mut DrydockApp, section: SeeAllSection)
    requires
        call_ensures(DrydockApp::open_see_all, (app, section), ()),
    ensures
        *final(app) == (DrydockApp { page: final(app).page, store: final(app).store, ..*old(app) }),
{
}

/// `home_store_column` changes nothing but the store.
pub proof fn home_leaves_all_but_store(app: &mut DrydockApp, now: u128, answer: StoreColumn)
    requires
        call_ensures(DrydockApp::home_store_column, (app, now), answer),
    ensures
        *final(app) == (DrydockApp { store: final(app).store, ..*old(app) }),
{
}

/// `begin_add_game`, `cancel_add_game`, `confirm_uncracked_launch` change nothing but the library.
pub proof fn library_actions_leaves_all_but_library(
    a: &mut DrydockApp,
    a_folder: String,
    b: &mut DrydockApp,
    c: &mut DrydockApp,
    c_app_id: u32,
    c_answer: Option<String>,
)
    requires
        call_ensures(DrydockApp::begin_add_game, (a, a_folder), ()),
        call_ensures(DrydockApp::cancel_add_game, (b,), ()),
        call_ensures(DrydockApp::confirm_uncracked_launch, (c, c_app_id), c_answer),
    ensures
        *final(a) == (DrydockApp { library: final(a).library, ..*old(a) }),
        *final(b) == (DrydockApp { library: final(b).library, ..*old(b) }),
        *final(c) == (DrydockApp { library: final(c).library, ..*old(c) }),
{
}

/// `game_launched`, `launch_path_saved`, `install_steam_game`, `uninstall_steam_game`,
/// `uninstall_saved`, `add_game_saved` change nothing but the status line.
pub proof fn library_actions_leaves_all_but_line(
    a: &mut DrydockApp,
    a_by_steam: bool,
    a_started: Result<(), String>,
    b: &mut DrydockApp,
    b_written: &Result<(), String>,
    c: &mut DrydockApp,
    c_restored: &Result<(bool, usize), String>,
    c_asked: Result<(), String>,
    d: &mut DrydockApp,
    d_asked: Result<(), String>,
    e: &mut DrydockApp,
    e_name: &str,
    e_written: &Result<(), String>,
    f: &mut DrydockApp,
    f_name: &str,
    f_written: &Result<(), String>,
)
    requires
        call_ensures(DrydockApp::game_launched, (a, a_by_steam, a_started), ()),
        call_ensures(DrydockApp::launch_path_saved, (b, b_written), ()),
        call_ensures(DrydockApp::install_steam_game, (c, c_restored, c_asked), ()),
        call_ensures(DrydockApp::uninstall_steam_game, (d, d_asked), ()),
        call_ensures(DrydockApp::uninstall_saved, (e, e_name, e_written), ()),
        call_ensures(DrydockApp::add_game_saved, (f, f_name, f_written), ()),
    ensures
        *final(a) == (DrydockApp { line: final(a).line, ..*old(a) }),
        *final(b) == (DrydockApp { line: final(b).line, ..*old(b) }),
        *final(c) == (DrydockApp { line: final(c).line, ..*old(c) }),
        *final(d) == (DrydockApp { line: final(d).line, ..*old(d) }),
        *final(e) == (DrydockApp { line: final(e).line, ..*old(e) }),
        *final(f) == (DrydockApp { line: final(f).line, ..*old(f) }),
{
}

/// `folder_not_opened` changes nothing but the status line.
pub proof fn library_actions_leaves_all_but_line_too(app: &mut DrydockApp, error: &str)
    requires
        call_ensures(DrydockApp::folder_not_opened, (app, error), ()),
    ensures
        *final(app) == (DrydockApp { line: final(app).line, ..*old(app) }),
{
}

/// `update_drydock_game` changes nothing but the status line and the downloads.
pub proof fn library_actions_leaves_all_but_line_and_downloads(
    app: &mut DrydockApp,
    app_id: u32,
    effect: QueueEffect,
    written: Result<(), String>,
    answer: Option<JobOrder>,
)
    requires
        call_ensures(DrydockApp::update_drydock_game, (app, app_id, effect, written), answer),
    ensures
        *final(app) == (DrydockApp {
            line: final(app).line,
            downloads: final(app).downloads,
            ..*old(app)
        }),
{
}

/// `game_folder_deleted` changes nothing but the status line and the settings.
pub proof fn library_actions_leaves_all_but_line_and_settings(
    app: &mut DrydockApp,
    app_id: u32,
    deleted: Result<(), String>,
    answer: bool,
)
    requires
        call_ensures(DrydockApp::game_folder_deleted, (app, app_id, deleted), answer),
    ensures
        *final(app) == (DrydockApp {
            line: final(app).line,
            settings: final(app).settings,
            ..*old(app)
        }),
{
}

/// `start_add_game_detect` changes nothing but the status line and the side jobs.
pub proof fn library_actions_leaves_all_but_line_and_side_jobs(
    app: &mut DrydockApp,
    app_id: u32,
    answer: Option<String>,
)
    requires
        call_ensures(DrydockApp::start_add_game_detect, (app, app_id), answer),
    ensures
        *final(app) == (DrydockApp {
            line: final(app).line,
            side_jobs: final(app).side_jobs,
            ..*old(app)
        }),
{
}

/// `poll_add_game` changes nothing but the status line, the side jobs, the settings and the
/// library.
pub proof fn library_actions_leaves_all_but_line_and_side_jobs_and_settings_and_library(
    app: &mut DrydockApp,
    reply: Reply<Result<AddGameOutcome, String>>,
    answer: Option<String>,
)
    requires
        call_ensures(DrydockApp::poll_add_game, (app, reply), answer),
    ensures
        *final(app) == (DrydockApp {
            line: final(app).line,
            side_jobs: final(app).side_jobs,
            settings: final(app).settings,
            library: final(app).library,
            ..*old(app)
        }),
{
}

/// `set_library_launch_path` changes nothing but the settings.
pub proof fn library_actions_leaves_all_but_settings(
    app: &mut DrydockApp,
    app_id: u32,
    file: String,
)
    requires
        call_ensures(DrydockApp::set_library_launch_path, (app, app_id, file), ()),
    ensures
        *final(app) == (DrydockApp { settings: final(app).settings, ..*old(app) }),
{
}

/// `start_download_install_detect` changes nothing but the side jobs.
pub proof fn library_actions_leaves_all_but_side_jobs(app: &mut DrydockApp, answer: bool)
    requires
        call_ensures(DrydockApp::start_download_install_detect, (app,), answer),
    ensures
        *final(app) == (DrydockApp { side_jobs: final(app).side_jobs, ..*old(app) }),
{
}

/// `poll_download_install` changes nothing but the side jobs and the settings.
pub proof fn library_actions_leaves_all_but_side_jobs_and_settings(
    app: &mut DrydockApp,
    reply: Reply<Result<AddGameOutcome, String>>,
    answer: bool,
)
    requires
        call_ensures(DrydockApp::poll_download_install, (app, reply), answer),
    ensures
        *final(app) == (DrydockApp {
            side_jobs: final(app).side_jobs,
            settings: final(app).settings,
            ..*old(app)
        }),
{
}

/// `catalog_saved` changes nothing but the status line.
pub proof fn refresh_leaves_all_but_line(
    app: &mut DrydockApp,
    changed: bool,
    saved: Result<(), String>,
)
    requires
        call_ensures(DrydockApp::catalog_saved, (app, changed, saved), ()),
    ensures
        *final(app) == (DrydockApp { line: final(app).line, ..*old(app) }),
{
}

/// `poll_denuvo_refresh`, `poll_fixes_refresh`, `poll_repacks_refresh`, `clear_drydock_cache`
/// change nothing but the status line, the fetches and the catalog.
pub proof fn refresh_leaves_all_but_line_and_list_jobs_and_catalog(
    a: &mut DrydockApp,
    a_reply: Reply<Result<Vec<u32>, String>>,
    b: &mut DrydockApp,
    b_reply: Reply<Result<Vec<FixEntry>, String>>,
    c: &mut DrydockApp,
    c_reply: Reply<Result<Vec<RepackApp>, String>>,
    d: &mut DrydockApp,
    d_cleared: Result<u64, String>,
    d_answer: Option<DenuvoOrder>,
)
    requires
        call_ensures(DrydockApp::poll_denuvo_refresh, (a, a_reply), ()),
        call_ensures(DrydockApp::poll_fixes_refresh, (b, b_reply), ()),
        call_ensures(DrydockApp::poll_repacks_refresh, (c, c_reply), ()),
        call_ensures(DrydockApp::clear_drydock_cache, (d, d_cleared), d_answer),
    ensures
        *final(a) == (DrydockApp {
            line: final(a).line,
            list_jobs: final(a).list_jobs,
            catalog: final(a).catalog,
            ..*old(a)
        }),
        *final(b) == (DrydockApp {
            line: final(b).line,
            list_jobs: final(b).list_jobs,
            catalog: final(b).catalog,
            ..*old(b)
        }),
        *final(c) == (DrydockApp {
            line: final(c).line,
            list_jobs: final(c).list_jobs,
            catalog: final(c).catalog,
            ..*old(c)
        }),
        *final(d) == (DrydockApp {
            line: final(d).line,
            list_jobs: final(d).list_jobs,
            catalog: final(d).catalog,
            ..*old(d)
        }),
{
}

/// `force_catalog_refresh` changes nothing but the status line, the fetches, the catalog and the
/// limiter of refreshes.
pub proof fn refresh_leaves_all_but_line_and_list_jobs_and_catalog_and_catalog_limiter(
    app: &mut DrydockApp,
    now: u128,
    answer: RefreshOrder,
)
    requires
        call_ensures(DrydockApp::force_catalog_refresh, (app, now), answer),
    ensures
        *final(app) == (DrydockApp {
            line: final(app).line,
            list_jobs: final(app).list_jobs,
            catalog: final(app).catalog,
            catalog_limiter: final(app).catalog_limiter,
            ..*old(app)
        }),
{
}

/// `start_catalog_refresh`, `start_denuvo_refresh`, `start_fixes_refresh`, `start_repacks_refresh`
/// change nothing but the fetches.
pub proof fn refresh_leaves_all_but_list_jobs(
    a: &mut DrydockApp,
    a_force: bool,
    a_marker_current: bool,
    a_answer: bool,
    b: &mut DrydockApp,
    b_force: bool,
    b_answer: Option<DenuvoOrder>,
    c: &mut DrydockApp,
    c_answer: bool,
    d: &mut DrydockApp,
    d_answer: bool,
)
    requires
        call_ensures(DrydockApp::start_catalog_refresh, (a, a_force, a_marker_current), a_answer),
        call_ensures(DrydockApp::start_denuvo_refresh, (b, b_force), b_answer),
        call_ensures(DrydockApp::start_fixes_refresh, (c,), c_answer),
        call_ensures(DrydockApp::start_repacks_refresh, (d,), d_answer),
    ensures
        *final(a) == (DrydockApp { list_jobs: final(a).list_jobs, ..*old(a) }),
        *final(b) == (DrydockApp { list_jobs: final(b).list_jobs, ..*old(b) }),
        *final(c) == (DrydockApp { list_jobs: final(c).list_jobs, ..*old(c) }),
        *final(d) == (DrydockApp { list_jobs: final(d).list_jobs, ..*old(d) }),
{
}

/// `poll_catalog_refresh` changes nothing but the fetches and the catalog.
pub proof fn refresh_leaves_all_but_list_jobs_and_catalog(
    app: &mut DrydockApp,
    reply: Reply<Result<Vec<CatalogApp>, String>>,
    answer: Option<bool>,
)
    requires
        call_ensures(DrydockApp::poll_catalog_refresh, (app, reply), answer),
    ensures
        *final(app) == (DrydockApp {
            list_jobs: final(app).list_jobs,
            catalog: final(app).catalog,
            ..*old(app)
        }),
{
}

/// `poll_featured`, `start_featured` change nothing but the fetches and the store.
pub proof fn refresh_leaves_all_but_list_jobs_and_store(
    a: &mut DrydockApp,
    a_reply: Reply<Result<StoreFeatured, String>>,
    b: &mut DrydockApp,
    b_answer: bool,
)
    requires
        call_ensures(DrydockApp::poll_featured, (a, a_reply), ()),
        call_ensures(DrydockApp::start_featured, (b,), b_answer),
    ensures
        *final(a) == (DrydockApp {
            list_jobs: final(a).list_jobs,
            store: final(a).store,
            ..*old(a)
        }),
        *final(b) == (DrydockApp {
            list_jobs: final(b).list_jobs,
            store: final(b).store,
            ..*old(b)
        }),
{
}

/// `may_add_own_unlock`, `service_saved` change nothing but the status line.
pub proof fn service_leaves_all_but_line(
    a: &mut DrydockApp,
    a_answer: bool,
    b: &mut DrydockApp,
    b_note: String,
    b_written: &Result<(), String>,
)
    requires
        call_ensures(DrydockApp::may_add_own_unlock, (a,), a_answer),
        call_ensures(DrydockApp::service_saved, (b, b_note, b_written), ()),
    ensures
        *final(a) == (DrydockApp { line: final(a).line, ..*old(a) }),
        *final(b) == (DrydockApp { line: final(b).line, ..*old(b) }),
{
}

/// `install_steam_service`, `uninstall_steam_service` change nothing but the status line and
/// Steam's jobs.
pub proof fn service_leaves_all_but_line_and_steam_jobs(
    a: &mut DrydockApp,
    a_answer: Option<String>,
    b: &mut DrydockApp,
    b_answer: Option<String>,
)
    requires
        call_ensures(DrydockApp::install_steam_service, (a,), a_answer),
        call_ensures(DrydockApp::uninstall_steam_service, (b,), b_answer),
    ensures
        *final(a) == (DrydockApp {
            line: final(a).line,
            steam_jobs: final(a).steam_jobs,
            ..*old(a)
        }),
        *final(b) == (DrydockApp {
            line: final(b).line,
            steam_jobs: final(b).steam_jobs,
            ..*old(b)
        }),
{
}

/// `add_app_to_steam`, `add_cracked_to_steam` change nothing but the status line, Steam's jobs, the
/// limiter of adds and the right to write.
pub proof fn service_leaves_all_but_line_and_steam_jobs_and_download_limiter_and_unlock_writes(
    a: &mut DrydockApp,
    a_app_id: u32,
    a_now: u128,
    a_answer: Option<AddOrder>,
    b: &mut DrydockApp,
    b_app_id: u32,
    b_now: u128,
    b_answer: Option<AddOrder>,
)
    requires
        call_ensures(DrydockApp::add_app_to_steam, (a, a_app_id, a_now), a_answer),
        call_ensures(DrydockApp::add_cracked_to_steam, (b, b_app_id, b_now), b_answer),
    ensures
        *final(a) == (DrydockApp {
            line: final(a).line,
            steam_jobs: final(a).steam_jobs,
            download_limiter: final(a).download_limiter,
            unlock_writes: final(a).unlock_writes,
            ..*old(a)
        }),
        *final(b) == (DrydockApp {
            line: final(b).line,
            steam_jobs: final(b).steam_jobs,
            download_limiter: final(b).download_limiter,
            unlock_writes: final(b).unlock_writes,
            ..*old(b)
        }),
{
}

/// `poll_service_action` changes nothing but the status line, Steam's jobs, the settings and what
/// is known of Steam.
pub proof fn service_leaves_all_but_line_and_steam_jobs_and_settings_and_steam(
    app: &mut DrydockApp,
    reply: Reply<Result<ServiceOutcome, String>>,
    answer: ServiceFollowUp,
)
    requires
        call_ensures(DrydockApp::poll_service_action, (app, reply), answer),
    ensures
        *final(app) == (DrydockApp {
            line: final(app).line,
            steam_jobs: final(app).steam_jobs,
            settings: final(app).settings,
            steam: final(app).steam,
            ..*old(app)
        }),
{
}

/// `add_own_unlock`, `remove_app_from_steam` change nothing but the status line, Steam's jobs and
/// the right to write.
pub proof fn service_leaves_all_but_line_and_steam_jobs_and_unlock_writes(
    a: &mut DrydockApp,
    a_read: Option<Result<u32, String>>,
    a_answer: Option<AddOrder>,
    b: &mut DrydockApp,
    b_app_id: u32,
    b_answer: Option<RemoveOrder>,
)
    requires
        call_ensures(DrydockApp::add_own_unlock, (a, a_read), a_answer),
        call_ensures(DrydockApp::remove_app_from_steam, (b, b_app_id), b_answer),
    ensures
        *final(a) == (DrydockApp {
            line: final(a).line,
            steam_jobs: final(a).steam_jobs,
            unlock_writes: final(a).unlock_writes,
            ..*old(a)
        }),
        *final(b) == (DrydockApp {
            line: final(b).line,
            steam_jobs: final(b).steam_jobs,
            unlock_writes: final(b).unlock_writes,
            ..*old(b)
        }),
{
}

/// `settings_saved`, `fresh_settings_written`, `limit_saved` change nothing but the status line.
pub proof fn settings_page_leaves_all_but_line(
    a: &mut DrydockApp,
    a_written: Result<(), String>,
    a_answer: bool,
    b: &mut DrydockApp,
    b_written: Result<(), String>,
    c: &mut DrydockApp,
    c_written: Result<(), String>,
)
    requires
        call_ensures(DrydockApp::settings_saved, (a, a_written), a_answer),
        call_ensures(DrydockApp::fresh_settings_written, (b, b_written), ()),
        call_ensures(DrydockApp::limit_saved, (c, c_written), ()),
    ensures
        *final(a) == (DrydockApp { line: final(a).line, ..*old(a) }),
        *final(b) == (DrydockApp { line: final(b).line, ..*old(b) }),
        *final(c) == (DrydockApp { line: final(c).line, ..*old(c) }),
{
}

/// `steam_folder_detected`, `steam_folder_picked`, `games_folder_picked` change nothing but the
/// status line and the form.
pub proof fn settings_page_leaves_all_but_line_and_form(
    a: &mut DrydockApp,
    a_found: Option<String>,
    b: &mut DrydockApp,
    b_folder: String,
    c: &mut DrydockApp,
    c_folder: String,
)
    requires
        call_ensures(DrydockApp::steam_folder_detected, (a, a_found), ()),
        call_ensures(DrydockApp::steam_folder_picked, (b, b_folder), ()),
        call_ensures(DrydockApp::games_folder_picked, (c, c_folder), ()),
    ensures
        *final(a) == (DrydockApp { line: final(a).line, form: final(a).form, ..*old(a) }),
        *final(b) == (DrydockApp { line: final(b).line, form: final(b).form, ..*old(b) }),
        *final(c) == (DrydockApp { line: final(c).line, form: final(c).form, ..*old(c) }),
{
}

/// `save_settings`, `set_connections`, `set_bandwidth`, `set_verify_threads`, `self_hosting_panel`
/// change nothing but the settings.
pub proof fn settings_page_leaves_all_but_settings(
    a: &mut DrydockApp,
    b: &mut DrydockApp,
    b_connections: u32,
    b_answer: bool,
    c: &mut DrydockApp,
    c_mbps: u32,
    c_answer: bool,
    d: &mut DrydockApp,
    d_threads: u32,
    d_answer: bool,
    e: &mut DrydockApp,
    e_base_url: String,
    e_secret: String,
    e_repository: String,
    e_answer: bool,
)
    requires
        call_ensures(DrydockApp::save_settings, (a,), ()),
        call_ensures(DrydockApp::set_connections, (b, b_connections), b_answer),
        call_ensures(DrydockApp::set_bandwidth, (c, c_mbps), c_answer),
        call_ensures(DrydockApp::set_verify_threads, (d, d_threads), d_answer),
        call_ensures(
            DrydockApp::self_hosting_panel,
            (e, e_base_url, e_secret, e_repository),
            e_answer,
        ),
    ensures
        *final(a) == (DrydockApp { settings: final(a).settings, ..*old(a) }),
        *final(b) == (DrydockApp { settings: final(b).settings, ..*old(b) }),
        *final(c) == (DrydockApp { settings: final(c).settings, ..*old(c) }),
        *final(d) == (DrydockApp { settings: final(d).settings, ..*old(d) }),
        *final(e) == (DrydockApp { settings: final(e).settings, ..*old(e) }),
{
}

/// `use_steam_library` changes nothing but the settings and the form.
pub proof fn settings_page_leaves_all_but_settings_and_form(app: &mut DrydockApp)
    requires
        call_ensures(DrydockApp::use_steam_library, (app,), ()),
    ensures
        *final(app) == (DrydockApp {
            settings: final(app).settings,
            form: final(app).form,
            ..*old(app)
        }),
{
}

/// `discard_broken_settings` changes nothing but the lock on the settings.
pub proof fn settings_page_leaves_all_but_settings_read_only(app: &mut DrydockApp)
    requires
        call_ensures(DrydockApp::discard_broken_settings, (app,), ()),
    ensures
        *final(app) == (DrydockApp {
            settings_read_only: final(app).settings_read_only,
            ..*old(app)
        }),
{
}

/// `close_success_window` changes nothing but the activation.
pub proof fn shell_leaves_all_but_activation(app: &mut DrydockApp)
    requires
        call_ensures(DrydockApp::close_success_window, (app,), ()),
    ensures
        *final(app) == (DrydockApp { activation: final(app).activation, ..*old(app) }),
{
}

/// `enter_page` changes nothing but the page that was entered.
pub proof fn shell_leaves_all_but_last_page(app: &mut DrydockApp, answer: bool)
    requires
        call_ensures(DrydockApp::enter_page, (app,), answer),
    ensures
        *final(app) == (DrydockApp { last_page: final(app).last_page, ..*old(app) }),
{
}

/// `cancel_crack_removal` changes nothing but the status line and the activation.
pub proof fn shell_leaves_all_but_line_and_activation(app: &mut DrydockApp)
    requires
        call_ensures(DrydockApp::cancel_crack_removal, (app,), ()),
    ensures
        *final(app) == (DrydockApp {
            line: final(app).line,
            activation: final(app).activation,
            ..*old(app)
        }),
{
}

/// `toggle_notifications` changes nothing but the list of notifications.
pub proof fn shell_leaves_all_but_notifications_open(app: &mut DrydockApp)
    requires
        call_ensures(DrydockApp::toggle_notifications, (app,), ()),
    ensures
        *final(app) == (DrydockApp {
            notifications_open: final(app).notifications_open,
            ..*old(app)
        }),
{
}

/// `open_from_notification` changes nothing but the page and the list of notifications.
pub proof fn shell_leaves_all_but_page_and_notifications_open(app: &mut DrydockApp, page: Page)
    requires
        call_ensures(DrydockApp::open_from_notification, (app, page), ()),
    ensures
        *final(app) == (DrydockApp {
            page: final(app).page,
            notifications_open: final(app).notifications_open,
            ..*old(app)
        }),
{
}

/// `refresh_dynamic_state` changes nothing but what is known of Steam, the selection, the
/// activation and the cloud.
pub proof fn startup_leaves_all_but_steam_and_selected_app_and_activation_and_cloud(
    app: &mut DrydockApp,
    hook_installed: bool,
    provider: Option<CloudProvider>,
    luas: BTreeSet<u32>,
    scanned: Result<Vec<SteamManifest>, String>,
)
    requires
        call_ensures(
            DrydockApp::refresh_dynamic_state,
            (app, hook_installed, provider, luas, scanned),
            (),
        ),
    ensures
        *final(app) == (DrydockApp {
            steam: final(app).steam,
            selected_app: final(app).selected_app,
            activation: final(app).activation,
            cloud: final(app).cloud,
            ..*old(app)
        }),
{
}

/// `report`, `persist_settings`, `steam_root_or_error` change nothing but the status line.
pub proof fn state_leaves_all_but_line(
    a: &mut DrydockApp,
    a_text: String,
    a_error: bool,
    b: &mut DrydockApp,
    b_written: Result<(), String>,
    b_answer: Result<(), String>,
    c: &mut DrydockApp,
    c_message: &str,
    c_answer: Option<String>,
)
    requires
        call_ensures(DrydockApp::report, (a, a_text, a_error), ()),
        call_ensures(DrydockApp::persist_settings, (b, b_written), b_answer),
        call_ensures(DrydockApp::steam_root_or_error, (c, c_message), c_answer),
    ensures
        *final(a) == (DrydockApp { line: final(a).line, ..*old(a) }),
        *final(b) == (DrydockApp { line: final(b).line, ..*old(b) }),
        *final(c) == (DrydockApp { line: final(c).line, ..*old(c) }),
{
}

/// `maybe_update_unlocks` changes nothing but the time of the last look.
pub proof fn steam_leaves_all_but_last_unlock_update_check(
    app: &mut DrydockApp,
    now: u128,
    fix_applied: &HashSet<u32>,
    answer: Option<Vec<u32>>,
)
    requires
        call_ensures(DrydockApp::maybe_update_unlocks, (app, now, fix_applied), answer),
    ensures
        *final(app) == (DrydockApp {
            last_unlock_update_check: final(app).last_unlock_update_check,
            ..*old(app)
        }),
{
}

/// `release_old_update_blocks`, `report_unlock_updates` change nothing but the status line.
pub proof fn steam_leaves_all_but_line(
    a: &mut DrydockApp,
    a_failed: &Vec<(u32, String)>,
    a_released: usize,
    b: &mut DrydockApp,
    b_sweep: &UnlockUpdateSweep,
)
    requires
        call_ensures(DrydockApp::release_old_update_blocks, (a, a_failed, a_released), ()),
        call_ensures(DrydockApp::report_unlock_updates, (b, b_sweep), ()),
    ensures
        *final(a) == (DrydockApp { line: final(a).line, ..*old(a) }),
        *final(b) == (DrydockApp { line: final(b).line, ..*old(b) }),
{
}

/// `refresh_steam` changes nothing but the status line, what is known of Steam, the selection and
/// the activation.
pub proof fn steam_leaves_all_but_line_and_steam_and_selected_app_and_activation(
    app: &mut DrydockApp,
    root: Option<String>,
    conflicts: Vec<String>,
    scanned: Result<Vec<SteamManifest>, String>,
)
    requires
        call_ensures(DrydockApp::refresh_steam, (app, root, conflicts, scanned), ()),
    ensures
        *final(app) == (DrydockApp {
            line: final(app).line,
            steam: final(app).steam,
            selected_app: final(app).selected_app,
            activation: final(app).activation,
            ..*old(app)
        }),
{
}

/// `restart_steam_in_background` changes nothing but the status line and Steam's jobs.
pub proof fn steam_leaves_all_but_line_and_steam_jobs(app: &mut DrydockApp, answer: Option<String>)
    requires
        call_ensures(DrydockApp::restart_steam_in_background, (app,), answer),
    ensures
        *final(app) == (DrydockApp {
            line: final(app).line,
            steam_jobs: final(app).steam_jobs,
            ..*old(app)
        }),
{
}

/// `poll_background_action`, `apply_denuvo_fix_for` change nothing but the status line, Steam's
/// jobs and the pending block.
pub proof fn steam_leaves_all_but_line_and_steam_jobs_and_pending_fix_block(
    a: &mut DrydockApp,
    a_reply: Reply<Result<String, String>>,
    b: &mut DrydockApp,
    b_app_id: u32,
    b_answer: Option<(String, String)>,
)
    requires
        call_ensures(DrydockApp::poll_background_action, (a, a_reply), ()),
        call_ensures(DrydockApp::apply_denuvo_fix_for, (b, b_app_id), b_answer),
    ensures
        *final(a) == (DrydockApp {
            line: final(a).line,
            steam_jobs: final(a).steam_jobs,
            pending_fix_block: final(a).pending_fix_block,
            ..*old(a)
        }),
        *final(b) == (DrydockApp {
            line: final(b).line,
            steam_jobs: final(b).steam_jobs,
            pending_fix_block: final(b).pending_fix_block,
            ..*old(b)
        }),
{
}

/// `poll_manifest_guard` changes nothing but the status line, Steam's jobs and what is known of
/// Steam.
pub proof fn steam_leaves_all_but_line_and_steam_jobs_and_steam(
    app: &mut DrydockApp,
    reply: Reply<(usize, usize, Option<u32>)>,
)
    requires
        call_ensures(DrydockApp::poll_manifest_guard, (app, reply), ()),
    ensures
        *final(app) == (DrydockApp {
            line: final(app).line,
            steam_jobs: final(app).steam_jobs,
            steam: final(app).steam,
            ..*old(app)
        }),
{
}

/// `refresh_plugin_luas` changes nothing but what is known of Steam.
pub proof fn steam_leaves_all_but_steam(app: &mut DrydockApp, found: BTreeSet<u32>)
    requires
        call_ensures(DrydockApp::refresh_plugin_luas, (app, found), ()),
    ensures
        *final(app) == (DrydockApp { steam: final(app).steam, ..*old(app) }),
{
}

/// `refresh_manifests` changes nothing but what is known of Steam, the selection and the
/// activation.
pub proof fn steam_leaves_all_but_steam_and_selected_app_and_activation(
    app: &mut DrydockApp,
    scanned: Result<Vec<SteamManifest>, String>,
)
    requires
        call_ensures(DrydockApp::refresh_manifests, (app, scanned), ()),
    ensures
        *final(app) == (DrydockApp {
            steam: final(app).steam,
            selected_app: final(app).selected_app,
            activation: final(app).activation,
            ..*old(app)
        }),
{
}

/// `refresh_service_status`, `begin_unlock_updates` change nothing but Steam's jobs.
pub proof fn steam_leaves_all_but_steam_jobs(
    a: &mut DrydockApp,
    a_answer: Option<String>,
    b: &mut DrydockApp,
)
    requires
        call_ensures(DrydockApp::refresh_service_status, (a,), a_answer),
        call_ensures(DrydockApp::begin_unlock_updates, (b,), ()),
    ensures
        *final(a) == (DrydockApp { steam_jobs: final(a).steam_jobs, ..*old(a) }),
        *final(b) == (DrydockApp { steam_jobs: final(b).steam_jobs, ..*old(b) }),
{
}

/// `poll_unlock_updates` changes nothing but Steam's jobs and the settings.
pub proof fn steam_leaves_all_but_steam_jobs_and_settings(
    app: &mut DrydockApp,
    reply: &Reply<UnlockUpdateSweep>,
    answer: bool,
)
    requires
        call_ensures(DrydockApp::poll_unlock_updates, (app, reply), answer),
    ensures
        *final(app) == (DrydockApp {
            steam_jobs: final(app).steam_jobs,
            settings: final(app).settings,
            ..*old(app)
        }),
{
}

/// `guard_depot_manifests`, `recheck_service` change nothing but Steam's jobs and what is known of
/// Steam.
pub proof fn steam_leaves_all_but_steam_jobs_and_steam(
    a: &mut DrydockApp,
    a_running: bool,
    a_now: u128,
    a_cooldown: u128,
    a_answer: Option<Vec<(u32, bool)>>,
    b: &mut DrydockApp,
    b_now: u128,
    b_answer: Option<String>,
)
    requires
        call_ensures(
            DrydockApp::guard_depot_manifests,
            (a, a_running, a_now, a_cooldown),
            a_answer,
        ),
        call_ensures(DrydockApp::recheck_service, (b, b_now), b_answer),
    ensures
        *final(a) == (DrydockApp {
            steam_jobs: final(a).steam_jobs,
            steam: final(a).steam,
            ..*old(a)
        }),
        *final(b) == (DrydockApp {
            steam_jobs: final(b).steam_jobs,
            steam: final(b).steam,
            ..*old(b)
        }),
{
}

/// `language_applied` changes nothing but the status line.
pub proof fn tools_leaves_all_but_line(
    app: &mut DrydockApp,
    applied: Result<String, String>,
    answer: bool,
)
    requires
        call_ensures(DrydockApp::language_applied, (app, applied), answer),
    ensures
        *final(app) == (DrydockApp { line: final(app).line, ..*old(app) }),
{
}

/// `start_emu_toolchain_refresh`, `crack_drydock_game`, `start_emu_crack`, `poll_emu_template`
/// change nothing but the status line and Steam's jobs.
pub proof fn tools_leaves_all_but_line_and_steam_jobs(
    a: &mut DrydockApp,
    a_answer: bool,
    b: &mut DrydockApp,
    b_app_id: u32,
    b_folder_exists: bool,
    b_answer: Option<(EmuOrder, String)>,
    c: &mut DrydockApp,
    c_answer: Option<EmuOrder>,
    d: &mut DrydockApp,
    d_reply: Reply<Result<String, String>>,
)
    requires
        call_ensures(DrydockApp::start_emu_toolchain_refresh, (a,), a_answer),
        call_ensures(DrydockApp::crack_drydock_game, (b, b_app_id, b_folder_exists), b_answer),
        call_ensures(DrydockApp::start_emu_crack, (c,), c_answer),
        call_ensures(DrydockApp::poll_emu_template, (d, d_reply), ()),
    ensures
        *final(a) == (DrydockApp {
            line: final(a).line,
            steam_jobs: final(a).steam_jobs,
            ..*old(a)
        }),
        *final(b) == (DrydockApp {
            line: final(b).line,
            steam_jobs: final(b).steam_jobs,
            ..*old(b)
        }),
        *final(c) == (DrydockApp {
            line: final(c).line,
            steam_jobs: final(c).steam_jobs,
            ..*old(c)
        }),
        *final(d) == (DrydockApp {
            line: final(d).line,
            steam_jobs: final(d).steam_jobs,
            ..*old(d)
        }),
{
}

/// `load_language_from` changes nothing but the status line and the tools.
pub proof fn tools_leaves_all_but_line_and_tools(
    app: &mut DrydockApp,
    directory: String,
    read: Result<Option<GameLanguageOptions>, String>,
)
    requires
        call_ensures(DrydockApp::load_language_from, (app, directory, read), ()),
    ensures
        *final(app) == (DrydockApp { line: final(app).line, tools: final(app).tools, ..*old(app) }),
{
}

/// `update_launched` changes nothing but the wish to leave and the status line.
pub proof fn updates_leaves_all_but_exit_for_update_and_line(
    app: &mut DrydockApp,
    version: &str,
    launched: Result<(), String>,
)
    requires
        call_ensures(DrydockApp::update_launched, (app, version, launched), ()),
    ensures
        *final(app) == (DrydockApp {
            exit_for_update: final(app).exit_for_update,
            line: final(app).line,
            ..*old(app)
        }),
{
}

/// `auto_update_saved`, `manifest_changed`, `choice_saved` change nothing but the status line and
/// the settings.
pub proof fn updates_leaves_all_but_line_and_settings(
    a: &mut DrydockApp,
    a_previous: bool,
    a_written: Result<(), String>,
    b: &mut DrydockApp,
    b_app_id: u32,
    b_enabled: bool,
    b_changed: Result<(), String>,
    b_answer: bool,
    c: &mut DrydockApp,
    c_app_id: u32,
    c_enabled: bool,
    c_previous: bool,
    c_written: Result<(), String>,
    c_rollback: Result<(), String>,
)
    requires
        call_ensures(DrydockApp::auto_update_saved, (a, a_previous, a_written), ()),
        call_ensures(DrydockApp::manifest_changed, (b, b_app_id, b_enabled, b_changed), b_answer),
        call_ensures(
            DrydockApp::choice_saved,
            (c, c_app_id, c_enabled, c_previous, c_written, c_rollback),
            (),
        ),
    ensures
        *final(a) == (DrydockApp { line: final(a).line, settings: final(a).settings, ..*old(a) }),
        *final(b) == (DrydockApp { line: final(b).line, settings: final(b).settings, ..*old(b) }),
        *final(c) == (DrydockApp { line: final(c).line, settings: final(c).settings, ..*old(c) }),
{
}

/// `start_update_check`, `poll_update` change nothing but the status line and Steam's jobs.
pub proof fn updates_leaves_all_but_line_and_steam_jobs(
    a: &mut DrydockApp,
    a_automatic: bool,
    a_can_self_update: bool,
    a_marker_current: bool,
    a_answer: bool,
    b: &mut DrydockApp,
    b_reply: Reply<Result<Option<String>, String>>,
    b_answer: Option<String>,
)
    requires
        call_ensures(
            DrydockApp::start_update_check,
            (a, a_automatic, a_can_self_update, a_marker_current),
            a_answer,
        ),
        call_ensures(DrydockApp::poll_update, (b, b_reply), b_answer),
    ensures
        *final(a) == (DrydockApp {
            line: final(a).line,
            steam_jobs: final(a).steam_jobs,
            ..*old(a)
        }),
        *final(b) == (DrydockApp {
            line: final(b).line,
            steam_jobs: final(b).steam_jobs,
            ..*old(b)
        }),
{
}

/// `set_auto_update` changes nothing but the settings.
pub proof fn updates_leaves_all_but_settings(app: &mut DrydockApp, enabled: bool)
    requires
        call_ensures(DrydockApp::set_auto_update, (app, enabled), ()),
    ensures
        *final(app) == (DrydockApp { settings: final(app).settings, ..*old(app) }),
{
}

} // verus!
