use drydock_desktop::downloads::{DownloadEnd, DownloadUpdate, JobOrder, QueueEffect};
use drydock_desktop::downloads_page::{format_eta, upcoming_artwork, BannerButton, FileLine};
use drydock_desktop::startup::{LoadOutcome, Start};
use drydock_desktop::state::{DrydockApp, Settings, DownloadKind, DownloadProgress, QueuedDownload};
use drydock_desktop::types::{CatalogApp, SteamManifest, Tone};
use std::collections::BTreeMap;

fn settings() -> Settings {
    Settings {
        steam_directory: String::new(),
        games_directory: String::new(),
        added_apps: BTreeMap::new(),
        installed_games: BTreeMap::new(),
        launch_paths: BTreeMap::new(),
        download_queue: Vec::new(),
        steam_updates_enabled: BTreeMap::new(),
        auto_update_drydock: true,
        auto_update_unlocks: true,
        verify_before_activation: true,
        verify_threads: 0,
        max_download_mbps: 0,
        max_download_connections: 0,
        emu_skeleton_path: String::new(),
        proxy_base_url: String::new(),
        proxy_hmac_secret: String::new(),
        update_repository: String::new(),
    }
}

fn game(app_id: u32, name: &str) -> CatalogApp {
    CatalogApp { app_id, name: name.to_owned(), drm: false, tags: Vec::new() }
}

fn manifest(app_id: u32, name: &str) -> SteamManifest {
    SteamManifest {
        app_id,
        name: name.to_owned(),
        install_dir: format!("C:\\Steam\\steamapps\\common\\{name}"),
        size_on_disk: Some(2048),
    }
}

/// A shell with a Steam folder, two installed games and a catalog of three.
fn shell() -> DrydockApp {
    DrydockApp::new(Start {
        settings: settings(),
        outcome: LoadOutcome::Loaded,
        no_paths: None,
        root: Some("C:\\Steam".to_owned()),
        manifests: Ok(vec![manifest(10, "Alpha"), manifest(20, "Beta")]),
        conflicts: Vec::new(),
        cached: Some(vec![game(10, "Alpha"), game(20, "Beta"), game(30, "Gamma")]),
        embedded: None,
        running: false,
    })
}

fn queued(app: &mut DrydockApp, ids: &[(u32, &str)]) {
    app.settings.download_queue = ids
        .iter()
        .map(|(app_id, name)| QueuedDownload { app_id: *app_id, name: (*name).to_owned() })
        .collect();
}

fn progress(app_id: u32, done: u64, total: u64) -> DownloadUpdate {
    DownloadUpdate::Progress(DownloadProgress {
        app_id,
        done_bytes: done,
        total_bytes: total,
        current_file: "Data/file.pak".to_owned(),
    })
}

fn started(app: &mut DrydockApp) -> JobOrder {
    queued(app, &[(10, "Alpha"), (20, "Beta")]);
    app.start_front_download().expect("the front can start")
}

#[test]
fn the_front_of_the_queue_starts() {
    let mut app = shell();
    assert!(app.start_front_download().is_none());
    let order = started(&mut app);
    assert_eq!((order.app_id, order.name.as_str(), order.kind), (10, "Alpha", DownloadKind::Download));
    assert_eq!(order.limits.connections, 16);
    assert_eq!(app.line.text, "Downloading Alpha…");
    assert!(app.download_running() && app.download_busy());
    assert!(app.start_front_download().is_none());
    assert!(app.start_verify(20, "Beta".to_owned()).is_none());
    assert_eq!(app.line.text, "A download is already in progress.");
}

#[test]
fn a_completed_download_frees_the_job() {
    let mut app = shell();
    started(&mut app);
    assert!(matches!(app.poll_download(vec![progress(10, 5, 10)], false), DownloadEnd::Nothing));
    let end = app.poll_download(
        vec![
            DownloadUpdate::Installed("D:\\Alpha".to_owned()),
            DownloadUpdate::Finished(Ok("Alpha downloaded".to_owned())),
        ],
        false,
    );
    match end {
        DownloadEnd::Completed { app_id, root, .. } => {
            assert_eq!((app_id, root), (10, Some("D:\\Alpha".to_owned())));
        }
        _ => panic!("the download is complete"),
    }
    assert_eq!(app.line.text, "Alpha downloaded");
    assert!(!app.download_running());
}

#[test]
fn a_pause_keeps_the_position_and_is_no_error() {
    let mut app = shell();
    started(&mut app);
    app.poll_download(vec![progress(10, 5, 10)], false);
    app.pause_download();
    assert_eq!(app.line.text, "Pausing the download…");
    assert!(app.downloads.job.as_ref().unwrap().cancel);
    let end = app.poll_download(
        vec![DownloadUpdate::Finished(Err("Download paused".to_owned()))],
        false,
    );
    assert!(matches!(end, DownloadEnd::Stopped));
    assert!(app.downloads.paused);
    assert_eq!(app.downloads.error, None);
    assert_eq!(app.downloads.last.as_ref().unwrap().done_bytes, 5);
    let banner = app.downloads_page().unwrap();
    assert_eq!(banner.status().0, "PAUSED");
    assert_eq!(banner.transferred(), "5 B / 10 B");
    assert_eq!(banner.buttons(2), [BannerButton::Remove, BannerButton::Resume]);
    assert_eq!(banner.time_left(None), "Paused");
}

#[test]
fn a_lost_job_is_an_error() {
    let mut app = shell();
    started(&mut app);
    assert!(matches!(app.poll_download(Vec::new(), true), DownloadEnd::Stopped));
    assert_eq!(app.line.text, "The download ended unexpectedly.");
    assert_eq!(app.downloads.error, Some("The download ended unexpectedly.".to_owned()));
    let banner = app.downloads_page().unwrap();
    assert_eq!(banner.status().0, "DOWNLOAD ERROR");
    assert_eq!(banner.message().unwrap().1, Tone::Danger);
}

#[test]
fn switching_the_front_is_no_pause() {
    let mut app = shell();
    started(&mut app);
    queued(&mut app, &[(20, "Beta"), (10, "Alpha")]);
    assert!(app.activate_download(QueueEffect::SwitchToFront, Ok(())).is_none());
    assert_eq!(app.line.text, "Switching download…");
    let end = app.poll_download(vec![DownloadUpdate::Finished(Err("stopped".to_owned()))], false);
    assert!(matches!(end, DownloadEnd::Switched));
    assert!(!app.downloads.paused);
    let order = app.start_front_download().unwrap();
    assert_eq!(order.app_id, 20);
}

#[test]
fn queue_effects_are_told_of() {
    let mut app = shell();
    assert!(app.enqueue_download("Alpha", QueueEffect::Unchanged, Ok(())).is_none());
    assert_eq!(app.line.text, "Alpha is already in the download queue.");
    queued(&mut app, &[(10, "Alpha")]);
    let order = app.enqueue_download("Alpha", QueueEffect::StartFront, Ok(())).unwrap();
    assert_eq!(order.app_id, 10);
    queued(&mut app, &[(10, "Alpha"), (20, "Beta")]);
    assert!(app.enqueue_download("Beta", QueueEffect::PersistOnly, Ok(())).is_none());
    assert_eq!(app.line.text, "Queued Beta for download.");
    assert!(app.demote_current_download(QueueEffect::SwitchToFront, Ok(())).is_none());
    assert_eq!(app.line.text, "Moving to the back of the queue…");
    app.line.text = "before".to_owned();
    assert!(app.remove_queued_download(QueueEffect::PersistOnly, Ok(())).is_none());
    assert_eq!(app.line.text, "before");
    app.remove_queued_download(QueueEffect::PersistOnly, Err("full".to_owned()));
    assert_eq!(app.line.text, "Your change could not be saved: full");
    assert!(app.remove_current_download(QueueEffect::Unchanged, Ok(())).is_none());
}

#[test]
fn a_verify_ends_with_its_verdict() {
    let mut app = shell();
    let order = app.start_verify(10, "Alpha".to_owned()).unwrap();
    assert_eq!(order.kind, DownloadKind::Verify);
    assert_eq!(app.downloads_page().unwrap().buttons(0), [BannerButton::Cancel]);
    app.cancel_verify();
    assert_eq!(app.line.text, "Cancelling the verify…");
    let end = app.poll_download(
        vec![
            DownloadUpdate::Verified(true),
            DownloadUpdate::Finished(Ok("All files intact".to_owned())),
        ],
        false,
    );
    assert!(matches!(end, DownloadEnd::Verified { app_id: 10, verified: Some(true), result: Ok(_) }));
    let banner = app.downloads_page().unwrap();
    assert_eq!(banner.status().0, "VERIFY COMPLETE");
    assert_eq!(banner.buttons(0), [BannerButton::Dismiss]);
    app.dismiss_verify();
    assert!(app.downloads_page().is_none());
}

#[test]
fn the_banner_shows_the_running_job() {
    let mut app = shell();
    started(&mut app);
    let banner = app.downloads_page().unwrap();
    assert!(matches!(banner.file_line(), FileLine::Initializing));
    assert_eq!(banner.transferred(), "—");
    app.poll_download(vec![progress(10, 1024, 4096)], false);
    let banner = app.downloads_page().unwrap();
    assert_eq!(banner.transferred(), "1.0 KB / 4.0 KB");
    assert_eq!(banner.time_left(Some(75)), "~1m 15s");
    assert_eq!(banner.time_left(None), "Calculating…");
    assert_eq!(banner.buttons(2), [BannerButton::Pause, BannerButton::ToQueue]);
    assert_eq!(banner.buttons(1), [BannerButton::Pause]);
    assert_eq!(banner.title(), "Alpha");
    assert_eq!(app.queue_pill(), Some("2 IN QUEUE".to_owned()));
    assert_eq!(app.upcoming_downloads().len(), 1);
    assert_eq!(app.upcoming_downloads()[0].app_id, 20);
    assert_eq!(app.up_next_label(), "UP NEXT (1)");
    assert!(upcoming_artwork(20)[0].contains("20"));
    assert!(banner.artwork()[0].ends_with("header.jpg"));
}

#[test]
fn durations_show_their_two_largest_units() {
    assert_eq!(format_eta(0), "0s");
    assert_eq!(format_eta(59), "59s");
    assert_eq!(format_eta(60), "1m 00s");
    assert_eq!(format_eta(3599), "59m 59s");
    assert_eq!(format_eta(3600), "1h 00m");
    assert_eq!(format_eta(90061), "25h 01m");
}

#[test]
fn a_settings_file_that_is_full_still_switches() {
    let mut app = shell();
    queued(&mut app, &[(10, "Alpha")]);
    let order = app.apply_queue_effect(QueueEffect::StartFront, "", Err("full".to_owned()));
    assert!(order.is_some());
    assert_eq!(app.line.text, "Downloading Alpha…");
}
