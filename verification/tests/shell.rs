use drydock_desktop::shell::{
    collapses, game_search_box, note_page, picture_step, section_label, PictureLoad, PictureStep,
    SidebarSection,
};
use drydock_desktop::startup::{LoadOutcome, Start};
use drydock_desktop::state::{DrydockApp, Settings, PendingCrack, QueuedDownload, SteamServiceState, SteamServiceStatus};
use drydock_desktop::types::{CatalogApp, SteamManifest, GuideFlow, Notification, Page, StoreTab, Tone};
use std::collections::{BTreeMap, HashSet};

fn settings() -> Settings {
    Settings {
        steam_directory: String::new(),
        games_directory: String::new(),
        added_apps: BTreeMap::new(),
        installed_games: BTreeMap::new(),
        launch_paths: BTreeMap::new(),
        download_queue: Vec::new(),
        steam_updates_enabled: BTreeMap::new(),
        auto_update_drydock: true,
        auto_update_unlocks: true,
        verify_before_activation: true,
        verify_threads: 0,
        max_download_mbps: 0,
        max_download_connections: 0,
        emu_skeleton_path: String::new(),
        proxy_base_url: String::new(),
        proxy_hmac_secret: String::new(),
        update_repository: String::new(),
    }
}

fn game(app_id: u32, name: &str) -> CatalogApp {
    CatalogApp { app_id, name: name.to_owned(), drm: false, tags: Vec::new() }
}

fn manifest(app_id: u32, name: &str) -> SteamManifest {
    SteamManifest {
        app_id,
        name: name.to_owned(),
        install_dir: format!("C:\\Steam\\steamapps\\common\\{name}"),
        size_on_disk: Some(2048),
    }
}

/// A shell with a Steam folder, two installed games and a catalog of three.
fn shell() -> DrydockApp {
    DrydockApp::new(Start {
        settings: settings(),
        outcome: LoadOutcome::Loaded,
        no_paths: None,
        root: Some("C:\\Steam".to_owned()),
        manifests: Ok(vec![manifest(10, "Alpha"), manifest(20, "Beta")]),
        conflicts: Vec::new(),
        cached: Some(vec![game(10, "Alpha"), game(20, "Beta"), game(30, "Gamma")]),
        embedded: None,
        running: false,
    })
}

fn service(state: SteamServiceState, message: &str) -> Option<SteamServiceStatus> {
    Some(SteamServiceStatus {
        state,
        message: message.to_owned(),
        action_text: "Install service".to_owned(),
    })
}

fn titles(app: &DrydockApp) -> Vec<String> {
    app.collect_notifications().iter().map(|note| note.title.clone()).collect()
}

#[test]
fn problems_come_before_activity_and_good_news() {
    let mut app = shell();
    assert_eq!(titles(&app), ["Ready"]);
    app.steam.service_status = service(SteamServiceState::Current, "");
    assert_eq!(titles(&app), ["Ready", "Steam Service ready"]);
    app.steam.conflicts = vec!["Modified Steam files".to_owned(), "GreenLuma".to_owned()];
    app.steam.root = None;
    assert_eq!(
        titles(&app),
        ["Steam not found", "Modified Steam files", "GreenLuma", "Ready", "Steam Service ready"]
    );
    let notes = app.collect_notifications();
    assert!(notes[1].detail.starts_with("Foreign backup files"));
    assert!(notes[2].detail.starts_with("Manages the same Steam files"));
    assert_eq!(notes[4].accent, Tone::AccentSoft);
}

#[test]
fn the_service_is_told_of_by_state() {
    let mut app = shell();
    app.line.text = "  ".to_owned();
    app.steam.service_status = service(SteamServiceState::NotInstalled, "");
    assert_eq!(titles(&app), ["Steam Service not installed"]);
    app.steam.service_status = service(SteamServiceState::UpdateAvailable, "");
    assert_eq!(titles(&app), ["Steam Service out of date"]);
    app.steam.service_status = service(SteamServiceState::Error, "broken hook");
    let notes = app.collect_notifications();
    assert_eq!(notes[0].title, "Steam Service problem");
    assert_eq!(notes[0].detail, "broken hook");
    assert_eq!(notes[0].accent, Tone::Danger);
    app.steam.service_status = None;
    app.steam_jobs.service = true;
    assert_eq!(titles(&app), ["Checking Steam Service…"]);
    app.steam_jobs.service = false;
    assert!(titles(&app).is_empty());
    assert!(app.status_bar().is_none());
    assert_eq!(app.notification_count(), "0 active");
}

#[test]
fn the_status_bar_shows_the_first_note() {
    let mut app = shell();
    let pill = app.status_bar().unwrap();
    assert_eq!(pill.title, "Ready");
    assert_eq!(pill.more, "");
    assert_eq!(pill.hint, "Click to view notifications");
    app.steam.root = None;
    let pill = app.status_bar().unwrap();
    assert_eq!(pill.title, "Steam not found");
    assert_eq!(pill.more, "  +1 more");
    assert_eq!(pill.hint, "Click to view all 2 notifications");
}

#[test]
fn notes_lead_to_their_page() {
    let note = |title: &str| Notification::info(title.to_owned(), String::new());
    assert_eq!(note_page(&note("Steam Service problem")), Some(Page::Settings));
    assert_eq!(note_page(&note("Steam not found")), Some(Page::Settings));
    assert_eq!(note_page(&note("Downloading Portal…")), Some(Page::Downloads));
    assert_eq!(note_page(&note("Ready")), None);
    let mut app = shell();
    app.toggle_notifications();
    assert!(app.notifications_open);
    app.open_from_notification(Page::Settings);
    assert!(!app.notifications_open);
    assert_eq!(app.page, Page::Settings);
}

#[test]
fn the_sidebar_marks_the_page_and_the_downloads() {
    let mut app = shell();
    let links = app.sidebar_nav(SidebarSection::Storefront);
    assert_eq!(links[0].label, "Store");
    assert!(links[0].active && !links[1].active);
    assert!(links[2].badge.is_none());
    assert_eq!(app.download_status_label(), ("Downloads", Tone::Muted));
    app.page = Page::SeeAll;
    assert!(app.sidebar_nav(SidebarSection::Storefront)[0].active);
    app.settings.download_queue = vec![QueuedDownload { app_id: 10, name: "Alpha".to_owned() }];
    assert_eq!(
        app.sidebar_nav(SidebarSection::Storefront)[2].badge,
        Some(("QUEUED", Tone::Amber))
    );
    app.downloads.paused = true;
    assert_eq!(
        app.sidebar_nav(SidebarSection::Storefront)[2].badge,
        Some(("PAUSED", Tone::Danger))
    );
    assert_eq!(app.download_status_label(), ("Downloads paused", Tone::Danger));
    app.steam_jobs.update = true;
    assert_eq!(app.sidebar_nav(SidebarSection::System)[1].badge, Some(("...", Tone::Accent)));
    assert_eq!(app.sidebar_nav(SidebarSection::Services)[0].page, Page::Activation);
    assert_eq!(section_label(SidebarSection::Services), "SERVICES & TOOLS");
    assert_eq!(app.steam_card(), ("Steam Connected", Tone::Verdigris));
    app.steam.root = None;
    assert_eq!(app.steam_card(), ("Steam Offline", Tone::Danger));
}

#[test]
fn entering_a_page_is_noticed_once() {
    let mut app = shell();
    assert!(!app.enter_page());
    app.page = Page::Library;
    assert!(app.enter_page());
    assert!(!app.enter_page());
}

#[test]
fn the_removal_window_lists_fourteen_files() {
    let mut app = shell();
    assert!(app.crack_removal_window().is_none());
    let files = |n: usize| (0..n).map(|i| format!("file{i}")).collect::<Vec<String>>();
    app.activation.pending_crack =
        Some(PendingCrack { app_id: 10, root: "C:\\G".to_owned(), files: files(14) });
    let window = app.crack_removal_window().unwrap();
    assert_eq!(window.headline, "14 file(s)/folder(s) will be deleted from the game folder:");
    assert_eq!((window.listed, window.more), (14, None));
    app.activation.pending_crack =
        Some(PendingCrack { app_id: 10, root: "C:\\G".to_owned(), files: files(16) });
    let window = app.crack_removal_window().unwrap();
    assert_eq!((window.listed, window.more), (14, Some("…and 2 more".to_owned())));
    app.cancel_crack_removal();
    assert!(app.crack_removal_window().is_none());
    assert_eq!(app.line.text, "Activation cancelled — crack files were not removed.");
}

#[test]
fn a_success_is_told_of_until_it_is_closed() {
    let mut app = shell();
    app.activation.success_app = Some("Alpha".to_owned());
    assert_eq!(app.entitlement_success_window(), Some("Alpha entitlement verified!".to_owned()));
    app.close_success_window();
    assert_eq!(app.entitlement_success_window(), None);
    assert_eq!(app.busy_overlay(), None);
}

#[test]
fn the_search_box_folds_away() {
    let apps = vec![game(10, "Alpha"), game(20, "BETA"), game(30, "Gamma")];
    assert_eq!(game_search_box("  ", None, &apps, false, None), None);
    assert_eq!(game_search_box("", None, &apps, true, None), Some(vec![0, 1, 2]));
    assert_eq!(game_search_box(" beta ", Some(20), &apps, false, None), None);
    assert_eq!(game_search_box(" beta ", Some(10), &apps, false, None), Some(vec![1]));
    assert_eq!(game_search_box("MA", None, &apps, false, None), Some(vec![2]));
    assert_eq!(game_search_box("20", None, &apps, false, None), Some(vec![1]));
    let only: HashSet<u32> = [30].into_iter().collect();
    assert_eq!(game_search_box("a", None, &apps, false, Some(&only)), Some(vec![2]));
    let many: Vec<CatalogApp> = (0..150).map(|id| game(id, "Same")).collect();
    assert_eq!(game_search_box("same", None, &many, false, None).unwrap().len(), 100);
}

#[test]
fn a_picture_is_passed_over_once_it_failed() {
    assert_eq!(picture_step(PictureLoad::Ready, false), PictureStep::Paint);
    assert_eq!(picture_step(PictureLoad::Pending, true), PictureStep::Wait);
    assert_eq!(picture_step(PictureLoad::Failed, false), PictureStep::TryNext);
    assert_eq!(picture_step(PictureLoad::Failed, true), PictureStep::GiveUp);
}

#[test]
fn a_key_leads_to_its_page() {
    let mut app = shell();
    assert_eq!(app.screenshot_goto("details"), Some(10));
    assert_eq!(app.page, Page::Details);
    assert_eq!(app.details.app_id, Some(10));
    app.screenshot_goto("denuvo");
    assert_eq!((app.page, app.store.tab), (Page::Home, StoreTab::DenuvoWatch));
    app.screenshot_goto("repacks");
    assert_eq!(app.store.tab, StoreTab::Repacks);
    app.screenshot_goto("add-game");
    assert!(app.library.add_game_folder.is_some());
    app.screenshot_goto("guide-fixes");
    assert_eq!((app.page, app.guide_flow), (Page::Guide, GuideFlow::Fixes));
    app.screenshot_goto("downloads");
    assert!(app.download_running());
    app.screenshot_goto("settings");
    assert_eq!(app.page, Page::Settings);
    app.screenshot_goto("nowhere");
    assert_eq!(app.page, Page::Home);
}

#[test]
fn the_list_collapses_on_the_selected_name() {
    assert!(collapses("", None, false));
    assert!(collapses("alpha", Some("alpha".to_owned()), false));
    assert!(!collapses("alph", Some("alpha".to_owned()), false));
    assert!(!collapses("", None, true));
    assert!(!collapses("alpha", Some("alpha".to_owned()), true));
}
