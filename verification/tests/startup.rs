use drydock_desktop::guide::{guide_stage, GuidePart};
use drydock_desktop::startup::{first_catalog, first_line};
use drydock_desktop::timing::{CATALOG_LIMIT_WINDOW, DOWNLOAD_LIMIT_WINDOW};
use drydock_desktop::startup::{LoadOutcome, Start};
use drydock_desktop::state::{DrydockApp, Settings};
use drydock_desktop::types::{CatalogApp, SteamManifest, GuideFlow, Page};
use std::collections::{BTreeMap, BTreeSet};

fn settings() -> Settings {
    Settings {
        steam_directory: String::new(),
        games_directory: String::new(),
        added_apps: BTreeMap::new(),
        installed_games: BTreeMap::new(),
        launch_paths: BTreeMap::new(),
        download_queue: Vec::new(),
        steam_updates_enabled: BTreeMap::new(),
        auto_update_drydock: true,
        auto_update_unlocks: true,
        verify_before_activation: true,
        verify_threads: 0,
        max_download_mbps: 0,
        max_download_connections: 0,
        emu_skeleton_path: String::new(),
        proxy_base_url: String::new(),
        proxy_hmac_secret: String::new(),
        update_repository: String::new(),
    }
}

fn game(app_id: u32, name: &str) -> CatalogApp {
    CatalogApp { app_id, name: name.to_owned(), drm: false, tags: Vec::new() }
}

fn manifest(app_id: u32, name: &str) -> SteamManifest {
    SteamManifest {
        app_id,
        name: name.to_owned(),
        install_dir: format!("C:\\Steam\\steamapps\\common\\{name}"),
        size_on_disk: Some(2048),
    }
}

/// A shell with a Steam folder, two installed games and a catalog of three.
fn shell() -> DrydockApp {
    DrydockApp::new(Start {
        settings: settings(),
        outcome: LoadOutcome::Loaded,
        no_paths: None,
        root: Some("C:\\Steam".to_owned()),
        manifests: Ok(vec![manifest(10, "Alpha"), manifest(20, "Beta")]),
        conflicts: Vec::new(),
        cached: Some(vec![game(10, "Alpha"), game(20, "Beta"), game(30, "Gamma")]),
        embedded: None,
        running: false,
    })
}

#[test]
fn the_first_line_tells_how_the_settings_were_read() {
    let line = first_line(&LoadOutcome::Loaded, None, None);
    assert_eq!((line.text.as_str(), line.error), ("Ready", false));
    let line = first_line(
        &LoadOutcome::RecoveredFromBackup { reason: "bad comma".to_owned() },
        None,
        None,
    );
    assert_eq!(line.text, "Settings recovered from the backup: bad comma");
    let line = first_line(
        &LoadOutcome::Quarantined { reason: "bad".to_owned(), quarantined: "s.broken".to_owned() },
        None,
        None,
    );
    assert!(line.text.starts_with("Settings were unreadable (bad). The file was kept at s.broken and"));
    assert!(line.error);
    let unreadable = LoadOutcome::Unreadable { reason: "locked".to_owned() };
    let line = first_line(&unreadable, None, None);
    assert!(line.text.starts_with("Settings could not be read (locked). Saving is disabled"));
    let line = first_line(&unreadable, Some("no home".to_owned()), None);
    assert_eq!(
        line.text,
        "Portable paths could not be discovered (no home); falling back to the current directory."
    );
    let line = first_line(&unreadable, Some("no home".to_owned()), Some("denied".to_owned()));
    assert_eq!(line.text, "Steam library could not be read: denied");
}

#[test]
fn saving_is_safe_only_where_the_file_was_read() {
    assert!(LoadOutcome::Loaded.save_is_safe());
    assert!(LoadOutcome::RecoveredFromBackup { reason: String::new() }.save_is_safe());
    assert!(!LoadOutcome::Unreadable { reason: String::new() }.save_is_safe());
    let quarantined =
        LoadOutcome::Quarantined { reason: String::new(), quarantined: String::new() };
    assert!(!quarantined.save_is_safe());
}

#[test]
fn the_first_list_is_the_best_at_hand() {
    let installed = vec![manifest(10, "Alpha")];
    let apps = first_catalog(Some(vec![game(1, "A")]), Some(vec![game(2, "B")]), &installed);
    assert_eq!(apps[0].app_id, 1);
    let apps = first_catalog(Some(Vec::new()), Some(vec![game(2, "B")]), &installed);
    assert_eq!(apps[0].app_id, 2);
    let apps = first_catalog(Some(Vec::new()), Some(Vec::new()), &installed);
    assert!(apps.is_empty());
    let apps = first_catalog(None, None, &installed);
    assert_eq!((apps[0].app_id, apps[0].name.as_str(), apps[0].drm), (10, "Alpha", false));
}

#[test]
fn the_shell_starts_at_the_store() {
    let app = shell();
    assert_eq!(app.page, Page::Home);
    assert_eq!(app.form.steam_directory, "C:\\Steam");
    assert!(!app.has_pending_background());
    assert_eq!(app.catalog_limiter.window, CATALOG_LIMIT_WINDOW);
    assert_eq!(app.download_limiter.window, DOWNLOAD_LIMIT_WINDOW);
    assert!(!app.settings_read_only);
    assert!(!app.catalog.filters_active() && app.catalog.denuvo_appids.is_empty());
    assert!(app.unlock_writes.touched_apps().is_empty());
    assert!(app.cloud.form.bucket.is_empty() && app.cloud.form.folder_path.is_empty());
}

#[test]
fn an_unreadable_library_leaves_no_games() {
    let mut start_settings = settings();
    start_settings.steam_directory = "E:\\Steam".to_owned();
    let app = DrydockApp::new(Start {
        settings: start_settings,
        outcome: LoadOutcome::Unreadable { reason: "locked".to_owned() },
        no_paths: None,
        root: None,
        manifests: Err("denied".to_owned()),
        conflicts: Vec::new(),
        cached: None,
        embedded: None,
        running: true,
    });
    assert!(app.steam.manifests.is_empty() && app.catalog.apps.is_empty());
    assert!(app.settings_read_only);
    assert_eq!(app.form.steam_directory, "E:\\Steam");
    assert!(app.write_settings().is_err());
}

#[test]
fn entering_a_page_takes_what_was_found() {
    let mut app = shell();
    app.selected_app = Some(20);
    app.activation.request_code = "AB12CD34".to_owned();
    let luas: BTreeSet<u32> = [30].into_iter().collect();
    app.refresh_dynamic_state(true, None, luas, Ok(vec![manifest(10, "Alpha")]));
    assert!(app.is_app_added(30));
    assert_eq!(app.cloud.dll_installed, Some(true));
    assert_eq!(app.selected_app, None);
    assert_eq!(app.activation.request_code, "");
    assert_eq!(app.steam.manifests.len(), 1);
    app.refresh_dynamic_state(true, None, BTreeSet::new(), Err("denied".to_owned()));
    assert_eq!(app.steam.manifests.len(), 1);
}

#[test]
fn the_steps_are_numbered_through() {
    for flow in [GuideFlow::Activation, GuideFlow::Fixes] {
        let mut numbers = Vec::new();
        for (part, badge) in
            [(GuidePart::First, "01"), (GuidePart::Second, "02"), (GuidePart::Third, "03")]
        {
            let stage = guide_stage(flow, part);
            assert_eq!(stage.badge, badge);
            numbers.extend(stage.steps.iter().map(|step| step.number));
        }
        assert_eq!(numbers, [1, 2, 3, 4, 5, 6, 7, 8]);
    }
    assert_eq!(guide_stage(GuideFlow::Fixes, GuidePart::Second).title, "APPLY THE FIX");
}

#[test]
fn the_guide_leads_on() {
    let mut app = shell();
    assert_eq!(app.guide_page().target, Page::Activation);
    app.show_walkthrough(GuideFlow::Fixes);
    assert_eq!(app.guide_page().target, Page::Tools);
    assert_eq!(app.guide_page().title, "BUILD-LOCKED GAME FIXES & COMPATIBILITY");
}
