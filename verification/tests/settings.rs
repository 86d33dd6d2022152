use drydock_desktop::settings_page::{
    bandwidth_pill, games_folder_note, source_pill, steam_dir_note, verify_threads_label,
    ConfigSource, FolderLook,
};
use drydock_desktop::startup::{LoadOutcome, Start};
use drydock_desktop::state::{DrydockApp, Settings, SteamDirValidation, SteamServiceState, SteamServiceStatus};
use drydock_desktop::types::{CatalogApp, SteamManifest, Tone};
use std::collections::BTreeMap;

fn settings() -> Settings {
    Settings {
        steam_directory: String::new(),
        games_directory: String::new(),
        added_apps: BTreeMap::new(),
        installed_games: BTreeMap::new(),
        launch_paths: BTreeMap::new(),
        download_queue: Vec::new(),
        steam_updates_enabled: BTreeMap::new(),
        auto_update_drydock: true,
        auto_update_unlocks: true,
        verify_before_activation: true,
        verify_threads: 0,
        max_download_mbps: 0,
        max_download_connections: 0,
        emu_skeleton_path: String::new(),
        proxy_base_url: String::new(),
        proxy_hmac_secret: String::new(),
        update_repository: String::new(),
    }
}

fn game(app_id: u32, name: &str) -> CatalogApp {
    CatalogApp { app_id, name: name.to_owned(), drm: false, tags: Vec::new() }
}

fn manifest(app_id: u32, name: &str) -> SteamManifest {
    SteamManifest {
        app_id,
        name: name.to_owned(),
        install_dir: format!("C:\\Steam\\steamapps\\common\\{name}"),
        size_on_disk: Some(2048),
    }
}

/// A shell with a Steam folder, two installed games and a catalog of three.
fn shell() -> DrydockApp {
    DrydockApp::new(Start {
        settings: settings(),
        outcome: LoadOutcome::Loaded,
        no_paths: None,
        root: Some("C:\\Steam".to_owned()),
        manifests: Ok(vec![manifest(10, "Alpha"), manifest(20, "Beta")]),
        conflicts: Vec::new(),
        cached: Some(vec![game(10, "Alpha"), game(20, "Beta"), game(30, "Gamma")]),
        embedded: None,
        running: false,
    })
}

fn look(is_folder: bool, has_launcher: bool, has_steamapps: bool) -> FolderLook {
    FolderLook { is_folder, has_launcher, has_steamapps }
}

#[test]
fn a_steam_folder_holds_the_launcher_and_the_games() {
    let cases = [
        (look(false, true, true), SteamDirValidation::NotFound, "Folder does not exist"),
        (
            look(true, false, true),
            SteamDirValidation::MissingExecutable,
            "Not a Steam folder — missing steam.exe / steam.sh",
        ),
        (
            look(true, true, false),
            SteamDirValidation::MissingSteamapps,
            "Steam executable found, but steamapps folder is missing",
        ),
        (look(true, true, true), SteamDirValidation::Valid, "Steam installation verified"),
    ];
    for (seen, verdict, note) in cases {
        let mut app = shell();
        assert_eq!(app.form.folder_to_look_at(), Some("C:\\Steam".to_owned()));
        assert_eq!(app.form.validate_steam_draft(seen), verdict);
        assert_eq!(steam_dir_note(verdict).0, note);
        assert_eq!(app.form.folder_to_look_at(), None);
    }
}

#[test]
fn a_verdict_stands_until_the_text_changes() {
    let mut app = shell();
    app.form.validate_steam_draft(look(true, true, true));
    assert_eq!(app.form.validate_steam_draft(look(false, false, false)), SteamDirValidation::Valid);
    app.form.steam_directory = "  ".to_owned();
    assert_eq!(app.form.folder_to_look_at(), None);
    assert_eq!(app.form.validate_steam_draft(look(true, true, true)), SteamDirValidation::Empty);
}

#[test]
fn saved_folders_are_trimmed() {
    let mut app = shell();
    app.form.games_directory = " D:\\Games ".to_owned();
    app.save_settings();
    assert_eq!(app.settings.steam_directory, "C:\\Steam");
    assert_eq!(app.games_directory(), Some("D:\\Games".to_owned()));
    assert!(app.settings_saved(Ok(())));
    assert_eq!(app.line.text, "Settings saved");
    assert!(!app.settings_saved(Err("disk full".to_owned())));
    assert_eq!(app.line.text, "Settings could not be saved: disk full");
    app.use_steam_library();
    assert_eq!(app.games_directory(), None);
}

#[test]
fn broken_settings_wait_for_the_user() {
    let mut app = shell();
    app.settings_read_only = true;
    let refused = app.write_settings();
    assert!(refused.clone().unwrap_err().contains("DISCARD BROKEN SETTINGS"));
    assert!(app.persist_settings(refused).is_err());
    assert!(app.line.text.starts_with("Your change could not be saved: the settings file"));
    assert_eq!(app.line.text.chars().count(), 160);
    assert!(app.settings_page().broken_settings);
    app.discard_broken_settings();
    assert!(app.write_settings().is_ok());
    app.fresh_settings_written(Ok(()));
    assert_eq!(
        app.line.text,
        "Started a fresh settings file. The unreadable one was kept beside it."
    );
    app.fresh_settings_written(Err("denied".to_owned()));
    assert_eq!(app.line.text, "A fresh settings file could not be written: denied");
}

#[test]
fn folders_are_detected_and_picked() {
    let mut app = shell();
    app.steam_folder_detected(None);
    assert_eq!(app.line.text, "Steam could not be detected automatically");
    app.form.validate_steam_draft(look(true, true, true));
    app.steam_folder_detected(Some("E:\\Steam".to_owned()));
    assert_eq!(app.form.steam_directory, "E:\\Steam");
    assert!(app.form.validated.is_none());
    app.steam_folder_picked("F:\\Steam".to_owned());
    assert_eq!(app.line.text, "Steam folder selected. Save to apply it.");
    app.games_folder_picked("F:\\Games".to_owned());
    assert_eq!(app.line.text, "Games folder selected. Save to apply it.");
}

#[test]
fn limits_are_shown_as_jobs_use_them() {
    let mut app = shell();
    assert_eq!(app.settings.shown_connections(), 16);
    assert!(app.set_connections(16));
    assert!(!app.set_connections(16));
    app.settings.max_download_connections = 99;
    assert_eq!(app.settings.shown_connections(), 32);
    assert_eq!(app.settings.job_limits().connections, 32);
    assert!(app.set_bandwidth(5));
    assert_eq!(app.settings.job_limits().max_bps, Some(5 * 1024 * 1024));
    assert_eq!(bandwidth_pill(0).0, "UNLIMITED");
    assert_eq!(bandwidth_pill(5).0, "Capped at 5 MB/s");
    assert!(app.set_verify_threads(9));
    assert_eq!(app.settings.shown_verify_threads(4), 4);
    assert_eq!(verify_threads_label(0), "Auto");
    assert_eq!(verify_threads_label(4), "4");
    app.line.error = true;
    app.limit_saved(Ok(()));
    assert_eq!((app.line.text.as_str(), app.line.error), ("Ready", false));
    app.limit_saved(Err("denied".to_owned()));
    assert_eq!(app.line.text, "Your change could not be saved: denied");
    assert!(app.line.error);
}

#[test]
fn overrides_are_written_when_they_change() {
    let mut app = shell();
    assert!(!app.self_hosting_panel(String::new(), String::new(), String::new()));
    assert!(app.self_hosting_panel("https://proxy.example".to_owned(), String::new(), String::new()));
    assert_eq!(app.settings.proxy_base_url, "https://proxy.example");
}

#[test]
fn the_games_folder_line_tells_where_games_go() {
    assert_eq!(
        games_folder_note(" ", false, Some("C:\\Steam\\steamapps\\common".to_owned())).0,
        "Using Steam's library: C:\\Steam\\steamapps\\common"
    );
    assert_eq!(
        games_folder_note("", true, None).0,
        "Using Steam's library: Steam folder not set — pick a games folder here"
    );
    assert_eq!(games_folder_note("D:\\G", true, None), ("Folder exists and ready".to_owned(), Tone::Verdigris));
    assert_eq!(games_folder_note("D:\\G", false, None).1, Tone::Amber);
}

#[test]
fn the_service_card_follows_the_service() {
    let mut app = shell();
    let view = app.settings_page();
    assert_eq!(view.service_pill.0, "○ UNKNOWN");
    assert_eq!(view.games_indexed, "● 3 games indexed");
    assert_eq!(view.steam_pill.0, "● Steam Linked");
    let card = view.service.unwrap();
    assert_eq!(card.install, Some("INSTALL SERVICE".to_owned()));
    assert!(!card.installed && card.enabled && card.restart_enabled);
    app.steam.service_status = Some(SteamServiceStatus {
        state: SteamServiceState::UpdateAvailable,
        message: "New hook".to_owned(),
        action_text: "Update straße".to_owned(),
    });
    app.steam_jobs.service = true;
    let view = app.settings_page();
    assert_eq!(view.service_pill.0, "▲ UPDATE AVAILABLE");
    let card = view.service.unwrap();
    assert_eq!(card.install, Some("UPDATE STRASSE".to_owned()));
    assert!(card.installed && !card.enabled && !card.restart_enabled);
    app.steam.root = None;
    assert!(app.settings_page().service.is_none());
}

#[test]
fn a_value_tells_where_it_comes_from() {
    assert_eq!(source_pill(ConfigSource::Unset).0, "Unset");
    assert_eq!(source_pill(ConfigSource::Environment).0, "Env Override");
    assert_eq!(source_pill(ConfigSource::UserSettings).0, "User Settings");
    assert_eq!(source_pill(ConfigSource::BuildDefault).0, "Built-in");
}
