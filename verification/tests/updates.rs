use drydock_desktop::updates::{update_marker, updates_allowed};
use drydock_desktop::startup::{LoadOutcome, Start};
use drydock_desktop::state::{DrydockApp, Settings};
use drydock_desktop::types::{CatalogApp, SteamManifest, Reply, Tone};
use std::collections::BTreeMap;

fn settings() -> Settings {
    Settings {
        steam_directory: String::new(),
        games_directory: String::new(),
        added_apps: BTreeMap::new(),
        installed_games: BTreeMap::new(),
        launch_paths: BTreeMap::new(),
        download_queue: Vec::new(),
        steam_updates_enabled: BTreeMap::new(),
        auto_update_drydock: true,
        auto_update_unlocks: true,
        verify_before_activation: true,
        verify_threads: 0,
        max_download_mbps: 0,
        max_download_connections: 0,
        emu_skeleton_path: String::new(),
        proxy_base_url: String::new(),
        proxy_hmac_secret: String::new(),
        update_repository: String::new(),
    }
}

fn game(app_id: u32, name: &str) -> CatalogApp {
    CatalogApp { app_id, name: name.to_owned(), drm: false, tags: Vec::new() }
}

fn manifest(app_id: u32, name: &str) -> SteamManifest {
    SteamManifest {
        app_id,
        name: name.to_owned(),
        install_dir: format!("C:\\Steam\\steamapps\\common\\{name}"),
        size_on_disk: Some(2048),
    }
}

/// A shell with a Steam folder, two installed games and a catalog of three.
fn shell() -> DrydockApp {
    DrydockApp::new(Start {
        settings: settings(),
        outcome: LoadOutcome::Loaded,
        no_paths: None,
        root: Some("C:\\Steam".to_owned()),
        manifests: Ok(vec![manifest(10, "Alpha"), manifest(20, "Beta")]),
        conflicts: Vec::new(),
        cached: Some(vec![game(10, "Alpha"), game(20, "Beta"), game(30, "Gamma")]),
        embedded: None,
        running: false,
    })
}

#[test]
fn a_marker_names_all_that_matters() {
    assert_eq!(update_marker("1.2.0", "owner/repo", "anonymous"), "1.2.0:owner/repo:anonymous");
}

#[test]
fn an_automatic_check_respects_the_marker() {
    let mut app = shell();
    assert!(!app.start_update_check(true, true, true));
    assert!(!app.start_update_check(false, false, false));
    assert!(app.start_update_check(false, true, true));
    assert_eq!(app.line.busy, Some("Checking the release channel…".to_owned()));
    assert!(!app.start_update_check(false, true, false));
    assert_eq!(app.poll_update(Reply::Waiting), None);
    assert_eq!(app.poll_update(Reply::Done(Ok(None))), None);
    assert_eq!(app.line.text, "Drydock is up to date");
    assert_eq!(app.line.busy, None);
}

#[test]
fn an_update_closes_drydock() {
    let mut app = shell();
    app.start_update_check(false, true, false);
    assert_eq!(app.poll_update(Reply::Done(Ok(Some("1.3.0".to_owned())))), Some("1.3.0".to_owned()));
    app.update_launched("1.3.0", Err("denied".to_owned()));
    assert_eq!(app.line.text, "Update could not be started: denied");
    assert!(!app.exit_for_update);
    app.update_launched("1.3.0", Ok(()));
    assert_eq!(app.line.text, "Installing Drydock 1.3.0…");
    assert!(app.exit_for_update);
}

#[test]
fn a_failed_check_is_told_of() {
    let mut app = shell();
    app.start_update_check(true, true, false);
    app.poll_update(Reply::Done(Err("offline".to_owned())));
    assert_eq!(app.line.text, "Update check failed: offline");
    app.start_update_check(true, true, false);
    app.poll_update(Reply::Lost);
    assert_eq!(app.line.text, "The update check ended unexpectedly");
    assert!(!app.steam_jobs.update);
}

#[test]
fn the_switch_goes_back_where_it_was_not_saved() {
    let mut app = shell();
    app.set_auto_update(false);
    app.auto_update_saved(true, Ok(()));
    assert_eq!(app.line.text, "Drydock auto update disabled");
    app.set_auto_update(true);
    app.auto_update_saved(false, Ok(()));
    assert_eq!(app.line.text, "Drydock auto update enabled");
    app.set_auto_update(false);
    app.auto_update_saved(true, Err("full".to_owned()));
    assert!(app.settings.auto_update_drydock);
    assert_eq!(app.line.text, "Auto-update setting could not be saved: full");
}

#[test]
fn a_choice_goes_before_the_manifest() {
    let mut chosen: BTreeMap<u32, bool> = BTreeMap::new();
    assert!(updates_allowed(&chosen, 10, None));
    assert!(!updates_allowed(&chosen, 10, Some(false)));
    chosen.insert(10, true);
    assert!(updates_allowed(&chosen, 10, Some(false)));
}

#[test]
fn an_unsaved_choice_is_undone() {
    let mut app = shell();
    assert!(!app.manifest_changed(10, false, Err("read-only".to_owned())));
    assert_eq!(app.line.text, "read-only");
    assert!(app.manifest_changed(10, false, Ok(())));
    app.choice_saved(10, false, true, Ok(()), Ok(()));
    assert_eq!(app.line.text, "Updates blocked for App 10");
    assert!(app.manifest_changed(10, true, Ok(())));
    app.choice_saved(10, true, false, Ok(()), Ok(()));
    assert_eq!(app.line.text, "Updates enabled for App 10");
    assert!(app.manifest_changed(10, false, Ok(())));
    app.choice_saved(10, false, true, Err("full".to_owned()), Ok(()));
    assert_eq!(app.line.text, "Update preference was not saved and was rolled back: full");
    assert_eq!(app.settings.steam_updates_enabled[&10], true);
    app.choice_saved(10, false, true, Err("full".to_owned()), Err("locked".to_owned()));
    assert_eq!(
        app.line.text,
        "Update preference was not saved and rollback failed: full; locked"
    );
}

#[test]
fn the_page_counts_the_protected_games() {
    let mut app = shell();
    let view = app.updates_page(&vec![None, Some(true)], true, false);
    assert_eq!(view.protection_pill, ("● All Updates Allowed".to_owned(), Tone::AccentSoft));
    assert_eq!(view.games_found, "2 games found");
    assert!(view.can_check && !view.checking);
    app.settings.steam_updates_enabled.insert(20, false);
    let view = app.updates_page(&vec![Some(false)], false, true);
    assert_eq!(view.protection_pill, ("🛡 2 Protected Games".to_owned(), Tone::Danger));
    assert!(!view.can_check);
    assert_eq!(view.games[0].name, "Alpha");
    assert!(!view.games[0].allowed && !view.games[1].allowed);
    assert_eq!(view.games[0].id_label(), "APP 10");
    assert_eq!(view.games[0].state_pill().0, "🛡 UPDATES BLOCKED");
    assert!(view.channel.starts_with("Verified binary updates"));
}
