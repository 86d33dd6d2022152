use drydock_desktop::service::{
    build_locked_note, fix_applied_note, removal_names, removed_note, service_allows_adding,
    service_installed_note, service_removed_note, unlock_plan, ServiceFollowUp, ServiceOutcome,
};
use drydock_desktop::timing::{SECOND, SERVICE_RECHECK_COOLDOWN, UNLOCK_UPDATE_POLL};
use drydock_desktop::unlocks::UnlockUpdateSweep;
use drydock_desktop::startup::{LoadOutcome, Start};
use drydock_desktop::state::{DrydockApp, Settings, AddedAppState, SteamServiceState, SteamServiceStatus, UnlockSource};
use drydock_desktop::types::{CatalogApp, SteamManifest, FixEntry, Reply};
use std::collections::{BTreeMap, BTreeSet, HashSet};

fn settings() -> Settings {
    Settings {
        steam_directory: String::new(),
        games_directory: String::new(),
        added_apps: BTreeMap::new(),
        installed_games: BTreeMap::new(),
        launch_paths: BTreeMap::new(),
        download_queue: Vec::new(),
        steam_updates_enabled: BTreeMap::new(),
        auto_update_drydock: true,
        auto_update_unlocks: true,
        verify_before_activation: true,
        verify_threads: 0,
        max_download_mbps: 0,
        max_download_connections: 0,
        emu_skeleton_path: String::new(),
        proxy_base_url: String::new(),
        proxy_hmac_secret: String::new(),
        update_repository: String::new(),
    }
}

fn game(app_id: u32, name: &str) -> CatalogApp {
    CatalogApp { app_id, name: name.to_owned(), drm: false, tags: Vec::new() }
}

fn manifest(app_id: u32, name: &str) -> SteamManifest {
    SteamManifest {
        app_id,
        name: name.to_owned(),
        install_dir: format!("C:\\Steam\\steamapps\\common\\{name}"),
        size_on_disk: Some(2048),
    }
}

/// A shell with a Steam folder, two installed games and a catalog of three.
fn shell() -> DrydockApp {
    DrydockApp::new(Start {
        settings: settings(),
        outcome: LoadOutcome::Loaded,
        no_paths: None,
        root: Some("C:\\Steam".to_owned()),
        manifests: Ok(vec![manifest(10, "Alpha"), manifest(20, "Beta")]),
        conflicts: Vec::new(),
        cached: Some(vec![game(10, "Alpha"), game(20, "Beta"), game(30, "Gamma")]),
        embedded: None,
        running: false,
    })
}

fn current(app: &mut DrydockApp) {
    app.steam.service_status = Some(SteamServiceStatus {
        state: SteamServiceState::Current,
        message: String::new(),
        action_text: String::new(),
    });
}

fn added(app: &mut DrydockApp, app_id: u32, source: Option<UnlockSource>) {
    app.settings.added_apps.insert(app_id, AddedAppState { files: Vec::new(), source });
}

fn names(list: &[&str]) -> Vec<String> {
    list.iter().map(|name| (*name).to_owned()).collect()
}

#[test]
fn chosen_versions_are_not_swept() {
    let mut app = shell();
    current(&mut app);
    app.catalog.fixes_loaded = true;
    added(&mut app, 10, Some(UnlockSource::Latest));
    added(&mut app, 20, Some(UnlockSource::Cracked));
    added(&mut app, 30, Some(UnlockSource::Own));
    added(&mut app, 40, None);
    added(&mut app, 50, None);
    let fixed: HashSet<u32> = [50].into_iter().collect();
    assert_eq!(app.apps_following_latest(&fixed), [10, 40]);
    assert_eq!(app.maybe_update_unlocks(0, &fixed), Some(vec![10, 40]));
    assert_eq!(app.maybe_update_unlocks(UNLOCK_UPDATE_POLL - 1, &fixed), None);
    assert!(app.maybe_update_unlocks(UNLOCK_UPDATE_POLL, &fixed).is_some());
    app.begin_unlock_updates();
    assert!(app.steam_jobs.unlock_update);
    assert_eq!(app.maybe_update_unlocks(9 * UNLOCK_UPDATE_POLL, &fixed), None);
    let sweep = UnlockUpdateSweep { updated: vec![40, 10, 30, 20], failed: 0 };
    app.report_unlock_updates(&sweep);
    assert_eq!(
        app.line.text,
        "Updated the Lua and manifests of App 40, Alpha, Gamma and 1 more to the latest version."
    );
    let save = app.poll_unlock_updates(&Reply::Done(UnlockUpdateSweep { updated: vec![40], failed: 0 }));
    assert!(save);
    assert!(!app.steam_jobs.unlock_update);
    assert_eq!(app.settings.added_apps[&40].source, Some(UnlockSource::Latest));
}

#[test]
fn the_service_is_asked_again_after_a_while() {
    let mut app = shell();
    assert_eq!(app.recheck_service(0), Some("C:\\Steam".to_owned()));
    app.poll_service_action(Reply::Lost);
    assert_eq!(app.recheck_service(SERVICE_RECHECK_COOLDOWN - 1), None);
    assert!(app.recheck_service(SERVICE_RECHECK_COOLDOWN).is_some());
    assert_eq!(app.refresh_service_status(), None);
}

#[test]
fn a_new_steam_folder_is_taken() {
    let mut app = shell();
    app.selected_app = Some(20);
    app.refresh_steam(Some("E:\\Steam".to_owned()), Vec::new(), Ok(vec![manifest(10, "Alpha")]));
    assert_eq!(app.line.text, "Loaded 1 installed Steam games");
    assert_eq!(app.selected_app, None);
    app.refresh_steam(None, Vec::new(), Ok(Vec::new()));
    assert_eq!(app.line.text, "Steam was not found. Select its folder in Settings.");
    app.refresh_steam(None, Vec::new(), Err("denied".to_owned()));
    assert_eq!(app.line.text, "Steam library could not be read: denied");
}

#[test]
fn old_update_blocks_are_lifted() {
    let mut app = shell();
    app.release_old_update_blocks(&Vec::new(), 3);
    assert_eq!(
        app.line.text,
        "Steam can update 3 game(s) again: the update block older Drydock versions set was lifted."
    );
    app.release_old_update_blocks(&vec![(10, "locked".to_owned())], 3);
    assert_eq!(
        app.line.text,
        "The old Steam update block of 1 game(s) could not be lifted (App 10: locked). Drydock tries again at the next start."
    );
}

#[test]
fn the_depot_manifests_are_looked_after() {
    let mut app = shell();
    assert_eq!(app.guard_depot_manifests(false, 0, SECOND), None);
    added(&mut app, 20, Some(UnlockSource::Own));
    added(&mut app, 10, None);
    assert_eq!(app.guard_depot_manifests(false, 1, SECOND), None);
    assert_eq!(app.guard_depot_manifests(true, 2, SECOND), Some(vec![(10, true), (20, false)]));
    assert_eq!(app.guard_depot_manifests(false, 9 * SECOND, SECOND), None);
    app.poll_manifest_guard(Reply::Done((4, 2, Some(10))));
    assert_eq!(
        app.line.text,
        "Steam had dropped 4 depot manifest(s) for 2 game(s) — restored from Drydock's copy."
    );
    assert!(app.steam.manifest_fetch_attempted.contains(&10));
    assert!(!app.steam_jobs.manifest_guard);
}

#[test]
fn steam_is_restarted_in_the_background() {
    let mut app = shell();
    assert_eq!(app.restart_steam_in_background(), Some("C:\\Steam".to_owned()));
    assert_eq!(app.line.busy, Some("Restarting Steam…".to_owned()));
    assert_eq!(app.restart_steam_in_background(), None);
    app.poll_background_action(Reply::Done(Ok("Steam restarted".to_owned())));
    assert_eq!((app.line.text.as_str(), app.line.busy.clone()), ("Steam restarted", None));
    app.restart_steam_in_background();
    app.poll_background_action(Reply::Lost);
    assert_eq!(app.line.text, "The background action ended unexpectedly");
}

#[test]
fn a_fix_needs_an_installed_game() {
    let mut app = shell();
    app.start_fixes_refresh();
    app.poll_fixes_refresh(Reply::Done(Ok(vec![
        FixEntry { app_id: 10, denuvo: true },
        FixEntry { app_id: 30, denuvo: true },
    ])));
    assert!(app.apply_denuvo_fix_for(30).is_none());
    assert_eq!(app.line.text, "Install the game through Steam before applying its fix.");
    let (root, folder) = app.apply_denuvo_fix_for(10).unwrap();
    assert_eq!(root, "C:\\Steam");
    assert!(folder.ends_with("Alpha"));
    assert_eq!(app.pending_fix_block, Some(10));
    assert!(app.apply_denuvo_fix_for(10).is_none());
    assert_eq!(fix_applied_note(3), "Denuvo fix applied — verified unlock installed, 3 game files replaced.");
}

#[test]
fn the_service_is_installed_and_removed() {
    let mut app = shell();
    assert!(app.install_steam_service().is_some());
    assert_eq!(app.line.busy, Some("Installing the Steam Service…".to_owned()));
    assert!(app.uninstall_steam_service().is_none());
    app.poll_service_action(Reply::Done(Ok(ServiceOutcome::Status {
        status: SteamServiceStatus {
            state: SteamServiceState::Current,
            message: String::new(),
            action_text: String::new(),
        },
        note: "Steam Service installed. Steam started.".to_owned(),
    })));
    assert_eq!(app.line.text, "Steam Service installed. Steam started.");
    assert!(app.install_steam_service().is_some());
    assert_eq!(app.line.busy, Some("Reinstalling the Steam Service…".to_owned()));
    app.poll_service_action(Reply::Done(Err("denied".to_owned())));
    assert_eq!((app.line.text.as_str(), app.line.error), ("denied", true));
    assert!(app.uninstall_steam_service().is_some());
    app.poll_service_action(Reply::Lost);
    assert_eq!(app.line.text, "The Steam Service action ended unexpectedly");
    app.steam.root = None;
    assert!(app.install_steam_service().is_none());
    assert_eq!(app.line.text, "Steam was not found. Select its folder in Settings.");
    assert_eq!(service_installed_note(&Ok(())), "Steam Service installed. Steam started.");
    assert!(service_installed_note(&Err("x".to_owned())).ends_with("restarted: x"));
    assert_eq!(service_removed_note(&Ok(())), "Steam Service removed. Steam started.");
    assert!(service_allows_adding(SteamServiceState::Current).is_ok());
    assert!(service_allows_adding(SteamServiceState::NotInstalled).is_err());
}

#[test]
fn an_app_is_added_and_recorded() {
    let mut app = shell();
    let order = app.add_app_to_steam(10, 0).unwrap();
    assert_eq!((order.root.as_str(), order.name.as_str()), ("C:\\Steam", "Alpha"));
    assert!(app.unlock_writes.touched_apps().contains(&10));
    let next = app.poll_service_action(Reply::Done(Ok(ServiceOutcome::Added {
        app_id: 10,
        files: names(&["extra.lua", "10.lua", "extra.lua"]),
        note: "added".to_owned(),
        source: UnlockSource::Latest,
    })));
    assert!(matches!(next, ServiceFollowUp::Save { .. }));
    assert_eq!(app.settings.added_apps[&10].files, ["10.lua", "extra.lua"]);
    assert_eq!(app.settings.added_apps[&10].source, Some(UnlockSource::Latest));
    app.service_saved("added".to_owned(), &Ok(()));
    assert_eq!(app.line.text, "added");
    assert!(app.add_app_to_steam(20, 30 * SECOND).is_none());
    assert_eq!(app.line.text, "Too many requests. Please wait 30s before adding another app.");
    assert!(app.add_app_to_steam(20, 60 * SECOND).is_some());
}

#[test]
fn a_removed_app_is_forgotten() {
    let mut app = shell();
    app.settings.added_apps.insert(
        10,
        AddedAppState { files: names(&["custom.lua"]), source: None },
    );
    app.steam.plugin_luas.insert(10);
    let order = app.remove_app_from_steam(10).unwrap();
    assert_eq!(order.files, ["custom.lua", "10.lua"]);
    let next = app.poll_service_action(Reply::Done(Ok(ServiceOutcome::Removed {
        app_id: 10,
        note: removed_note("Alpha"),
    })));
    assert!(matches!(next, ServiceFollowUp::SaveAndForget { app_id: 10, .. }));
    assert!(!app.settings.added_apps.contains_key(&10));
    assert_eq!(removal_names(names(&["10.LUA"]), true, 10), ["10.LUA"]);
    assert_eq!(removal_names(Vec::new(), false, 10), ["10.lua"]);
}

#[test]
fn the_build_locked_version_needs_a_fix() {
    let mut app = shell();
    assert!(app.add_cracked_to_steam(10, 0).is_none());
    assert_eq!(app.line.text, "No cracked (Denuvo) version is available for this game.");
    app.start_fixes_refresh();
    app.poll_fixes_refresh(Reply::Done(Ok(vec![FixEntry { app_id: 10, denuvo: true }])));
    assert!(app.add_cracked_to_steam(10, 0).is_some());
    assert_eq!(
        build_locked_note("Alpha", &Ok((2, " Kept.".to_owned()))),
        "Cracked version of \"Alpha\" added to Steam with 2 depot manifest(s). Apply the Denuvo fix, then restart Steam. Kept."
    );
    assert_eq!(
        build_locked_note("Alpha", &Err("down".to_owned())),
        "Cracked version of \"Alpha\" added to Steam. Apply the Denuvo fix, then restart Steam."
    );
}

#[test]
fn own_files_are_added() {
    let mut app = shell();
    assert!(app.may_add_own_unlock());
    assert!(app.add_own_unlock(None).is_none());
    assert!(app.add_own_unlock(Some(Err("no Lua".to_owned()))).is_none());
    assert_eq!((app.line.text.as_str(), app.line.error), ("no Lua", true));
    let order = app.add_own_unlock(Some(Ok(30))).unwrap();
    assert_eq!(order.name, "Gamma");
    assert_eq!(app.line.busy, Some("Adding your files for Gamma to Steam…".to_owned()));
    assert!(!app.may_add_own_unlock());
}

#[test]
fn a_package_without_a_lua_falls_back() {
    let plan = unlock_plan(10, Ok(Some("pinned.lua".to_owned())));
    assert!(plan.from_package && plan.file_name == "pinned.lua");
    let plan = unlock_plan(10, Ok(None));
    assert_eq!(plan.file_name, "10.lua");
    assert_eq!(plan.no_manifests, Some("the depot package carried no unlock Lua".to_owned()));
    assert_eq!(unlock_plan(10, Err("down".to_owned())).no_manifests, Some("down".to_owned()));
}

#[test]
fn an_app_counts_as_added_by_lua_or_record() {
    let mut app = shell();
    assert!(!app.is_app_added(10));
    app.refresh_plugin_luas([10].into_iter().collect::<BTreeSet<u32>>());
    assert!(app.is_app_added(10));
    app.steam.root = None;
    app.refresh_plugin_luas([10].into_iter().collect::<BTreeSet<u32>>());
    assert!(!app.is_app_added(10));
    added(&mut app, 10, None);
    assert!(app.is_app_added(10));
}
