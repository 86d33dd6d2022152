use drydock_desktop::downloads::QueueEffect;
use drydock_desktop::library::{count_entries, passes_lowered, LibrarySource};
use drydock_desktop::library_actions::{
    add_game_verdict, download_install_outcome, download_install_root, executables_to_find,
    AddGameOutcome, GameFolder, InstallRoot, LaunchTarget,
};
use drydock_desktop::library_page::{genre_tags, LibraryAction, LibraryBody};
use drydock_desktop::startup::{LoadOutcome, Start};
use drydock_desktop::state::{DrydockApp, Settings, AddedAppState, InstalledGame, LibraryFilter, QueuedDownload};
use drydock_desktop::types::{CatalogApp, SteamManifest, Reply, Tone};
use std::collections::{BTreeMap, HashSet};

fn settings() -> Settings {
    Settings {
        steam_directory: String::new(),
        games_directory: String::new(),
        added_apps: BTreeMap::new(),
        installed_games: BTreeMap::new(),
        launch_paths: BTreeMap::new(),
        download_queue: Vec::new(),
        steam_updates_enabled: BTreeMap::new(),
        auto_update_drydock: true,
        auto_update_unlocks: true,
        verify_before_activation: true,
        verify_threads: 0,
        max_download_mbps: 0,
        max_download_connections: 0,
        emu_skeleton_path: String::new(),
        proxy_base_url: String::new(),
        proxy_hmac_secret: String::new(),
        update_repository: String::new(),
    }
}

fn game(app_id: u32, name: &str) -> CatalogApp {
    CatalogApp { app_id, name: name.to_owned(), drm: false, tags: Vec::new() }
}

fn manifest(app_id: u32, name: &str) -> SteamManifest {
    SteamManifest {
        app_id,
        name: name.to_owned(),
        install_dir: format!("C:\\Steam\\steamapps\\common\\{name}"),
        size_on_disk: Some(2048),
    }
}

/// A shell with a Steam folder, two installed games and a catalog of three.
fn shell() -> DrydockApp {
    DrydockApp::new(Start {
        settings: settings(),
        outcome: LoadOutcome::Loaded,
        no_paths: None,
        root: Some("C:\\Steam".to_owned()),
        manifests: Ok(vec![manifest(10, "Alpha"), manifest(20, "Beta")]),
        conflicts: Vec::new(),
        cached: Some(vec![game(10, "Alpha"), game(20, "Beta"), game(30, "Gamma")]),
        embedded: None,
        running: false,
    })
}

fn installed(app: &mut DrydockApp, app_id: u32, name: &str) {
    app.settings.installed_games.insert(
        app_id,
        InstalledGame { name: name.to_owned(), install_dir: format!("D:\\Games\\{app_id}") },
    );
}

fn names(app: &DrydockApp, present: &HashSet<u32>) -> Vec<String> {
    app.library_entries(present).iter().map(|entry| entry.name.clone()).collect()
}

fn outcome(app_id: u32) -> AddGameOutcome {
    AddGameOutcome {
        app_id,
        name: "Found".to_owned(),
        root: "D:\\Found".to_owned(),
        exe: "D:\\Found\\game.exe".to_owned(),
    }
}

#[test]
fn the_library_lists_each_game_once_by_name() {
    let mut app = shell();
    let present = HashSet::new();
    assert_eq!(names(&app, &present), ["Alpha", "Beta"]);
    installed(&mut app, 10, "Never shown");
    installed(&mut app, 40, "aardvark");
    app.steam.plugin_luas = [10, 30].into_iter().collect();
    app.settings.added_apps.insert(77, AddedAppState { files: Vec::new(), source: None });
    assert_eq!(names(&app, &present), ["aardvark", "Alpha", "App 77", "Beta", "Gamma"]);
    let entries = app.library_entries(&present);
    assert_eq!(entries[0].source, LibrarySource::DrydockInstalled);
    assert_eq!(entries[0].install_dir, None);
    assert_eq!(entries[4].source, LibrarySource::Available);
    assert!(!entries[4].installed);
    let present: HashSet<u32> = [40].into_iter().collect();
    assert_eq!(app.library_entries(&present)[0].install_dir, Some("D:\\Games\\40".to_owned()));
}

#[test]
fn the_page_filters_and_searches() {
    let mut app = shell();
    app.steam.plugin_luas = [30].into_iter().collect();
    let present = HashSet::new();
    let view = app.library_page(&present).unwrap();
    assert_eq!(view.body, LibraryBody::Posters);
    assert_eq!(view.shown, [0, 1, 2]);
    assert_eq!((view.counts.installed, view.counts.available, view.counts.total), (2, 1, 3));
    assert_eq!(view.counts.filter_label(LibraryFilter::Available), "Available (1)");
    assert_eq!(view.counts.pills()[0].0, "2 INSTALLED");
    app.library.filter = LibraryFilter::Available;
    assert_eq!(app.library_page(&present).unwrap().shown, [2]);
    app.library.filter = LibraryFilter::Installed;
    app.library.search = " ALP ".to_owned();
    assert_eq!(app.library_page(&present).unwrap().shown, [0]);
    app.library.search = "zzz".to_owned();
    assert_eq!(app.library_page(&present).unwrap().body, LibraryBody::NoMatch);
    app.library.clear_filters();
    assert_eq!(app.library_page(&present).unwrap().shown.len(), 3);
    app.steam.manifests.clear();
    app.steam.plugin_luas.clear();
    assert_eq!(app.library_page(&present).unwrap().body, LibraryBody::Empty);
    app.begin_add_game("D:\\New".to_owned());
    assert!(app.library_page(&present).is_none());
    assert_eq!(app.render_add_game_panel().unwrap().folder, "D:\\New");
    app.cancel_add_game();
    assert!(app.render_add_game_panel().is_none());
}

#[test]
fn a_window_of_a_game_that_is_gone_is_closed() {
    let mut app = shell();
    let entries = app.library_entries(&HashSet::new());
    app.library.open_game(20);
    assert_eq!(app.library.open_entry(&entries), Some(1));
    app.library.open_game(99);
    assert_eq!(app.library.open_entry(&entries), None);
    assert_eq!(app.library.modal, None);
    assert_eq!(count_entries(&entries).total, 2);
}

#[test]
fn only_launchable_games_offer_play() {
    let mut app = shell();
    installed(&mut app, 40, "Own");
    app.steam.plugin_luas = [30].into_iter().collect();
    let labels = |app: &DrydockApp, at: usize| -> Vec<&'static str> {
        app.library_entries(&HashSet::new())[at]
            .library_overview()
            .iter()
            .map(|button| button.label)
            .collect()
    };
    assert!(labels(&app, 0).contains(&"PLAY"));
    assert_eq!(labels(&app, 2)[..2], ["INSTALL", "UPDATE LUA"]);
    assert!(!labels(&app, 3).contains(&"PLAY"));
    assert!(labels(&app, 3).contains(&"SET .EXE"));
    app.set_library_launch_path(40, "D:\\Games\\40\\own.exe".to_owned());
    assert!(labels(&app, 3).contains(&"PLAY"));
    let entries = app.library_entries(&HashSet::new());
    assert_eq!(entries[3].library_overview()[0].action, LibraryAction::Launch(40));
    assert_eq!(entries[3].overview_status().0, "Installed via Drydock · Ready");
    assert_eq!(entries[0].poster_status(), (Tone::Verdigris, "INSTALLED"));
    assert_eq!(entries[0].poster_hint(), ("● INSTALLED".to_owned(), Some("Size: 2.0 KB".to_owned())));
    assert!(entries[0].poster_artwork()[0].ends_with("library_600x900.jpg"));
    assert!(entries[0].banner_artwork()[0].ends_with("library_hero.jpg"));
    assert!(entries[0].info().iter().any(|row| row.value == "2.0 KB"));
}

#[test]
fn a_game_is_launched_by_its_executable() {
    let mut app = shell();
    assert!(matches!(app.launch_library_game(10), LaunchTarget::Steam));
    app.set_library_launch_path(10, "C:\\a.exe".to_owned());
    app.launch_path_saved(&Ok(()));
    assert_eq!(app.line.text, "Launch path saved");
    assert!(matches!(app.launch_library_game(10), LaunchTarget::Executable(path) if path == "C:\\a.exe"));
    app.game_launched(false, Err("denied".to_owned()));
    assert_eq!(app.line.text, "The game could not be launched: denied");
    app.game_launched(true, Ok(()));
    assert_eq!(app.line.text, "Asking Steam to launch the game");
    app.launch_path_saved(&Err("full".to_owned()));
    assert_eq!(app.line.text, "The launch path could not be saved");
}

#[test]
fn stored_files_are_put_back_before_an_install() {
    let mut app = shell();
    app.install_steam_game(&Ok((true, 2)), Ok(()));
    assert_eq!(
        app.line.text,
        "Restored the unlock and 2 depot manifest(s). Asking Steam to install the game"
    );
    app.install_steam_game(&Ok((false, 0)), Err("no Steam".to_owned()));
    assert_eq!((app.line.text.as_str(), app.line.error), ("no Steam", true));
    app.install_steam_game(&Err("locked".to_owned()), Ok(()));
    assert!(app.line.error);
    app.uninstall_steam_game(Ok(()));
    assert_eq!(app.line.text, "Asking Steam to uninstall the game");
    assert!(app.remove_lua_question(10).contains("\"Alpha\""));
}

#[test]
fn an_uninstalled_game_is_forgotten() {
    let mut app = shell();
    assert!(app.uninstall_drydock_game(40).is_none());
    installed(&mut app, 40, "Own");
    app.set_library_launch_path(40, "x.exe".to_owned());
    app.settings.download_queue = vec![
        QueuedDownload { app_id: 40, name: "Own".to_owned() },
        QueuedDownload { app_id: 10, name: "Alpha".to_owned() },
    ];
    let order = app.uninstall_drydock_game(40).unwrap();
    assert_eq!(order.install_dir, "D:\\Games\\40");
    assert!(order.question.starts_with("Delete \"Own\""));
    assert!(!app.game_folder_deleted(40, Err("locked".to_owned())));
    assert_eq!(app.line.text, "Could not delete the game folder: locked");
    assert!(app.settings.installed_games.contains_key(&40));
    assert!(app.game_folder_deleted(40, Ok(())));
    assert!(!app.settings.installed_games.contains_key(&40));
    assert!(app.settings.launch_paths.contains_key(&40));
    assert_eq!(app.settings.download_queue.len(), 1);
    app.uninstall_saved("Own", &Ok(()));
    assert_eq!(app.line.text, "\"Own\" was uninstalled");
    app.uninstall_saved("Own", &Err("full".to_owned()));
    assert_eq!(app.line.text, "\"Own\" was deleted, but the change could not be saved");
}

#[test]
fn a_found_game_can_be_launched() {
    let mut app = shell();
    app.begin_add_game("D:\\Found".to_owned());
    assert_eq!(app.start_add_game_detect(30), Some("Gamma".to_owned()));
    assert_eq!(app.line.busy, Some("Detecting Gamma…".to_owned()));
    assert!(app.start_add_game_detect(30).is_none());
    assert_eq!(app.poll_add_game(Reply::Done(Ok(outcome(30)))), Some("Found".to_owned()));
    assert_eq!(app.library.selected, Some(30));
    assert!(matches!(app.launch_library_game(30), LaunchTarget::Executable(_)));
    app.add_game_saved("Found", &Ok(()));
    assert_eq!(app.line.text, "\"Found\" was added to your Drydock library");
    app.start_add_game_detect(30);
    assert_eq!(app.poll_add_game(Reply::Done(Err("wrong folder".to_owned()))), None);
    assert_eq!(app.line.text, "wrong folder");
}

#[test]
fn a_finished_download_is_registered_quietly() {
    let mut app = shell();
    assert!(app.start_download_install_detect());
    assert!(!app.start_download_install_detect());
    assert!(!app.poll_download_install(Reply::Waiting));
    let mut found = outcome(30);
    found.exe = String::new();
    assert!(app.poll_download_install(Reply::Done(Ok(found))));
    assert!(app.settings.installed_games.contains_key(&30));
    assert!(!app.settings.launch_paths.contains_key(&30));
    assert_eq!(app.line.text, "Ready");
    app.start_download_install_detect();
    assert!(!app.poll_download_install(Reply::Done(Err("offline".to_owned()))));
}

#[test]
fn a_folder_is_told_apart_as_a_game() {
    assert!(executables_to_find(false, Ok(vec!["a.exe".to_owned()])).is_err());
    assert!(executables_to_find(true, Ok(Vec::new())).is_err());
    assert_eq!(executables_to_find(true, Ok(vec!["a.exe".to_owned()])), Ok(vec!["a.exe".to_owned()]));
    assert!(add_game_verdict(1, "A".to_owned(), None, None).is_err());
    assert!(add_game_verdict(1, "A".to_owned(), Some("D:".to_owned()), None).is_err());
    let found = add_game_verdict(1, "A".to_owned(), Some("D:".to_owned()), Some("x".to_owned()));
    assert_eq!(found.ok().map(|found| found.exe), Some("x".to_owned()));
}

#[test]
fn a_download_lies_where_steam_says() {
    let folder = |text: &str| Some(text.to_owned());
    assert!(matches!(
        download_install_root(folder("C:\\A"), None, Ok(None)),
        Ok(InstallRoot::Folder(path)) if path == "C:\\A"
    ));
    assert!(matches!(
        download_install_root(None, folder("C:\\Steam"), Ok(folder("Alpha"))),
        Ok(InstallRoot::InCommon { .. })
    ));
    assert_eq!(
        download_install_root(None, None, Ok(folder("Alpha"))).err(),
        Some("Steam folder not found.".to_owned())
    );
    assert_eq!(
        download_install_root(None, folder("C:\\Steam"), Ok(None)).err(),
        Some("Steam did not report an install folder for this game.".to_owned())
    );
    let outcome = |listed: Result<Vec<String>, String>| {
        download_install_outcome(1, "A".to_owned(), "C:\\A".to_owned(), &listed, None, None)
    };
    let found = outcome(Ok(Vec::new())).ok().unwrap();
    assert_eq!((found.root.as_str(), found.exe.as_str()), ("C:\\A", ""));
    assert_eq!(outcome(Err("offline".to_owned())).err(), Some("offline".to_owned()));
}

#[test]
fn a_missing_crack_is_pointed_out_once() {
    let mut app = shell();
    assert!(app.folder_to_look_in(10).is_none());
    installed(&mut app, 40, "Own");
    assert!(matches!(app.folder_to_look_in(40), Some(GameFolder::Folder(_))));
    app.set_library_launch_path(40, "D:\\x.exe".to_owned());
    assert!(matches!(app.folder_to_look_in(40), Some(GameFolder::Beside(_, _))));
    assert!(app.confirm_uncracked_launch(999).is_none());
    let question = app.confirm_uncracked_launch(40).unwrap();
    assert!(question.starts_with("\"Own\" has no crack in its folder"));
    assert!(app.folder_to_look_in(40).is_none());
}

#[test]
fn an_update_is_queued() {
    let mut app = shell();
    app.settings.download_queue = vec![QueuedDownload { app_id: 10, name: "Alpha".to_owned() }];
    assert!(app.update_drydock_game(10, QueueEffect::StartFront, Ok(())).is_some());
    assert_eq!(app.line.text, "Checking Alpha for updates…");
    app.folder_not_opened("gone");
    assert_eq!(app.line.text, "Could not open folder: gone");
}

#[test]
fn five_tags_are_shown() {
    let mut tagged = game(1, "A");
    tagged.tags = (0..7).map(|i| format!("T{i}")).collect();
    assert_eq!(genre_tags(&vec![game(2, "B"), tagged], 1), ["T0", "T1", "T2", "T3", "T4"]);
    assert!(genre_tags(&vec![game(2, "B")], 2).is_empty());
}

#[test]
fn a_filter_and_a_search_both_have_to_pass() {
    assert!(passes_lowered(LibraryFilter::All, false, "alpha", ""));
    assert!(passes_lowered(LibraryFilter::Installed, true, "alpha", "ph"));
    assert!(!passes_lowered(LibraryFilter::Installed, false, "alpha", "ph"));
    assert!(passes_lowered(LibraryFilter::Available, false, "alpha", "alpha"));
    assert!(!passes_lowered(LibraryFilter::Available, true, "alpha", ""));
    assert!(!passes_lowered(LibraryFilter::All, true, "alpha", "beta"));
}
