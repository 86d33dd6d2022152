use drydock_desktop::details::{
    requirement_column, steam_button_row, DepotButtons, DetailsAction, DetailsState, DetailsView,
    FixPanelState, FixStatus, RepackPanelState,
};
use drydock_desktop::startup::{LoadOutcome, Start};
use drydock_desktop::state::{DrydockApp, Settings, SteamStoreDetails};
use drydock_desktop::types::{CatalogApp, SteamManifest, FixEntry, RepackApp, RepackSource, Reply};
use std::collections::BTreeMap;

fn settings() -> Settings {
    Settings {
        steam_directory: String::new(),
        games_directory: String::new(),
        added_apps: BTreeMap::new(),
        installed_games: BTreeMap::new(),
        launch_paths: BTreeMap::new(),
        download_queue: Vec::new(),
        steam_updates_enabled: BTreeMap::new(),
        auto_update_drydock: true,
        auto_update_unlocks: true,
        verify_before_activation: true,
        verify_threads: 0,
        max_download_mbps: 0,
        max_download_connections: 0,
        emu_skeleton_path: String::new(),
        proxy_base_url: String::new(),
        proxy_hmac_secret: String::new(),
        update_repository: String::new(),
    }
}

fn game(app_id: u32, name: &str) -> CatalogApp {
    CatalogApp { app_id, name: name.to_owned(), drm: false, tags: Vec::new() }
}

fn manifest(app_id: u32, name: &str) -> SteamManifest {
    SteamManifest {
        app_id,
        name: name.to_owned(),
        install_dir: format!("C:\\Steam\\steamapps\\common\\{name}"),
        size_on_disk: Some(2048),
    }
}

/// A shell with a Steam folder, two installed games and a catalog of three.
fn shell() -> DrydockApp {
    DrydockApp::new(Start {
        settings: settings(),
        outcome: LoadOutcome::Loaded,
        no_paths: None,
        root: Some("C:\\Steam".to_owned()),
        manifests: Ok(vec![manifest(10, "Alpha"), manifest(20, "Beta")]),
        conflicts: Vec::new(),
        cached: Some(vec![game(10, "Alpha"), game(20, "Beta"), game(30, "Gamma")]),
        embedded: None,
        running: false,
    })
}

fn details(app_id: u32) -> SteamStoreDetails {
    SteamStoreDetails {
        app_id,
        name: "Alpha".to_owned(),
        header_image_url: String::new(),
        short_description: "Short".to_owned(),
        about_the_game: String::new(),
        reviews: "Very Positive".to_owned(),
        release_date: " ".to_owned(),
        developers: vec!["A".to_owned(), "B".to_owned()],
        publishers: Vec::new(),
        genres: vec!["RPG".to_owned()],
        platforms: vec!["Windows".to_owned()],
        metacritic_score: Some(87),
        drm_notice: " Denuvo ".to_owned(),
        uses_denuvo: true,
        screenshots: Vec::new(),
        minimum_requirements: String::new(),
        recommended_requirements: String::new(),
        stale_cache: false,
    }
}

#[test]
fn adding_needs_the_service() {
    let state = DetailsState { is_added: false, service_current: false, busy: false };
    let buttons = steam_button_row(state, None, None, false);
    assert_eq!(buttons.len(), 1);
    assert_eq!(buttons[0].label, "INSTALL STEAM SERVICE");
    let state = DetailsState { service_current: true, ..state };
    let fix = FixPanelState { busy: false, installed: false, denuvo: Some(FixStatus::NotApplied) };
    let buttons = steam_button_row(state, Some(fix), None, true);
    let labels: Vec<&str> = buttons.iter().map(|button| button.label.as_str()).collect();
    assert_eq!(
        labels,
        [
            "ADD LATEST VERSION TO STEAM",
            "ADD CRACKED VERSION TO STEAM",
            "APPLY DENUVO FIX",
            "ACTIVATE"
        ]
    );
    assert!(!buttons[2].enabled);
    assert_eq!(buttons[2].hint, "Install the game through Steam first.");
    let state = DetailsState { is_added: true, busy: true, ..state };
    let fix = FixPanelState { busy: false, installed: true, denuvo: Some(FixStatus::Applied) };
    let repack = RepackPanelState { repackers: vec!["X".to_owned(), "Y".to_owned()] };
    let buttons = steam_button_row(state, Some(fix), Some(&repack), false);
    assert_eq!(buttons[0].label, "UPDATE");
    assert!(!buttons[0].enabled);
    assert_eq!(buttons[2].label, "RE-APPLY DENUVO FIX");
    assert_eq!(buttons[4].label, "DOWNLOAD REPACK (Y)");
    assert_eq!(buttons[4].action, DetailsAction::Download(1));
}

#[test]
fn the_depot_buttons_follow_the_job() {
    let depot = DepotButtons { downloadable: true, installed: false, busy: false };
    assert_eq!(depot.download_button().0, "DOWNLOAD IN DRYDOCK");
    assert_eq!(depot.verify_button(), None);
    let depot = DepotButtons { installed: true, ..depot };
    assert_eq!(depot.download_button().0, "DOWNLOAD / REPAIR");
    assert_eq!(depot.verify_button(), Some(true));
    let depot = DepotButtons { busy: true, ..depot };
    assert_eq!(depot.download_button().0, "ADD TO QUEUE");
    assert_eq!(depot.verify_button(), Some(false));
}

#[test]
fn facts_that_are_missing_say_so() {
    let store = details(10);
    let facts = store.details_store_sidebar(true);
    let values: Vec<&str> = facts.iter().map(|fact| fact.value.as_str()).collect();
    assert_eq!(
        values,
        ["Very Positive", "Not available", "A, B", "Not available", "Denuvo — activation required"]
    );
    let facts = store.details_features(false);
    assert_eq!(facts[1].value, "87 / 100");
    assert_eq!(facts[2].value, "None — no activation needed");
    assert_eq!(requirement_column("").0, "Not specified");
    assert_eq!(store.shown_genres(), ["RPG"]);
    assert!(!store.details_about().0.is_empty());
}

#[test]
fn the_gallery_goes_round() {
    let mut app = shell();
    app.open_details(10);
    assert_eq!(app.details.screenshot_gallery(3).0, 0);
    app.details.previous_picture(3);
    assert_eq!(app.details.screenshot_index, 2);
    app.details.next_picture(3);
    assert_eq!(app.details.screenshot_index, 0);
}

#[test]
fn the_details_page_fills() {
    let mut app = shell();
    app.open_details(10);
    assert!(matches!(app.details_page(), DetailsView::Loading { .. }));
    app.poll_store_details(Reply::Done((10, Ok(details(10)))));
    assert!(matches!(app.details_page(), DetailsView::Loaded));
    assert!(app.activation_required(&details(10)));
    assert!(!app.details_heading().is_empty());
    let depot = app.depot_buttons(&details(10));
    assert!(depot.installed && !depot.busy);
    app.open_details(20);
    app.poll_store_details(Reply::Done((20, Err("offline".to_owned()))));
    app.catalog.denuvo_loaded = true;
    app.catalog.denuvo_appids.insert(20);
    match app.details_page() {
        DetailsView::Unavailable { lines, activation_required, .. } => {
            assert_eq!(lines[0], "APP 20");
            assert!(activation_required);
        }
        _ => panic!("the store had no answer"),
    }
    assert_eq!(app.line.text, "Store details could not be loaded: offline");
    app.open_details(20);
    app.poll_store_details(Reply::Lost);
    assert_eq!(app.line.text, "The store request ended unexpectedly");
}

#[test]
fn a_late_answer_for_another_app_is_dropped() {
    let mut app = shell();
    app.open_details(10);
    app.open_details(20);
    app.poll_store_details(Reply::Done((10, Ok(details(10)))));
    assert!(app.details.store_details.is_none());
}

#[test]
fn the_panels_follow_the_lists() {
    let mut app = shell();
    assert!(app.details_fix_panel(10, FixStatus::NotApplied).is_none());
    assert!(app.details_repack_panel(Some(10)).is_none());
    app.start_fixes_refresh();
    app.poll_fixes_refresh(Reply::Done(Ok(vec![FixEntry { app_id: 10, denuvo: true }])));
    let panel = app.details_fix_panel(10, FixStatus::Applied).unwrap();
    assert!(panel.installed && !panel.busy);
    assert_eq!(panel.denuvo, Some(FixStatus::Applied));
    app.start_repacks_refresh();
    app.poll_repacks_refresh(Reply::Done(Ok(vec![RepackApp {
        app_id: 10,
        sources: vec![RepackSource { repacker: "X".to_owned(), link: "https://x".to_owned() }],
    }])));
    assert_eq!(app.details_repack_panel(Some(10)).unwrap().repackers, ["X"]);
    assert_eq!(
        app.open_repack_source(10, 0),
        Some(("X".to_owned(), "https://x".to_owned()))
    );
    assert_eq!(app.open_repack_source(10, 1), None);
    app.repack_opened("X", Err("no browser".to_owned()));
    assert!(app.line.error);
    assert!(!app.details_state().service_current);
    assert_eq!(app.catalog.place_of(30), Some(2));
    assert_eq!(app.catalog.place_of(99), None);
}
