use drydock_desktop::home::{
    grid_rating, pager_pill, pager_window, picture_is_usable, poster_rating, rank_label,
    FeedStatus, GameList, PagerPill, PosterRow, SearchKeys, SeeAll, Shelf, StoreColumn,
};
use drydock_desktop::timing::HERO_INTERVAL;
use drydock_desktop::startup::{LoadOutcome, Start};
use drydock_desktop::state::{DrydockApp, Settings};
use drydock_desktop::types::{CatalogApp, SteamManifest, FixFilter, Page, RepackApp, RepackFilter, RepackSource, Reply, SeeAllSection, StoreAction, StoreCapsule, StoreFeatured};
use std::collections::BTreeMap;

fn settings() -> Settings {
    Settings {
        steam_directory: String::new(),
        games_directory: String::new(),
        added_apps: BTreeMap::new(),
        installed_games: BTreeMap::new(),
        launch_paths: BTreeMap::new(),
        download_queue: Vec::new(),
        steam_updates_enabled: BTreeMap::new(),
        auto_update_drydock: true,
        auto_update_unlocks: true,
        verify_before_activation: true,
        verify_threads: 0,
        max_download_mbps: 0,
        max_download_connections: 0,
        emu_skeleton_path: String::new(),
        proxy_base_url: String::new(),
        proxy_hmac_secret: String::new(),
        update_repository: String::new(),
    }
}

fn game(app_id: u32, name: &str) -> CatalogApp {
    CatalogApp { app_id, name: name.to_owned(), drm: false, tags: Vec::new() }
}

fn manifest(app_id: u32, name: &str) -> SteamManifest {
    SteamManifest {
        app_id,
        name: name.to_owned(),
        install_dir: format!("C:\\Steam\\steamapps\\common\\{name}"),
        size_on_disk: Some(2048),
    }
}

/// A shell with a Steam folder, two installed games and a catalog of three.
fn shell() -> DrydockApp {
    DrydockApp::new(Start {
        settings: settings(),
        outcome: LoadOutcome::Loaded,
        no_paths: None,
        root: Some("C:\\Steam".to_owned()),
        manifests: Ok(vec![manifest(10, "Alpha"), manifest(20, "Beta")]),
        conflicts: Vec::new(),
        cached: Some(vec![game(10, "Alpha"), game(20, "Beta"), game(30, "Gamma")]),
        embedded: None,
        running: false,
    })
}

fn capsule(app_id: u32, name: &str) -> StoreCapsule {
    StoreCapsule {
        app_id,
        name: name.to_owned(),
        header_image_url: String::new(),
        discount_percent: 0,
        price: "9,99€".to_owned(),
    }
}

fn fed() -> DrydockApp {
    let mut app = shell();
    app.store.featured = Some(StoreFeatured {
        top_sellers: vec![capsule(99, "Elsewhere"), capsule(20, "Beta"), capsule(10, "Alpha")],
        new_releases: vec![capsule(30, "Gamma")],
    });
    app
}

#[test]
fn the_front_page_waits_for_the_feed() {
    let mut app = shell();
    assert!(matches!(app.home_store_column(0), StoreColumn::Waiting(FeedStatus::Silent)));
    app.start_featured();
    assert!(matches!(app.store.store_feed_status(), FeedStatus::Loading));
    app.poll_featured(Reply::Done(Err("offline".to_owned())));
    match app.store.store_feed_status() {
        FeedStatus::Unavailable(text) => {
            assert_eq!(text, "Steam storefront is unavailable: offline");
        }
        _ => panic!("the feed could not be had"),
    }
}

#[test]
fn only_games_of_the_catalog_are_offered() {
    let mut app = fed();
    match app.home_store_column(0) {
        StoreColumn::Games { available, .. } => assert_eq!(available, [1, 2]),
        _ => panic!("there are games"),
    }
    assert_eq!(app.new_releases(), [0]);
    app.catalog.apps.clear();
    assert!(matches!(app.home_store_column(0), StoreColumn::Note("Loading the game list…")));
    assert!(matches!(app.store_shelf(&Vec::new()), Shelf::Note(_)));
    assert!(matches!(fed().store_shelf(&vec![capsule(99, "X")]), Shelf::Note(_)));
    assert!(matches!(fed().store_shelf(&vec![capsule(10, "X")]), Shelf::Rows(rows) if rows == [0]));
}

#[test]
fn the_hero_moves_on() {
    let mut app = fed();
    app.store.show_hero(0, 0);
    assert_eq!(app.store.advance_hero(3, HERO_INTERVAL - 1), 0);
    assert_eq!(app.store.advance_hero(3, HERO_INTERVAL), 1);
    app.store.show_next_hero(3, 0);
    app.store.show_next_hero(3, 0);
    assert_eq!(app.store.hero_carousel_index, 0);
    app.store.show_previous_hero(3, 0);
    assert_eq!(app.store.hero_carousel_index, 2);
    app.store.show_next_hero(3, 0);
    assert_eq!(app.store.hero_carousel_index, 0);
    assert_eq!(rank_label(0), "#1 TOP SELLER");
}

#[test]
fn the_pager_follows_the_hero() {
    assert_eq!(pager_window(5, 4), (0, 5));
    assert_eq!(pager_window(20, 2), (0, 9));
    assert_eq!(pager_window(20, 10), (6, 15));
    assert_eq!(pager_window(20, 19), (11, 20));
    assert_eq!(pager_pill(20, 10, 10), PagerPill::Current);
    assert_eq!(pager_pill(20, 10, 6), PagerPill::Edge);
    assert_eq!(pager_pill(5, 0, 4), PagerPill::Plain);
}

#[test]
fn the_search_bar_heeds_its_keys() {
    let mut app = shell();
    let none = SearchKeys { shortcut: false, slash: false, escape: false };
    assert!(app.store.home_search_bar(false, SearchKeys { slash: true, ..none }).focus);
    assert!(!app.store.home_search_bar(true, SearchKeys { slash: true, ..none }).focus);
    app.store.search = "alp".to_owned();
    assert!(app.store.home_page());
    assert!(!app.store.home_search_bar(false, SearchKeys { slash: true, ..none }).focus);
    let step = app.store.home_search_bar(false, SearchKeys { escape: true, ..none });
    assert!(step.unfocus && app.store.search.is_empty());
    app.store.search = "x".to_owned();
    app.store.clear_search();
    assert!(!app.store.home_page());
}

#[test]
fn results_are_found_by_name_and_number() {
    let mut app = shell();
    app.store.search = " ALPH ".to_owned();
    assert_eq!(app.store_search_results(), ("1 result".to_owned(), vec![0]));
    app.store.search = "0".to_owned();
    assert_eq!(app.store_search_results(), ("3 results".to_owned(), vec![0, 1, 2]));
    app.store.search = "zz".to_owned();
    assert_eq!(app.store_search_results().0, "0 results");
}

#[test]
fn the_watch_list_is_ordered_by_name() {
    let mut app = shell();
    assert!(matches!(app.catalog.store_denuvo_watch(), GameList::Loading(_)));
    app.start_denuvo_refresh(false);
    app.poll_denuvo_refresh(Reply::Done(Ok(vec![30, 10, 99])));
    match app.catalog.store_denuvo_watch() {
        GameList::Games { headline, places } => {
            assert!(headline.starts_with("3 games currently ship with Denuvo"));
            assert_eq!(places, [0, 2]);
        }
        _ => panic!("the list is loaded"),
    }
    assert_eq!(app.catalog.watched_games(), [0, 2]);
    assert_eq!(app.catalog.watch_line(), "0 repacks · 3 with Denuvo");
    assert_eq!(app.catalog.needs_activation(10), Some(true));
    assert_eq!(app.catalog.needs_activation(20), Some(false));
}

#[test]
fn repacks_have_a_page_of_their_own() {
    let mut app = shell();
    assert!(matches!(app.catalog.store_repacks(), GameList::Loading(_)));
    app.start_repacks_refresh();
    app.poll_repacks_refresh(Reply::Done(Ok(vec![RepackApp {
        app_id: 20,
        sources: vec![RepackSource { repacker: "FitGirl".to_owned(), link: "https://x".to_owned() }],
    }])));
    match app.catalog.store_repacks() {
        GameList::Games { headline, places } => {
            assert_eq!(headline, "1 games have a repack download available.");
            assert_eq!(places, [1]);
        }
        _ => panic!("the list is loaded"),
    }
    assert_eq!(app.catalog.available_repackers, ["FitGirl"]);
    app.catalog.filter_repacks(RepackFilter::Repacker("FitGirl".to_owned()));
    assert!(app.catalog.filters_active());
    app.store.search = "a".to_owned();
    assert_eq!(app.store_search_results().1, [1]);
    app.catalog.clear_filters();
    app.catalog.filter_fixes(FixFilter::Denuvo);
    assert!(app.store_search_results().1.is_empty());
    assert_eq!(app.catalog.repack_for(20).unwrap().sources.len(), 1);
}

#[test]
fn the_repack_page_lists_every_entry_of_the_table() {
    let mut app = shell();
    app.start_repacks_refresh();
    app.poll_repacks_refresh(Reply::Done(Ok(Vec::new())));
    assert!(matches!(app.catalog.store_repacks(), GameList::Nothing(_)));
    app.catalog.repackers_by_app.insert(20, Vec::new());
    match app.catalog.store_repacks() {
        GameList::Games { places, .. } => assert_eq!(places, [1]),
        _ => panic!("the table has an entry"),
    }
}

#[test]
fn a_section_has_a_page_of_its_own() {
    let mut app = fed();
    app.open_see_all(SeeAllSection::NewReleases);
    assert_eq!(app.page, Page::SeeAll);
    match app.home_see_all_page() {
        SeeAll::Games { title, headline, places } => {
            assert_eq!((title, headline.as_str()), ("New Releases", "1 games available in Drydock"));
            assert_eq!(places, [0]);
        }
        _ => panic!("there are games"),
    }
    app.catalog.ids.clear();
    assert!(matches!(app.home_see_all_page(), SeeAll::Nothing(_)));
    assert!(matches!(shell().home_see_all_page(), SeeAll::Waiting(_)));
}

#[test]
fn a_capsule_offers_what_it_can() {
    let mut card = capsule(10, "Alpha");
    assert_eq!(card.discount(), None);
    card.discount_percent = 75;
    assert_eq!(card.discount(), Some("-75%".to_owned()));
    assert_eq!(card.store_banner(true), ("▶ ACTIVATE IN DRYDOCK", StoreAction::Activate(10)));
    assert_eq!(card.store_banner(false), ("VIEW IN STORE", StoreAction::Details(10)));
    assert_eq!(card.store_list_row(true).1, "ACTIVATE");
    assert!(card.poster_artwork()[0].ends_with("library_600x900.jpg"));
    assert!(card.banner_artwork()[0].ends_with("library_hero.jpg"));
    assert_eq!(card.poster_title(), "Alpha");
    assert!(picture_is_usable("https://x/y.jpg"));
    assert!(!picture_is_usable("ftp://x"));
    assert_eq!(poster_rating(PosterRow::Featured, 10), "9.8");
    assert_eq!(poster_rating(PosterRow::TopPicks, 2), "8.0");
    assert_eq!(poster_rating(PosterRow::NewReleases, 9), "9.4");
    assert_eq!(grid_rating(19, 1), "9.8");
}
