use drydock_desktop::catalog::{catalog_matches_filters, is_repacked, Catalog};
use drydock_desktop::header_resolver::HeaderResolver;
use drydock_desktop::ids::{sorted_distinct, table_ids};
use drydock_desktop::order::{sorted_order, sorted_unique};
use drydock_desktop::rate_limiter::RateLimiter;
use drydock_desktop::refresh::{
    catalog_marker, fix_entries, lists_agree, seconds_to_wait, DenuvoOrder,
};
use drydock_desktop::timing::{
    AMBIENT_FRAME, CATALOG_LIMIT_WINDOW, IDLE_FRAME, INTERACTIVE_FRAME, SECOND,
};
use drydock_desktop::startup::{LoadOutcome, Start};
use drydock_desktop::state::{DrydockApp, Settings};
use drydock_desktop::types::{CatalogApp, SteamManifest, FixFilter, RepackFilter, Reply};
use std::collections::{BTreeMap, HashMap, HashSet};

fn settings() -> Settings {
    Settings {
        steam_directory: String::new(),
        games_directory: String::new(),
        added_apps: BTreeMap::new(),
        installed_games: BTreeMap::new(),
        launch_paths: BTreeMap::new(),
        download_queue: Vec::new(),
        steam_updates_enabled: BTreeMap::new(),
        auto_update_drydock: true,
        auto_update_unlocks: true,
        verify_before_activation: true,
        verify_threads: 0,
        max_download_mbps: 0,
        max_download_connections: 0,
        emu_skeleton_path: String::new(),
        proxy_base_url: String::new(),
        proxy_hmac_secret: String::new(),
        update_repository: String::new(),
    }
}

fn game(app_id: u32, name: &str) -> CatalogApp {
    CatalogApp { app_id, name: name.to_owned(), drm: false, tags: Vec::new() }
}

fn manifest(app_id: u32, name: &str) -> SteamManifest {
    SteamManifest {
        app_id,
        name: name.to_owned(),
        install_dir: format!("C:\\Steam\\steamapps\\common\\{name}"),
        size_on_disk: Some(2048),
    }
}

/// A shell with a Steam folder, two installed games and a catalog of three.
fn shell() -> DrydockApp {
    DrydockApp::new(Start {
        settings: settings(),
        outcome: LoadOutcome::Loaded,
        no_paths: None,
        root: Some("C:\\Steam".to_owned()),
        manifests: Ok(vec![manifest(10, "Alpha"), manifest(20, "Beta")]),
        conflicts: Vec::new(),
        cached: Some(vec![game(10, "Alpha"), game(20, "Beta"), game(30, "Gamma")]),
        embedded: None,
        running: false,
    })
}

fn tagged(app_id: u32, tags: &[&str]) -> CatalogApp {
    CatalogApp {
        app_id,
        name: format!("G{app_id}"),
        drm: false,
        tags: tags.iter().map(|tag| (*tag).to_owned()).collect(),
    }
}

#[test]
fn a_refreshed_list_replaces_the_old_one() {
    let mut app = shell();
    assert!(!app.start_catalog_refresh(false, true));
    assert!(app.start_catalog_refresh(false, false));
    assert!(!app.start_catalog_refresh(true, false));
    assert_eq!(app.poll_catalog_refresh(Reply::Waiting), None);
    let changed = app.poll_catalog_refresh(Reply::Done(Ok(vec![game(1, "One")])));
    assert_eq!(changed, Some(true));
    assert!(app.catalog.ids.contains(&1) && !app.catalog.ids.contains(&10));
    app.catalog_saved(true, Ok(()));
    assert_eq!(app.line.text, "Game list updated: 1 games");
    app.start_catalog_refresh(true, true);
    assert_eq!(app.poll_catalog_refresh(Reply::Done(Ok(vec![game(1, "One")]))), Some(false));
    app.catalog_saved(true, Err("full".to_owned()));
    assert_eq!(app.line.text, "The refreshed game list could not be cached: full");
    app.start_catalog_refresh(true, true);
    assert_eq!(app.poll_catalog_refresh(Reply::Done(Ok(Vec::new()))), None);
    assert_eq!(app.catalog.apps.len(), 1);
    assert_eq!(catalog_marker("1.2.0"), "1.2.0:catalog-v2");
}

#[test]
fn forced_refreshes_are_limited() {
    let mut app = shell();
    let order = app.force_catalog_refresh(0);
    assert!(order.catalog);
    assert_eq!(order.denuvo, Some(DenuvoOrder { force: true }));
    assert_eq!(app.line.text, "Refreshing the game list…");
    assert!(!app.force_catalog_refresh(0).catalog);
    assert_eq!(app.line.text, "A game-list refresh is already running.");
    app.poll_catalog_refresh(Reply::Lost);
    assert!(!app.force_catalog_refresh(CATALOG_LIMIT_WINDOW - SECOND).catalog);
    assert_eq!(app.line.text, "Too many refreshes. Please wait 1s before trying again.");
    assert!(app.force_catalog_refresh(CATALOG_LIMIT_WINDOW).catalog);
}

#[test]
fn a_failed_list_is_told_of() {
    let mut app = shell();
    assert_eq!(app.start_denuvo_refresh(false), Some(DenuvoOrder { force: false }));
    assert_eq!(app.start_denuvo_refresh(true), None);
    app.poll_denuvo_refresh(Reply::Done(Err("offline".to_owned())));
    assert_eq!(app.line.text, "Denuvo list unavailable: offline");
    app.start_fixes_refresh();
    app.poll_fixes_refresh(Reply::Done(Err("offline".to_owned())));
    assert_eq!(app.line.text, "Fix list unavailable: offline");
    app.start_repacks_refresh();
    app.poll_repacks_refresh(Reply::Done(Err("offline".to_owned())));
    assert_eq!(app.line.text, "Repack list unavailable: offline");
    assert!(!app.list_jobs.denuvo && !app.list_jobs.fixes && !app.list_jobs.repacks);
}

#[test]
fn a_cleared_cache_refills() {
    let mut app = shell();
    app.start_denuvo_refresh(false);
    app.poll_denuvo_refresh(Reply::Done(Ok(vec![10])));
    assert_eq!(app.clear_drydock_cache(Ok(1536)), Some(DenuvoOrder { force: true }));
    assert_eq!(app.line.text, "Cache cleared — 1.5 KB freed.");
    assert!(app.catalog.denuvo_appids.is_empty() && !app.catalog.denuvo_loaded);
    assert_eq!(app.clear_drydock_cache(Err("locked".to_owned())), None);
    assert_eq!(app.line.text, "Cache could not be cleared: locked");
}

#[test]
fn pending_work_keeps_the_window_painting() {
    let mut app = shell();
    assert_eq!(app.next_frame(true, true, false), INTERACTIVE_FRAME);
    assert_eq!(app.next_frame(true, false, false), AMBIENT_FRAME);
    assert_eq!(app.next_frame(false, true, true), IDLE_FRAME);
    app.side_jobs.cloud_oauth = true;
    assert!(app.has_pending_background());
    assert_eq!(app.next_frame(false, false, false), AMBIENT_FRAME);
}

#[test]
fn waits_are_rounded_up_to_a_second() {
    assert_eq!(seconds_to_wait(30 * SECOND), 30);
    assert_eq!(seconds_to_wait(0), 1);
}

#[test]
fn lists_are_compared_by_what_they_hold() {
    assert!(lists_agree(&vec![tagged(1, &["a"])], &vec![tagged(1, &["a"])]));
    assert!(!lists_agree(&vec![tagged(1, &["a"])], &vec![tagged(1, &["b"])]));
    assert!(!lists_agree(&vec![tagged(1, &[])], &Vec::new()));
    let fixes = fix_entries(&vec![3, 1]);
    assert!(fixes.iter().all(|fix| fix.denuvo) && fixes.len() == 2);
}

#[test]
fn frequent_tags_are_offered_best_first() {
    let mut apps: Vec<CatalogApp> = (0..20).map(|id| tagged(id, &["RPG", "Action"])).collect();
    apps.push(tagged(50, &["RPG"]));
    apps.extend((100..119).map(|id| tagged(id, &["Rare"])));
    let catalog = Catalog::new(apps);
    assert_eq!(catalog.available_tags, ["RPG", "Action"]);
    let many: Vec<CatalogApp> = (0..20)
        .map(|id| CatalogApp {
            app_id: id,
            name: String::new(),
            drm: false,
            tags: (0..50).map(|tag| format!("T{tag:02}")).collect(),
        })
        .collect();
    let catalog = Catalog::new(many);
    assert_eq!(catalog.available_tags.len(), 40);
    assert_eq!(catalog.available_tags[0], "T00");
}

#[test]
fn a_stale_tag_is_dropped() {
    let mut catalog = Catalog::new((0..20).map(|id| tagged(id, &["RPG"])).collect());
    catalog.selected_tag = Some("RPG".to_owned());
    catalog.recompute_tags();
    assert_eq!(catalog.selected_tag, Some("RPG".to_owned()));
    catalog.replace_apps(vec![game(1, "One")]);
    assert_eq!(catalog.selected_tag, None);
}

#[test]
fn filters_narrow_the_results() {
    let entry = game(10, "Alpha");
    let repackers: HashMap<u32, Vec<String>> =
        [(10, vec!["fitgirl".to_owned()])].into_iter().collect();
    let fixed: HashSet<u32> = HashSet::new();
    let passes = |repack: RepackFilter, fix: FixFilter| {
        catalog_matches_filters(&entry, &repack, fix, &repackers, &fixed)
    };
    assert!(passes(RepackFilter::Any, FixFilter::Any));
    assert!(passes(RepackFilter::AnyRepack, FixFilter::Any));
    assert!(passes(RepackFilter::Repacker("FitGirl".to_owned()), FixFilter::Any));
    assert!(!passes(RepackFilter::Repacker("DODI".to_owned()), FixFilter::Any));
    assert!(!passes(RepackFilter::Any, FixFilter::Denuvo));
}

#[test]
fn an_app_without_a_source_has_no_repack() {
    let entry = game(7, "G");
    let repackers: HashMap<u32, Vec<String>> = [(7, Vec::new())].into_iter().collect();
    let fixed: HashSet<u32> = HashSet::new();
    assert!(!catalog_matches_filters(
        &entry,
        &RepackFilter::AnyRepack,
        FixFilter::Any,
        &repackers,
        &fixed
    ));
    assert!(!is_repacked(&repackers, 7));
    assert!(!is_repacked(&repackers, 8));
}

#[test]
fn names_fall_back_to_the_number() {
    let catalog = Catalog::new(vec![game(10, "Alpha")]);
    assert_eq!(catalog.app_display_name(10), "Alpha");
    assert_eq!(catalog.app_display_name(11), "App 11");
    assert_eq!(catalog.needs_activation(10), None);
}

#[test]
fn headers_are_resolved_once() {
    let mut resolver = HeaderResolver::new();
    resolver.request(1);
    resolver.request(2);
    resolver.request(1);
    assert_eq!(resolver.queue.len(), 2);
    let next = resolver.take_next().unwrap();
    resolver.store_result(next, Ok("https://x/1.jpg".to_owned()));
    assert_eq!(resolver.get(next), Some("https://x/1.jpg".to_owned()));
    let other = resolver.take_next().unwrap();
    resolver.store_result(other, Err("none".to_owned()));
    assert_eq!(resolver.get(other), None);
    resolver.request(other);
    assert!(resolver.take_next().is_none());
    for id in 100..200 {
        resolver.request(id);
    }
    assert!(resolver.queue.len() <= 48);
    resolver.cancel_pending();
    assert!(resolver.take_next().is_none());
    resolver.request(150);
    assert_eq!(resolver.take_next(), Some(150));
}

#[test]
fn a_limiter_forgets_after_its_window() {
    let mut limiter = RateLimiter::new(2, 10);
    assert_eq!(limiter.check(0), Ok(()));
    assert_eq!(limiter.check(4), Ok(()));
    assert_eq!(limiter.check(5), Err(5));
    assert_eq!(limiter.check(10), Ok(()));
    assert_eq!(limiter.hits, [4, 10]);
}

#[test]
fn no_span_shorter_than_the_window_holds_more_than_the_limit() {
    let mut limiter = RateLimiter::new(2, 10);
    let accepted: Vec<u128> = (0..60).filter(|now| limiter.check(*now).is_ok()).collect();
    assert_eq!(accepted, [0, 1, 10, 11, 20, 21, 30, 31, 40, 41, 50, 51]);
    for three in accepted.windows(3) {
        assert!(three[2] - three[0] >= 10);
    }
}

#[test]
fn orders_are_stable() {
    let keys: Vec<String> = ["b", "a", "b", "A"].iter().map(|key| (*key).to_owned()).collect();
    assert_eq!(sorted_order(&keys), [3, 1, 0, 2]);
    assert_eq!(sorted_unique(&keys), ["A", "a", "b"]);
    assert_eq!(sorted_distinct(&vec![5, 1, 5, 3]), [1, 3, 5]);
    let table: BTreeMap<u32, bool> = [(7, true), (2, false)].into_iter().collect();
    assert_eq!(table_ids(&table), [2, 7]);
}
