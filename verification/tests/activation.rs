use drydock_desktop::activation::{
    activation_verdict, executables_to_check, field_changed, field_key, provider_label,
    removal_error, response_complete, response_text, verify_percent, ActivationCheck,
    ActivationNext, AfterVerify, FieldKeys, UbisoftPrepared,
};
use drydock_desktop::downloads::{DownloadEnd, DownloadUpdate};
use drydock_desktop::startup::{LoadOutcome, Start};
use drydock_desktop::state::{DrydockApp, Settings, DownloadKind, VerifiedEntitlement};
use drydock_desktop::types::{CatalogApp, SteamManifest, ActivationProvider, Page, Reply};
use std::collections::BTreeMap;

fn settings() -> Settings {
    Settings {
        steam_directory: String::new(),
        games_directory: String::new(),
        added_apps: BTreeMap::new(),
        installed_games: BTreeMap::new(),
        launch_paths: BTreeMap::new(),
        download_queue: Vec::new(),
        steam_updates_enabled: BTreeMap::new(),
        auto_update_drydock: true,
        auto_update_unlocks: true,
        verify_before_activation: true,
        verify_threads: 0,
        max_download_mbps: 0,
        max_download_connections: 0,
        emu_skeleton_path: String::new(),
        proxy_base_url: String::new(),
        proxy_hmac_secret: String::new(),
        update_repository: String::new(),
    }
}

fn game(app_id: u32, name: &str) -> CatalogApp {
    CatalogApp { app_id, name: name.to_owned(), drm: false, tags: Vec::new() }
}

fn manifest(app_id: u32, name: &str) -> SteamManifest {
    SteamManifest {
        app_id,
        name: name.to_owned(),
        install_dir: format!("C:\\Steam\\steamapps\\common\\{name}"),
        size_on_disk: Some(2048),
    }
}

/// A shell with a Steam folder, two installed games and a catalog of three.
fn shell() -> DrydockApp {
    DrydockApp::new(Start {
        settings: settings(),
        outcome: LoadOutcome::Loaded,
        no_paths: None,
        root: Some("C:\\Steam".to_owned()),
        manifests: Ok(vec![manifest(10, "Alpha"), manifest(20, "Beta")]),
        conflicts: Vec::new(),
        cached: Some(vec![game(10, "Alpha"), game(20, "Beta"), game(30, "Gamma")]),
        embedded: None,
        running: false,
    })
}

const KEYS: FieldKeys = FieldKeys { left: false, right: false, backspace: false };

fn fields(text: &str) -> [String; 8] {
    let letters: Vec<char> = text.chars().collect();
    std::array::from_fn(|i| letters.get(i).map(char::to_string).unwrap_or_default())
}

#[test]
fn a_complete_response_has_eight_characters() {
    let code = fields("AB12CD34");
    assert!(response_complete(&code));
    assert_eq!(response_text(&code), "AB12CD34");
    assert!(!response_complete(&fields("AB12CD3")));
    assert!(!response_complete(&fields("AB12CD3-")));
}

#[test]
fn typing_moves_to_the_next_field() {
    let mut code = fields("");
    assert_eq!(field_changed(&mut code, 0, "-x9"), Some(1));
    assert_eq!(code[0], "X");
    assert_eq!(field_changed(&mut code, 7, "z"), None);
    assert_eq!(field_changed(&mut code, 0, "  "), None);
    assert_eq!(code[0], "");
}

#[test]
fn keys_stay_on_the_fields() {
    let mut code = fields("AB");
    assert_eq!(field_key(&mut code, 0, false, FieldKeys { left: true, ..KEYS }), None);
    assert_eq!(field_key(&mut code, 1, false, FieldKeys { left: true, ..KEYS }), Some(0));
    assert_eq!(field_key(&mut code, 7, false, FieldKeys { right: true, ..KEYS }), None);
    assert_eq!(field_key(&mut code, 3, false, FieldKeys { right: true, ..KEYS }), Some(4));
    assert_eq!(field_key(&mut code, 2, true, FieldKeys { backspace: true, ..KEYS }), Some(1));
    assert_eq!(response_text(&code), "A");
    assert_eq!(field_key(&mut code, 1, false, FieldKeys { backspace: true, ..KEYS }), None);
}

#[test]
fn a_folder_is_checked_before_it_is_used() {
    let exes = || Ok(vec!["game.exe".to_owned()]);
    assert_eq!(executables_to_check(true, exes()), Ok(vec!["game.exe".to_owned()]));
    assert_eq!(
        executables_to_check(false, exes()),
        Err("Select the game's folder first.".to_owned())
    );
    assert_eq!(
        executables_to_check(true, Ok(Vec::new())),
        Err("Steam lists no launch executable for this game to verify against.".to_owned())
    );
    assert!(activation_verdict(None, Vec::new()).is_err());
    assert!(matches!(
        activation_verdict(Some("C:\\G".to_owned()), Vec::new()),
        Ok(ActivationCheck::Ready { .. })
    ));
    assert!(matches!(
        activation_verdict(Some("C:\\G".to_owned()), vec!["x.dll".to_owned()]),
        Ok(ActivationCheck::NeedsRemoval { .. })
    ));
    assert_eq!(removal_error("locked"), "Could not remove the crack files: locked");
}

#[test]
fn a_clean_folder_leads_to_a_request() {
    let mut app = shell();
    app.settings.verify_before_activation = false;
    assert!(app.start_activation_check(10));
    assert!(!app.start_activation_check(10));
    assert_eq!(app.line.text, "Verifying the game folder…");
    let next = app.poll_activation_check(Reply::Done(Ok(ActivationCheck::Ready {
        root: "C:\\Alpha".to_owned(),
    })));
    assert!(matches!(next, ActivationNext::Request { app_id: 10 }));
    assert!(app.activation_jobs.request);
    app.poll_activation_request(Reply::Done(Ok("AB12CD34".to_owned())));
    assert_eq!(app.activation.request_code, "AB12CD34");
    assert_eq!(app.line.text, "Short activation request created");
    let card = app.activation_steam_code().unwrap();
    assert!(card.short);
    assert_eq!(card.heading, "YOUR ACTIVATION REQUEST CODE");
    app.code_copied();
    assert_eq!(app.line.text, "Activation code copied to clipboard");
}

#[test]
fn a_long_request_is_a_fallback() {
    let mut app = shell();
    app.generate_activation_request();
    app.poll_activation_request(Reply::Done(Ok("CSL1.long.request".to_owned())));
    assert_eq!(
        app.line.text,
        "The short-code service is unavailable. A complete fallback request was created."
    );
    assert!(!app.activation_steam_code().unwrap().short);
    app.generate_activation_request();
    app.poll_activation_request(Reply::Done(Err("offline".to_owned())));
    assert_eq!(app.line.text, "Activation request failed: offline");
    app.generate_activation_request();
    app.poll_activation_request(Reply::Lost);
    assert_eq!(app.line.text, "The activation request ended unexpectedly");
}

#[test]
fn verification_comes_before_the_request() {
    let mut app = shell();
    app.start_activation_check(10);
    let next = app.poll_activation_check(Reply::Done(Ok(ActivationCheck::Ready {
        root: "C:\\Alpha".to_owned(),
    })));
    match next {
        ActivationNext::Verify { order } => {
            assert_eq!(order.root, Some("C:\\Alpha".to_owned()));
            assert_eq!(order.kind, DownloadKind::Verify);
        }
        _ => panic!("the files are verified first"),
    }
    let end = app.poll_download(
        vec![DownloadUpdate::Verified(false), DownloadUpdate::Finished(Ok("2 broken".to_owned()))],
        false,
    );
    let DownloadEnd::Verified { app_id, verified, result } = end else {
        panic!("a verify has ended");
    };
    let after = app.finish_activation_verify(app_id, verified, &result);
    assert!(matches!(after, AfterVerify::Refused));
    assert!(app.line.error);
    let after = app.finish_activation_verify(app_id, Some(true), &Ok("fine".to_owned()));
    assert!(matches!(after, AfterVerify::NotAwaited));
}

#[test]
fn intact_files_lead_to_the_request() {
    let mut app = shell();
    app.continue_activation(10, "C:\\Alpha".to_owned());
    let after = app.finish_activation_verify(10, Some(true), &Ok("fine".to_owned()));
    assert!(matches!(after, AfterVerify::Request));
}

#[test]
fn a_running_download_keeps_a_game_from_being_verified() {
    let mut app = shell();
    app.start_verify(20, "Beta".to_owned());
    let next = app.continue_activation(10, "C:\\Alpha".to_owned());
    assert!(matches!(next, ActivationNext::Nothing));
    assert!(app.line.text.starts_with("A download is running"));
}

#[test]
fn crack_files_are_removed_first() {
    let mut app = shell();
    app.settings.verify_before_activation = false;
    app.start_activation_check(10);
    app.poll_activation_check(Reply::Done(Ok(ActivationCheck::NeedsRemoval {
        root: "C:\\Alpha".to_owned(),
        files: vec!["x.dll".to_owned()],
    })));
    let order = app.start_crack_removal().unwrap();
    assert_eq!(order.files, ["x.dll"]);
    assert!(app.start_crack_removal().is_none());
    let next = app.poll_activation_remove(Reply::Done(Ok((10, "C:\\Alpha".to_owned()))));
    assert!(matches!(next, ActivationNext::Request { app_id: 10 }));
    assert!(!app.activation_jobs.remove);
}

#[test]
fn a_failed_folder_check_is_told_of() {
    let mut app = shell();
    app.start_activation_check(10);
    let next = app.poll_activation_check(Reply::Done(Err("wrong folder".to_owned())));
    assert!(matches!(next, ActivationNext::Nothing));
    assert_eq!((app.line.text.as_str(), app.line.error), ("wrong folder", true));
    assert_eq!(app.line.busy, None);
}

#[test]
fn a_response_needs_a_request() {
    let mut app = shell();
    assert!(app.verify_activation_response().is_none());
    assert_eq!(app.line.text, "Verify the game folder and generate a request code first.");
    app.activation.root = Some("C:\\Alpha".to_owned());
    app.activation.response_code = fields("AB12CD34");
    let order = app.verify_activation_response().unwrap();
    assert_eq!((order.code.as_str(), order.target.as_str()), ("AB12CD34", "C:\\Alpha"));
    app.poll_activation_verification(Reply::Done(Ok(VerifiedEntitlement {
        app_id: 10,
        payload_bytes: 12,
        expires_utc: "2030-01-01".to_owned(),
    })));
    assert_eq!(app.activation.success_app, Some("Alpha".to_owned()));
    assert!(app.line.text.starts_with("Activation applied for App 10"));
}

#[test]
fn a_lost_verification_is_told_of() {
    let mut app = shell();
    app.activation.root = Some("C:\\Alpha".to_owned());
    app.activation.response_code = fields("AB12CD34");
    app.verify_activation_response();
    app.poll_activation_verification(Reply::Lost);
    assert_eq!(app.line.text, "Activation verification ended unexpectedly");
    assert!(!app.activation_jobs.verify);
}

#[test]
fn selecting_a_game_fills_the_search() {
    let mut app = shell();
    app.activation.request_code = "OLD".to_owned();
    app.select_activation_game(20);
    assert_eq!(app.selected_app, Some(20));
    assert_eq!(app.activation.search, "Beta");
    app.go_to_activation(99);
    assert_eq!(app.page, Page::Activation);
    assert_eq!(app.activation.search, "APP 99");
    app.choose_activation_folder("D:\\New".to_owned());
    assert_eq!(app.activation.path, "D:\\New");
    assert_eq!(app.activation.root, None);
}

#[test]
fn the_verification_setting_goes_back_where_it_was_not_saved() {
    let mut app = shell();
    app.settings.verify_before_activation = false;
    app.verify_setting_saved(true, Err("full".to_owned()));
    assert!(app.settings.verify_before_activation);
    assert_eq!(app.line.text, "The verification setting could not be saved: full");
}

#[test]
fn a_ubisoft_game_is_prepared_first() {
    let mut app = shell();
    assert!(app.verify_ubisoft_response().is_none());
    assert_eq!(app.line.text, "Prepare the Ubisoft activation first.");
    app.selected_app = Some(10);
    app.activation.path = "D:\\Ubi".to_owned();
    assert!(app.start_ubisoft_prepare());
    assert!(!app.start_ubisoft_prepare());
    app.poll_ubisoft_prepare(Reply::Done(Ok(UbisoftPrepared {
        activation_code: "UBI-1".to_owned(),
        exe_dir: "D:\\Ubi\\bin".to_owned(),
    })));
    assert_eq!(app.activation.ubisoft_code, "UBI-1");
    assert_eq!(
        app.line.text,
        "Token request captured. Send the activation code in your Ubisoft ticket."
    );
    app.activation.response_code = fields("AB12CD34");
    let order = app.verify_ubisoft_response().unwrap();
    assert_eq!(order.target, "D:\\Ubi\\bin");
    let card = app.activation_ubisoft_code().unwrap();
    assert_eq!(card.heading, "UBISOFT ACTIVATION CODE");
    assert!(card.verifying);
}

#[test]
fn percentages_stay_bounded() {
    assert_eq!(verify_percent(0, 0), 0);
    assert_eq!(verify_percent(1, 3), 33);
    assert_eq!(verify_percent(10, 10), 100);
    assert_eq!(verify_percent(u64::MAX, u64::MAX), 1);
}

#[test]
fn providers_have_names() {
    assert_eq!(provider_label(ActivationProvider::Steam), "STEAM");
    assert_eq!(provider_label(ActivationProvider::Ubisoft), "UBISOFT");
    assert_eq!(provider_label(ActivationProvider::Ea), "EA");
}

#[test]
fn the_folder_card_shows_the_stand() {
    let mut app = shell();
    let card = app.activation_steam_body();
    assert!(!card.has_game && !card.ready && !card.busy);
    app.select_activation_game(10);
    app.activation.path = "C:\\Alpha".to_owned();
    let card = app.activation_steam_body();
    assert!(card.has_game && card.ready);
    app.start_activation_check(10);
    assert!(app.activation_steam_body().busy);
    assert!(app.activation_ubisoft_code().is_none());
    assert!(app.activation_ubisoft_body().has_game);
}
