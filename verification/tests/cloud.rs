use drydock_desktop::cloud::{provider_chips, CloudSettings, HookButton, ProviderForm};
use drydock_desktop::startup::{LoadOutcome, Start};
use drydock_desktop::state::{DrydockApp, Settings, CloudProvider};
use drydock_desktop::types::{CatalogApp, SteamManifest, Reply};
use std::collections::BTreeMap;

fn settings() -> Settings {
    Settings {
        steam_directory: String::new(),
        games_directory: String::new(),
        added_apps: BTreeMap::new(),
        installed_games: BTreeMap::new(),
        launch_paths: BTreeMap::new(),
        download_queue: Vec::new(),
        steam_updates_enabled: BTreeMap::new(),
        auto_update_drydock: true,
        auto_update_unlocks: true,
        verify_before_activation: true,
        verify_threads: 0,
        max_download_mbps: 0,
        max_download_connections: 0,
        emu_skeleton_path: String::new(),
        proxy_base_url: String::new(),
        proxy_hmac_secret: String::new(),
        update_repository: String::new(),
    }
}

fn game(app_id: u32, name: &str) -> CatalogApp {
    CatalogApp { app_id, name: name.to_owned(), drm: false, tags: Vec::new() }
}

fn manifest(app_id: u32, name: &str) -> SteamManifest {
    SteamManifest {
        app_id,
        name: name.to_owned(),
        install_dir: format!("C:\\Steam\\steamapps\\common\\{name}"),
        size_on_disk: Some(2048),
    }
}

/// A shell with a Steam folder, two installed games and a catalog of three.
fn shell() -> DrydockApp {
    DrydockApp::new(Start {
        settings: settings(),
        outcome: LoadOutcome::Loaded,
        no_paths: None,
        root: Some("C:\\Steam".to_owned()),
        manifests: Ok(vec![manifest(10, "Alpha"), manifest(20, "Beta")]),
        conflicts: Vec::new(),
        cached: Some(vec![game(10, "Alpha"), game(20, "Beta"), game(30, "Gamma")]),
        embedded: None,
        running: false,
    })
}

#[test]
fn the_form_is_trimmed_but_for_the_secret() {
    let mut app = shell();
    app.cloud.form.folder_path = " D:\\Saves ".to_owned();
    assert!(matches!(app.cloud.form.to_settings(), Some(CloudSettings::Folder { path }) if path == "D:\\Saves"));
    app.cloud.form.provider = CloudProvider::S3;
    app.cloud.form.bucket = " saves ".to_owned();
    app.cloud.form.secret_access_key = " SECRET-REDACTED ".to_owned();
    match app.cloud.form.to_settings() {
        Some(CloudSettings::S3(credentials)) => {
            assert_eq!(credentials.bucket, "saves");
            assert_eq!(credentials.secret_access_key, " SECRET-REDACTED ");
        }
        _ => panic!("an object store was chosen"),
    }
    app.cloud.form.provider = CloudProvider::R2;
    assert!(matches!(app.cloud.form.to_settings(), Some(CloudSettings::R2(_))));
    app.cloud.form.provider = CloudProvider::LocalOnly;
    assert!(matches!(app.cloud.form.to_settings(), Some(CloudSettings::LocalOnly { .. })));
    app.cloud.form.provider = CloudProvider::OneDrive;
    assert!(app.cloud.form.to_settings().is_none());
    assert!(!app.cloud_page().can_save);
}

#[test]
fn the_hook_is_fetched_once_at_a_time() {
    let mut app = shell();
    assert!(app.start_cloud_download());
    assert!(!app.start_cloud_download());
    assert_eq!(app.line.text, "Downloading CloudRedirect…");
    let step = app.poll_cloud_download(Reply::Waiting);
    assert!(step.deploy.is_none() && !step.refresh);
    assert!(app.side_jobs.cloud_download);
    let step = app.poll_cloud_download(Reply::Done(Ok("2.1".to_owned())));
    assert!(step.refresh);
    let order = step.deploy.unwrap();
    assert_eq!((order.root.as_str(), order.version.as_str()), ("C:\\Steam", "2.1"));
    assert!(!app.side_jobs.cloud_download);
    app.hook_deployed("2.1", Ok(()));
    assert_eq!(app.line.text, "CloudRedirect 2.1 installed next to steam.exe");
    app.hook_deployed("2.1", Err("locked".to_owned()));
    assert_eq!(app.line.text, "CloudRedirect could not be installed: locked");
}

#[test]
fn a_failed_hook_download_is_told_of() {
    let mut app = shell();
    app.start_cloud_download();
    let step = app.poll_cloud_download(Reply::Done(Err("offline".to_owned())));
    assert!(step.deploy.is_none() && step.refresh);
    assert_eq!(app.line.text, "CloudRedirect download failed: offline");
    app.steam.root = None;
    app.start_cloud_download();
    let step = app.poll_cloud_download(Reply::Done(Ok("2.1".to_owned())));
    assert!(step.deploy.is_none() && step.refresh);
    assert_eq!(app.line.text, "Downloaded, but no Steam folder is set — configure it in Settings");
    app.start_cloud_download();
    let step = app.poll_cloud_download(Reply::Lost);
    assert!(step.deploy.is_none() && !step.refresh);
    assert!(!app.side_jobs.cloud_download);
    app.hook_removed(Ok(()));
    assert_eq!(app.line.text, "CloudRedirect DLL removed");
    app.hook_removed(Err("locked".to_owned()));
    assert_eq!(app.line.text, "Could not remove DLL: locked");
}

#[test]
fn a_sign_in_runs_once_at_a_time() {
    let mut app = shell();
    assert!(!app.poll_cloud_oauth(Reply::Done(Ok(()))));
    assert!(app.start_cloud_oauth("OneDrive"));
    assert!(!app.start_cloud_oauth("OneDrive"));
    assert_eq!(app.line.text, "Opening OneDrive sign-in in your browser…");
    assert!(app.poll_cloud_oauth(Reply::Done(Ok(()))));
    assert_eq!(app.line.text, "Cloud sign-in complete and saved. Restart Steam to apply.");
    app.start_cloud_oauth("OneDrive");
    assert!(app.poll_cloud_oauth(Reply::Done(Err("denied".to_owned()))));
    assert_eq!(app.line.text, "Cloud sign-in failed: denied");
    app.cloud_saved("Folder", Ok(()));
    assert_eq!(app.line.text, "Cloud configuration saved for Folder. Restart Steam to apply.");
    app.cloud_saved("Folder", Err("denied".to_owned()));
    assert_eq!(app.line.text, "Could not save cloud configuration: denied");
}

#[test]
fn the_page_shows_the_hook() {
    let mut app = shell();
    app.refresh_cloud_state(true, Some(CloudProvider::Folder));
    let view = app.cloud_page();
    assert_eq!(view.hook_pill.0, "● Hook Active");
    assert_eq!(view.active, Some(CloudProvider::Folder));
    assert_eq!(view.form, ProviderForm::Folder);
    let card = view.hook.unwrap();
    assert_eq!(card.detail, "cloud_redirect.dll active in C:\\Steam");
    assert_eq!(card.buttons, [HookButton::Uninstall, HookButton::Update]);
    app.refresh_cloud_state(false, None);
    let card = app.cloud_page().hook.unwrap();
    assert_eq!(card.detail, "Hook missing from steam.exe directory (C:\\Steam)");
    assert_eq!(card.buttons, [HookButton::Install]);
    app.steam.root = None;
    app.refresh_cloud_state(true, None);
    assert_eq!(app.cloud.dll_installed, None);
    assert!(app.cloud_page().hook.is_none());
    assert_eq!(provider_chips()[4].1, "Cloudflare R2");
}
