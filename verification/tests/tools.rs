use drydock_desktop::helpers::PeArch;
use drydock_desktop::tools::{
    achievements_schema, beside_exe, count_achievements, emu_files, emu_library, emu_target,
    exe_prefix, missing_file_text, replaced, resolve_arch, EmuTally,
};
use drydock_desktop::startup::{LoadOutcome, Start};
use drydock_desktop::state::{DrydockApp, Settings, EmuArch, GameLanguageOptions, InstalledGame};
use drydock_desktop::types::{CatalogApp, SteamManifest, Reply};
use drydock_desktop::unlocks::NamedFile;
use std::collections::BTreeMap;

fn settings() -> Settings {
    Settings {
        steam_directory: String::new(),
        games_directory: String::new(),
        added_apps: BTreeMap::new(),
        installed_games: BTreeMap::new(),
        launch_paths: BTreeMap::new(),
        download_queue: Vec::new(),
        steam_updates_enabled: BTreeMap::new(),
        auto_update_drydock: true,
        auto_update_unlocks: true,
        verify_before_activation: true,
        verify_threads: 0,
        max_download_mbps: 0,
        max_download_connections: 0,
        emu_skeleton_path: String::new(),
        proxy_base_url: String::new(),
        proxy_hmac_secret: String::new(),
        update_repository: String::new(),
    }
}

fn game(app_id: u32, name: &str) -> CatalogApp {
    CatalogApp { app_id, name: name.to_owned(), drm: false, tags: Vec::new() }
}

fn manifest(app_id: u32, name: &str) -> SteamManifest {
    SteamManifest {
        app_id,
        name: name.to_owned(),
        install_dir: format!("C:\\Steam\\steamapps\\common\\{name}"),
        size_on_disk: Some(2048),
    }
}

/// A shell with a Steam folder, two installed games and a catalog of three.
fn shell() -> DrydockApp {
    DrydockApp::new(Start {
        settings: settings(),
        outcome: LoadOutcome::Loaded,
        no_paths: None,
        root: Some("C:\\Steam".to_owned()),
        manifests: Ok(vec![manifest(10, "Alpha"), manifest(20, "Beta")]),
        conflicts: Vec::new(),
        cached: Some(vec![game(10, "Alpha"), game(20, "Beta"), game(30, "Gamma")]),
        embedded: None,
        running: false,
    })
}

fn languages(current: Option<&str>) -> GameLanguageOptions {
    GameLanguageOptions {
        languages: vec!["english".to_owned(), "français".to_owned()],
        current_language: current.map(str::to_owned),
    }
}

#[test]
fn a_folder_with_languages_is_loaded() {
    let mut app = shell();
    app.load_language_from("D:\\Game".to_owned(), Ok(Some(languages(Some("français")))));
    assert_eq!(app.line.text, "Found 2 language option(s)");
    assert_eq!(app.tools.language_selection, "français");
    assert_eq!(app.apply_tools_language(), Some(("D:\\Game".to_owned(), "français".to_owned())));
    let (selected, all) = app.tools_page().languages.unwrap();
    assert_eq!(selected, "FRANÇAIS");
    assert_eq!(all, ["ENGLISH", "FRANÇAIS"]);
    app.load_language_from("D:\\Game".to_owned(), Ok(Some(languages(None))));
    assert_eq!(app.tools.language_selection, "english");
    app.load_language_from("D:\\Game".to_owned(), Ok(None));
    assert_eq!(app.line.text, "No language files found in that folder.");
    assert_eq!(app.apply_tools_language(), None);
    app.load_language_from("D:\\Game".to_owned(), Err("denied".to_owned()));
    assert_eq!((app.line.text.as_str(), app.line.error), ("denied", true));
    app.load_language_from(String::new(), Ok(Some(languages(None))));
    assert_eq!(app.line.text, "denied");
    assert!(app.tools.language_options.is_none());
}

#[test]
fn a_written_language_is_loaded_anew() {
    let mut app = shell();
    assert!(app.language_applied(Ok("german".to_owned())));
    assert_eq!(app.line.text, "Language changed to german");
    assert!(!app.language_applied(Err("denied".to_owned())));
    assert_eq!(app.line.text, "denied");
}

#[test]
fn an_order_needs_a_number() {
    let mut app = shell();
    app.tools.emu_appid = " 2406770 ".to_owned();
    app.tools.emu_arch = EmuArch::X86;
    app.settings.emu_skeleton_path = "  ".to_owned();
    let panel = app.emu_template_panel();
    assert!(panel.can_build && !panel.busy);
    assert_eq!(panel.archive_name, "2406770_crack.zip");
    let order = app.start_emu_crack().unwrap();
    assert_eq!((order.app_id, order.arch, order.loader), (2406770, EmuArch::X86, "version.dll"));
    assert_eq!(order.skeleton, None);
    assert!(app.start_emu_crack().is_none());
    assert!(!app.emu_template_panel().can_build);
    app.poll_emu_template(Reply::Done(Ok("done".to_owned())));
    assert_eq!(app.line.text, "done");
    for text in ["", "0x10", "-1", "4294967296"] {
        app.tools.emu_appid = text.to_owned();
        assert!(!app.emu_template_panel().can_build);
        assert!(app.start_emu_crack().is_none());
    }
    app.tools.emu_appid = "0".to_owned();
    assert!(!app.emu_template_panel().can_build);
}

#[test]
fn a_game_of_drydock_is_ordered_by_its_folder() {
    let mut app = shell();
    assert!(app.crack_drydock_game(30, true).is_none());
    assert_eq!(app.line.text, "Ready");
    app.settings.installed_games.insert(
        30,
        InstalledGame { name: String::new(), install_dir: "D:\\Games\\Gamma".to_owned() },
    );
    assert!(app.crack_drydock_game(30, false).is_none());
    assert_eq!(app.line.text, "The game's install folder no longer exists.");
    app.tools.emu_loader_winmm = true;
    app.settings.emu_skeleton_path = " D:\\skeleton.zip ".to_owned();
    let (order, folder) = app.crack_drydock_game(30, true).unwrap();
    assert_eq!(folder, "D:\\Games\\Gamma");
    assert_eq!(order.loader, "winmm.dll");
    assert_eq!(order.skeleton, Some("D:\\skeleton.zip".to_owned()));
    assert_eq!(app.line.text, "Cracking Gamma — resolving config and emu files…");
    assert!(app.crack_drydock_game(30, true).is_none());
    assert_eq!(app.line.text, "A crack job is already running.");
    assert!(!app.start_emu_toolchain_refresh());
    app.poll_emu_template(Reply::Lost);
    assert_eq!(app.line.text, "The template generator ended unexpectedly");
    assert!(app.start_emu_toolchain_refresh());
    app.poll_emu_template(Reply::Done(Err("offline".to_owned())));
    assert_eq!((app.line.text.as_str(), app.line.error), ("offline", true));
}

#[test]
fn the_architecture_is_found_out_in_order() {
    let (x64, x86) = (Some(PeArch::X64), Some(PeArch::X86));
    assert_eq!(resolve_arch(EmuArch::X86, x64, Some(true), x64), Ok(PeArch::X86));
    assert_eq!(resolve_arch(EmuArch::X64, x86, Some(false), x86), Ok(PeArch::X64));
    assert_eq!(resolve_arch(EmuArch::Auto, x86, Some(true), x64), Ok(PeArch::X86));
    assert_eq!(resolve_arch(EmuArch::Auto, None, Some(true), x86), Ok(PeArch::X64));
    assert_eq!(resolve_arch(EmuArch::Auto, None, Some(false), x64), Ok(PeArch::X86));
    assert_eq!(resolve_arch(EmuArch::Auto, None, None, x64), Ok(PeArch::X64));
    assert_eq!(
        resolve_arch(EmuArch::Auto, None, None, None),
        Err("Could not auto-detect the architecture. Pick x64 or x86 in the Arch selector and try again.".to_owned())
    );
}

#[test]
fn files_lie_beside_the_executable() {
    assert_eq!(replaced("Bin64\\a/b", '\\', '/'), "Bin64/a/b");
    assert_eq!(exe_prefix(Some("Bin64/sub".to_owned())), "Bin64\\sub");
    assert_eq!(exe_prefix(None), "");
    assert_eq!(beside_exe("Bin64", "x.dll"), "Bin64\\x.dll");
    assert_eq!(beside_exe("", "x.dll"), "x.dll");
    assert!(missing_file_text("x.dll").starts_with("Emu file x.dll is missing"));
}

fn file(name: &str, bytes: &[u8]) -> NamedFile {
    NamedFile { name: name.to_owned(), bytes: bytes.to_vec() }
}

#[test]
fn emulator_files_are_listed_in_order() {
    let files = emu_files(
        "Bin64",
        "Bin64\\steam_settings\\",
        vec![file("Bin64\\steam_settings\\steam_appid.txt", b"480")],
        vec![file("version.dll", b"v"), file("steamclient64.dll", b"s")],
        Some(b"wav".to_vec()),
        vec![file("load_dlls\\a.dll", b"a")],
        Some(b"re".to_vec()),
        vec![file("one.jpg", b"1"), file("two.jpg", b"2")],
    );
    let listed: Vec<(&str, &[u8])> =
        files.iter().map(|file| (file.name.as_str(), file.bytes.as_slice())).collect();
    let expected: [(&str, &[u8]); 8] = [
        ("Bin64\\steam_settings\\steam_appid.txt", b"480"),
        ("Bin64\\version.dll", b"v"),
        ("Bin64\\steamclient64.dll", b"s"),
        ("Bin64\\steam_settings\\sounds\\overlay_achievement_notification.wav", b"wav"),
        ("Bin64\\steam_settings\\load_dlls\\a.dll", b"a"),
        ("Bin64\\dinput8.dll", b"re"),
        ("Bin64\\steam_settings\\image\\one.jpg", b"1"),
        ("Bin64\\steam_settings\\image\\two.jpg", b"2"),
    ];
    assert_eq!(listed, expected);
}

#[test]
fn emulator_files_of_a_game_at_the_root_have_no_prefix() {
    let files = emu_files(
        "",
        "steam_settings\\",
        Vec::new(),
        vec![file("winmm.dll", b"w")],
        None,
        Vec::new(),
        Some(b"re".to_vec()),
        Vec::new(),
    );
    let names: Vec<&str> = files.iter().map(|file| file.name.as_str()).collect();
    assert_eq!(names, ["winmm.dll", "dinput8.dll"]);
}

#[test]
fn a_path_that_comes_down_to_the_folder_is_skipped() {
    assert_eq!(emu_target("C:\\Game", "C:\\Game"), None);
    assert_eq!(emu_target("C:\\Game", "C:\\Game\\x.dll"), Some("C:\\Game\\x.dll"));
}

#[test]
fn a_missing_library_ends_the_build() {
    let library = emu_library("x.dll".to_owned(), Some(b"x".to_vec())).ok().unwrap();
    assert_eq!((library.name.as_str(), library.bytes.as_slice()), ("x.dll", b"x".as_slice()));
    assert_eq!(emu_library("x.dll".to_owned(), None).err(), Some(missing_file_text("x.dll")));
}

#[test]
fn without_a_schema_there_are_no_achievements() {
    assert_eq!(achievements_schema(Ok("[{}]".to_owned())), "[{}]");
    assert_eq!(achievements_schema(Err("offline".to_owned())), "[]");
}

#[test]
fn achievements_are_counted_without_overlap() {
    assert_eq!(count_achievements("[]"), 0);
    assert_eq!(count_achievements("[{\"name\":\"A\"},{\"name\":\"B\"}]"), 2);
    for text in ["\"name\"name\"", "\"name\"\"name\"", "xx\"nam\"name\""] {
        assert_eq!(count_achievements(text), text.matches("\"name\"").count());
    }
}

#[test]
fn a_finished_set_is_summed_up() {
    let mut tally = EmuTally {
        app_id: 620,
        arch: "x64",
        configs: 7,
        libraries: 2,
        images: 0,
        reframework: false,
        depots: 3,
        extras: 4,
        achievements: 51,
    };
    assert_eq!(
        tally.deployed_note("Portal 2"),
        "Cracked App 620 (x64) into Portal 2 — 7 configs + 2 DLLs, 51 achievement(s)."
    );
    tally.images = 5;
    tally.reframework = true;
    assert_eq!(
        tally.zipped_note("D:\\a.zip"),
        "Crack ZIP for App 620 (x64) saved to D:\\a.zip — 7 config files + 2 DLLs + 5 achievement image(s) + REFramework. 3 depot(s), 4 DLC(s), 51 achievement(s)."
    );
}
