use drydock_desktop::helpers::{
    added_note, arch_from_depot_paths, artwork, denuvo_appids_from_cache, distribute_response_code,
    ellipsize, fetch_denuvo_appids, format_number_with_commas, github_access_mode, group_thousands,
    human_bytes, is_real_game, is_short_activation_code, joined_or_unknown,
    normalize_response_fragment, path_if_present, refresh_marker_is_current,
    restore_payload_into_steam, steam_artwork_urls, tail, ubisoft_executable, ubisoft_folder,
    ubisoft_root, value_or_unknown, PeArch,
};
use drydock_desktop::timing::{due, CATALOG_REFRESH_COOLDOWN, SECOND};

#[test]
fn response_code_paste_is_normalized_and_distributed() {
    let mut characters: [String; 8] = std::array::from_fn(|_| String::new());
    let focus = distribute_response_code(&mut characters, 0, " ab-12 cd34 ");
    assert_eq!(characters.concat(), "AB12CD34");
    assert_eq!(focus, 7);
}

#[test]
fn response_code_paste_respects_start_and_length() {
    let mut characters: [String; 8] = std::array::from_fn(|_| String::new());
    let focus = distribute_response_code(&mut characters, 6, "xyTooLong");
    assert_eq!(characters[6], "X");
    assert_eq!(characters[7], "Y");
    assert_eq!(focus, 7);
}

#[test]
fn only_eight_alphanumeric_characters_are_a_short_request() {
    assert!(is_short_activation_code("AB12CD34"));
    assert!(!is_short_activation_code("AB12-CD34"));
    assert!(!is_short_activation_code("CSL1.long.request"));
}

#[test]
fn format_number_with_commas_formats_correctly() {
    assert_eq!(format_number_with_commas(0), "0");
    assert_eq!(format_number_with_commas(999), "999");
    assert_eq!(format_number_with_commas(1000), "1,000");
    assert_eq!(format_number_with_commas(70616), "70,616");
    assert_eq!(format_number_with_commas(1234567), "1,234,567");
}

/// The size as double-precision arithmetic and the standard formatter give it.
fn size_in_floats(bytes: u64) -> String {
    let units = ["B", "KB", "MB", "GB"];
    let mut size = bytes as f64;
    let mut unit = 0;
    while size >= 1024.0 && unit < units.len() - 1 {
        size /= 1024.0;
        unit += 1;
    }
    if unit == 0 {
        format!("{bytes} B")
    } else {
        format!("{size:.1} {}", units[unit])
    }
}

#[test]
fn sizes_agree_with_double_precision_arithmetic() {
    let mut samples: Vec<u64> = vec![0, 1, 1023, 1024, 1280, 1331, 1332, 1792, 1536, 1048575, 1048576];
    for shift in 0..64 {
        let base = 1u64 << shift;
        for delta in [0u64, 1, 2, 3, 51, 52, 53, 511, 1023, 1024, 1025, 4095, 4096] {
            samples.push(base.wrapping_add(delta));
            samples.push(base.wrapping_sub(delta));
            samples.push(base.wrapping_mul(3).wrapping_add(delta));
            samples.push((base / 20).wrapping_mul(21).wrapping_add(delta));
        }
    }
    samples.push(u64::MAX);
    let mut state: u64 = 0x9e37_79b9_7f4a_7c15;
    for _ in 0..20000 {
        state ^= state << 13;
        state ^= state >> 7;
        state ^= state << 17;
        samples.push(state);
        samples.push(state >> 20);
        samples.push(state >> 40);
    }
    for bytes in samples {
        assert_eq!(human_bytes(bytes), size_in_floats(bytes), "{bytes}");
    }
}

#[test]
fn sizes_read_well() {
    assert_eq!(human_bytes(0), "0 B");
    assert_eq!(human_bytes(1536), "1.5 KB");
    assert_eq!(human_bytes(1280), "1.2 KB");
    assert_eq!(human_bytes(5 * 1024 * 1024 * 1024), "5.0 GB");
}

#[test]
fn catalog_refresh_marker_prevents_rapid_restart_requests() {
    assert!(!refresh_marker_is_current(
        None,
        "0.1.0:anonymous",
        None,
        CATALOG_REFRESH_COOLDOWN
    ));
    let marker = Some("0.1.0:anonymous".to_owned());
    assert!(refresh_marker_is_current(
        marker.clone(),
        "0.1.0:anonymous",
        Some(SECOND),
        CATALOG_REFRESH_COOLDOWN
    ));
    assert!(!refresh_marker_is_current(
        marker,
        "0.1.0:authenticated",
        Some(SECOND),
        CATALOG_REFRESH_COOLDOWN
    ));
}

#[test]
fn an_old_marker_does_not_stand() {
    let marker = Some("0.1.0:anonymous".to_owned());
    assert!(refresh_marker_is_current(marker.clone(), "0.1.0:anonymous", Some(10), 10));
    assert!(!refresh_marker_is_current(marker.clone(), "0.1.0:anonymous", Some(11), 10));
    assert!(!refresh_marker_is_current(marker, "0.1.0:anonymous", None, 10));
}

#[test]
fn tools_and_soundtracks_are_no_games() {
    assert!(is_real_game(620, "Portal 2"));
    assert!(!is_real_game(228980, "Steamworks Common Redistributables"));
    assert!(!is_real_game(1, "STEAMWORKS Common Redistributables"));
    assert!(!is_real_game(2, "PROTON 9.0"));
}

#[test]
fn depot_paths_give_the_architecture_away() {
    let paths = |list: &[&str]| list.iter().map(|p| (*p).to_owned()).collect::<Vec<String>>();
    assert_eq!(arch_from_depot_paths(&paths(&["readme.txt", "Bin64/Game.exe"])), Some(PeArch::X64));
    assert_eq!(arch_from_depot_paths(&paths(&["bin/win32/game.dll"])), Some(PeArch::X86));
    assert_eq!(arch_from_depot_paths(&paths(&["bin/game.exe", "win64/data.pak"])), None);
}

#[test]
fn texts_are_cut_to_size() {
    assert_eq!(ellipsize("short", 10), "short");
    assert_eq!(ellipsize("abcdefghij", 5).chars().count(), 5);
    assert!(ellipsize("abcdefghij", 5).ends_with('…'));
    assert_eq!(ellipsize("abc", 1), "…");
    assert_eq!(ellipsize("abc", 0), "");
    assert!(tail("abcdefghij", 5).ends_with("ghij"));
    assert_eq!(tail("abc", 5), "abc");
    assert_eq!(group_thousands(1234567), format_number_with_commas(1234567).replace(',', &group_thousands(1000)[1..2]));
}

#[test]
fn missing_values_read_unknown() {
    assert_eq!(value_or_unknown("Valve"), "Valve");
    assert_eq!(value_or_unknown("   "), value_or_unknown(""));
    assert_eq!(joined_or_unknown(&vec!["A".to_owned(), "B".to_owned()]), "A, B");
    assert_eq!(joined_or_unknown(&Vec::new()), value_or_unknown(""));
}

#[test]
fn fragments_are_normalized() {
    assert_eq!(normalize_response_fragment(" ab-1é2 "), "AB12");
}

#[test]
fn artwork_is_found_by_app() {
    let urls = steam_artwork_urls(620);
    assert!(urls.iter().all(|url| url.contains("620")));
    assert!(artwork(620, "header.jpg").ends_with("/620/header.jpg"));
}

#[test]
fn a_fresh_list_spares_the_fetch() {
    assert_eq!(denuvo_appids_from_cache(false, Some(vec![1, 2])), Some(vec![1, 2]));
    assert_eq!(denuvo_appids_from_cache(true, Some(vec![1, 2])), None);
    assert_eq!(denuvo_appids_from_cache(false, None), None);
}

#[test]
fn a_stale_list_stands_in_for_a_failed_fetch() {
    assert_eq!(fetch_denuvo_appids(Ok(vec![3]), Some(vec![1])), Ok(vec![3]));
    assert_eq!(fetch_denuvo_appids(Err("down".to_owned()), Some(vec![1])), Ok(vec![1]));
    assert_eq!(fetch_denuvo_appids(Err("down".to_owned()), None), Err("down".to_owned()));
}

#[test]
fn blank_paths_are_absent() {
    assert_eq!(path_if_present("  C:\\Games \n"), Some("C:\\Games".to_owned()));
    assert_eq!(path_if_present("  \u{a0}\u{3000} "), None);
}

#[test]
fn a_token_authenticates() {
    assert_eq!(github_access_mode(Some("SECRET-REDACTED")), "authenticated");
    assert_eq!(github_access_mode(Some("  ")), "anonymous");
    assert_eq!(github_access_mode(None), "anonymous");
}

#[test]
fn a_restored_payload_counts_its_manifests() {
    let fail = || Err("denied".to_owned());
    assert_eq!(restore_payload_into_steam(true, true, fail(), Err("x".to_owned())), Ok((false, 0)));
    assert_eq!(restore_payload_into_steam(false, true, Ok(()), Ok(3)), Ok((true, 3)));
    assert_eq!(restore_payload_into_steam(false, false, fail(), Ok(2)), Ok((false, 2)));
    assert_eq!(restore_payload_into_steam(false, true, fail(), Ok(2)), Err("denied".to_owned()));
}

#[test]
fn the_note_tells_of_missing_manifests() {
    assert_eq!(
        added_note("Portal", &Ok(0)),
        "\"Portal\" added to Steam. No depot manifests were packaged for it."
    );
    assert_eq!(
        added_note("Portal", &Ok(2)),
        "\"Portal\" added to Steam, with 2 depot manifest(s) cached."
    );
    assert_eq!(
        added_note("Portal", &Err("down".to_owned())),
        "\"Portal\" added to Steam. Depot manifests could not be cached."
    );
}

#[test]
fn a_ubisoft_game_needs_a_folder_and_an_executable() {
    let exes = || Ok(vec!["game.exe".to_owned(), "other.exe".to_owned()]);
    assert_eq!(ubisoft_executable(true, exes()), Ok("game.exe".to_owned()));
    assert!(ubisoft_executable(false, exes()).is_err());
    assert!(ubisoft_executable(true, Ok(Vec::new())).is_err());
    assert!(ubisoft_executable(true, Err("down".to_owned())).is_err());
    assert_eq!(ubisoft_root(Some("C:\\Game".to_owned())), Ok("C:\\Game".to_owned()));
    assert!(ubisoft_root(None).is_err());
    assert_eq!(ubisoft_folder(Some("C:\\Game\\bin".to_owned())), Ok("C:\\Game\\bin".to_owned()));
    assert_eq!(
        ubisoft_folder(None),
        Err("Could not resolve the game executable's folder.".to_owned())
    );
}

#[test]
fn a_cooldown_runs_out() {
    assert!(due(None, 5, 10));
    assert!(!due(Some(5), 14, 10));
    assert!(due(Some(5), 15, 10));
}
