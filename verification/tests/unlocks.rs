use drydock_desktop::unlocks::{
    handle_app, install_own_unlock, lua_file_name, merge_own_unlock, update_unlocks,
    wanted_manifests, ManifestSet, NamedFile, OwnUnlock, StoredUnlock, SweepStage, UnlockFetch, UnlockUpdateSweep,
    UnlockWrites,
};
use drydock_desktop::guard::{plan_repair, AppLook, GuardSweep, Repair};
use std::collections::{BTreeMap, HashSet};

type Files = BTreeMap<String, Vec<u8>>;

fn manifests(names: &[&str]) -> Files {
    names.iter().map(|name| ((*name).to_owned(), b"manifest".to_vec())).collect()
}

fn set_of(files: &Files) -> ManifestSet {
    let mut set = ManifestSet::new();
    for (name, bytes) in files {
        set.insert(NamedFile { name: name.clone(), bytes: bytes.clone() });
    }
    set
}

fn names(set: &ManifestSet) -> Vec<String> {
    let mut list: Vec<String> = set.files.iter().map(|file| file.name.clone()).collect();
    list.sort();
    list
}

#[test]
fn only_changed_unlocks_still_in_steam_and_untouched_by_the_user_are_updated() {
    // The plug-in folder, the depot cache and the stored copies.
    let mut plugin: Files = BTreeMap::new();
    let mut depot: Files = BTreeMap::new();
    let mut store: BTreeMap<u32, (Vec<u8>, Files)> = BTreeMap::new();
    for app in [1, 2, 3] {
        plugin.insert(format!("{app}.lua"), b"old".to_vec());
        store.insert(app, (b"old".to_vec(), manifests(&["10_1.manifest"])));
    }
    let mut writes = UnlockWrites::default();
    writes.touch(1);
    let mut sweep = update_unlocks(vec![1, 2, 3, 4, 5, 6], &mut writes);
    while let Some(app) = sweep.current_app() {
        let answer = match app {
            1 => Ok(Some((b"new".to_vec(), manifests(&["10_2.manifest"])))),
            2 => Ok(Some((b"old".to_vec(), manifests(&["10_1.manifest"])))),
            3 => {
                // The user adds the cracked version while the sweep runs.
                writes.touch(3);
                Ok(Some((b"new".to_vec(), manifests(&["10_2.manifest"]))))
            }
            4 => Ok(Some((b"new".to_vec(), BTreeMap::new()))),
            5 => Ok(None),
            _ => Err("provider down".to_owned()),
        };
        sweep.fetched(match &answer {
            Ok(Some(_)) => UnlockFetch::Current,
            Ok(None) => UnlockFetch::Unpinned,
            Err(_) => UnlockFetch::Failed,
        });
        let Ok(Some((lua, files))) = answer else {
            continue;
        };
        sweep.compared(store.get(&app) != Some(&(lua.clone(), files.clone())));
        if sweep.stage != SweepStage::Check {
            continue;
        }
        let guard = writes.write().expect("nobody else writes");
        sweep.checked(&writes, &guard, plugin.contains_key(&lua_file_name(app)));
        if sweep.stage == SweepStage::Install {
            plugin.insert(lua_file_name(app), lua.clone());
            depot.extend(files.clone());
            store.insert(app, (lua, files));
            sweep.installed(&writes, &guard, true);
        }
        writes.release(guard);
    }
    assert_eq!(sweep.summary(), UnlockUpdateSweep { updated: vec![1], failed: 1 });
    assert_eq!(plugin["1.lua"], b"new");
    assert!(depot.contains_key("10_2.manifest"));
    assert_eq!(store[&1].0, b"new");
    assert_eq!(plugin["3.lua"], b"old");
    assert!(!plugin.contains_key("4.lua"));
}

#[test]
fn own_files_are_installed_and_merged_into_the_stored_copy() {
    let stored = StoredUnlock {
        lua: Some(NamedFile { name: "480.lua".to_owned(), bytes: b"stored".to_vec() }),
        manifests: set_of(&manifests(&["1_1.manifest"])),
    };
    let only_manifests = OwnUnlock {
        app_id: 480,
        lua: None,
        manifests: set_of(&manifests(&["2_2.manifest"])),
    };
    let note = install_own_unlock(false, Ok(()), Ok(1), Ok(()), "Game").unwrap();
    assert!(note.contains("1 depot manifest(s)"), "{note}");
    let stored = merge_own_unlock(stored, only_manifests);
    assert_eq!(names(&stored.manifests), ["1_1.manifest", "2_2.manifest"]);
    assert_eq!(stored.lua.as_ref().unwrap().bytes, b"stored");
    assert_eq!(stored.manifests.files.len(), 2);

    let with_lua = OwnUnlock {
        app_id: 480,
        lua: Some(b"addappid(480)".to_vec()),
        manifests: ManifestSet::new(),
    };
    install_own_unlock(true, Ok(()), Ok(0), Ok(()), "Game").unwrap();
    let merged = merge_own_unlock(stored, with_lua);
    let lua = merged.lua.unwrap();
    assert_eq!(lua.name, "480.lua");
    assert_eq!(lua.bytes, b"addappid(480)");
    assert_eq!(merged.manifests.files.len(), 2);
}

#[test]
fn the_first_failed_write_is_reported() {
    let denied = || Err("denied".to_owned());
    assert_eq!(install_own_unlock(true, denied(), Ok(1), Ok(()), "G"), Err("denied".to_owned()));
    assert_eq!(
        install_own_unlock(true, Ok(()), Err("full".to_owned()), Ok(()), "G"),
        Err("full".to_owned())
    );
    let note = install_own_unlock(true, Ok(()), Ok(2), Err("locked".to_owned()), "G").unwrap();
    assert_eq!(
        note,
        "Added your Lua and 2 depot manifest(s) for \"G\" to Steam. Automatic updates leave these \
         files alone. Drydock could not keep its own copy (locked), so reinstalling it will need the \
         files again."
    );
}

#[test]
fn a_second_writer_waits() {
    let mut writes = UnlockWrites::default();
    let guard = writes.write().unwrap();
    assert!(writes.write().is_none());
    writes.release(guard);
    assert!(writes.write().is_some());
}

#[test]
fn a_lost_right_is_granted_again() {
    let mut writes = UnlockWrites::default();
    writes.touch(7);
    drop(writes.write());
    assert!(writes.write().is_none());
    let guard = writes.reclaim();
    assert!(writes.write().is_none());
    assert!(writes.touched_apps().contains(&7));
    writes.release(guard);
    assert!(writes.write().is_some());
}

#[test]
fn marks_last_until_they_are_cleared() {
    let mut writes = UnlockWrites::default();
    writes.touch(7);
    assert!(writes.touched_apps().contains(&7));
    writes.clear_touched();
    assert!(writes.touched_apps().is_empty());
}

#[test]
fn an_empty_sweep_is_done_at_once() {
    let mut writes = UnlockWrites::default();
    let sweep = update_unlocks(Vec::new(), &mut writes);
    assert_eq!(sweep.stage, SweepStage::Done);
    assert!(!sweep.pauses());
    assert_eq!(sweep.summary(), UnlockUpdateSweep { updated: Vec::new(), failed: 0 });
}

#[test]
fn a_failed_write_counts_as_a_failure() {
    let mut writes = UnlockWrites::default();
    let mut sweep = update_unlocks(vec![9], &mut writes);
    sweep.fetched(UnlockFetch::Current);
    sweep.compared(true);
    let guard = writes.write().unwrap();
    sweep.checked(&writes, &guard, true);
    sweep.installed(&writes, &guard, false);
    writes.release(guard);
    assert_eq!(sweep.summary(), UnlockUpdateSweep { updated: Vec::new(), failed: 1 });
}

#[test]
fn only_missing_manifests_are_put_back() {
    let stored = set_of(&manifests(&["1_1.manifest", "2_2.manifest", "3_3.manifest"]));
    let missing = vec!["3_3.manifest".to_owned(), "9_9.manifest".to_owned()];
    assert_eq!(names(&wanted_manifests(stored, &missing)), ["3_3.manifest"]);
}

#[test]
fn a_guard_sweep_adds_up() {
    let mut sweep = GuardSweep::new();
    sweep.note(1, true, AppLook::NeverStored);
    sweep.note(2, false, AppLook::NeverStored);
    sweep.note(3, true, AppLook::Nothing);
    sweep.note(4, true, AppLook::PutBack(Ok(2)));
    sweep.note(5, true, AppLook::PutBack(Err("denied".to_owned())));
    assert_eq!(sweep.never_stored, [1]);
    assert_eq!(sweep.report(), (2, 1, None));
    let mut attempted: HashSet<u32> = HashSet::new();
    assert_eq!(sweep.app_to_fetch(&attempted), Some(1));
    attempted.insert(1);
    assert_eq!(sweep.app_to_fetch(&attempted), None);
    sweep.fetched(1, Ok(3));
    assert_eq!(sweep.report(), (5, 2, Some(1)));
    sweep.fetched(1, Err("down".to_owned()));
    assert_eq!(sweep.report(), (5, 2, Some(1)));
}

#[test]
fn an_app_is_handled_from_the_facts_about_it() {
    let mut writes = UnlockWrites::default();
    let mut sweep = update_unlocks(vec![1, 2, 3, 4, 5, 6], &mut writes);
    writes.touch(3);
    let guard = writes.write().unwrap();
    assert_eq!(sweep.stage, SweepStage::Fetch);
    handle_app(&mut sweep, &writes, &guard, UnlockFetch::Current, true, true, true);
    handle_app(&mut sweep, &writes, &guard, UnlockFetch::Current, false, true, true);
    handle_app(&mut sweep, &writes, &guard, UnlockFetch::Current, true, true, true);
    handle_app(&mut sweep, &writes, &guard, UnlockFetch::Current, true, false, true);
    handle_app(&mut sweep, &writes, &guard, UnlockFetch::Current, true, true, false);
    handle_app(&mut sweep, &writes, &guard, UnlockFetch::Failed, true, true, true);
    writes.release(guard);
    assert_eq!(sweep.current_app(), None);
    assert_eq!(sweep.summary(), UnlockUpdateSweep { updated: vec![1], failed: 2 });
}

#[test]
fn only_stored_manifests_are_put_back() {
    let stored = || set_of(&manifests(&["10_1.manifest", "10_2.manifest"]));
    assert!(matches!(
        plan_repair(ManifestSet::new(), &vec!["10_1.manifest".to_owned()]),
        Repair::NeverStored
    ));
    assert!(matches!(plan_repair(stored(), &Vec::new()), Repair::Nothing));
    assert!(matches!(plan_repair(stored(), &vec!["20_1.manifest".to_owned()]), Repair::Nothing));
    match plan_repair(stored(), &vec!["10_2.manifest".to_owned()]) {
        Repair::PutBack(set) => assert_eq!(names(&set), ["10_2.manifest"]),
        _ => panic!("a stored manifest is missing"),
    }
}
