//! What the unlocks that the library keeps promise: one writer at a time, updates that leave the
//! user's own work alone, and files that are put back as they were stored.
use crate::guard::{plan_repair, AppLook, GuardSweep, Repair};
use crate::text::{decimal, texts};
use crate::unlocks::{
    file_map_comes_from, file_map_holds, handle_app, install_own_unlock, lua_file_name,
    merge_own_unlock, only_updated_apps_are_reported, update_unlocks, wanted_manifests, ManifestSet,
    NamedFile, OwnUnlock, StoredUnlock, SweepStage, UnlockFetch, UnlockSweep, UnlockUpdateSweep,
    UnlockVerdict, UnlockWriteGuard, UnlockWrites,
};
use vstd::prelude::*;

verus! {

broadcast use vstd::std_specs::hash::group_hash_axioms;

/// Whether a list of files has a file of a name with these bytes.
pub open spec fn has_file(files: Seq<NamedFile>, name: Seq<char>, bytes: Seq<u8>) -> bool {
    exists|i: int| 0 <= i < files.len() && (#[trigger] files[i]).name@ == name && files[i].bytes@ == bytes
}

/// A set of files has the files of its list, by name.
proof fn a_set_has_its_files(set: ManifestSet, name: Seq<char>, bytes: Seq<u8>)
    requires
        set.wf(),
    ensures
        has_file(set.files@, name, bytes) <==> set@.contains_key(name) && set@[name] == bytes,
{
    let files = set.files@;
    if has_file(files, name, bytes) {
        let i = choose|i: int|
            0 <= i < files.len() && (#[trigger] files[i]).name@ == name && files[i].bytes@ == bytes;
        file_map_holds(files, i);
    }
    if set@.contains_key(name) && set@[name] == bytes {
        file_map_comes_from(files, name);
        let i = choose|i: int| 0 <= i < files.len() && #[trigger] files[i].name@ == name;
        file_map_holds(files, i);
        assert(files[i].name@ == name && files[i].bytes@ == bytes);
    }
}

/// A text is listed where one of the strings holds it.
proof fn a_listed_text_is_in_the_set(list: Seq<String>, text: Seq<char>)
    ensures
        texts(list).to_set().contains(text) <==> exists|i: int|
            0 <= i < list.len() && (#[trigger] list[i])@ == text,
{
    if texts(list).contains(text) {
        let i = choose|i: int| 0 <= i < texts(list).len() && texts(list)[i] == text;
        assert(list[i]@ == text);
    }
    if exists|i: int| 0 <= i < list.len() && (#[trigger] list[i])@ == text {
        let i = choose|i: int| 0 <= i < list.len() && (#[trigger] list[i])@ == text;
        assert(texts(list)[i] == text);
    }
}

/// Of the stored manifests exactly those that are missing are put back, with the bytes they had.
pub proof fn what_is_missing_is_put_back(
    stored: ManifestSet,
    missing: &Vec<String>,
    wanted: ManifestSet,
    name: Seq<char>,
    bytes: Seq<u8>,
)
    requires
        stored.wf(),
        call_ensures(wanted_manifests, (stored, missing), wanted),
    ensures
        has_file(wanted.files@, name, bytes) <==> has_file(stored.files@, name, bytes) && exists|
            i: int,
        | 0 <= i < missing@.len() && (#[trigger] missing@[i])@ == name,
{
    a_set_has_its_files(stored, name, bytes);
    a_set_has_its_files(wanted, name, bytes);
    a_listed_text_is_in_the_set(missing@, name);
}

/// A repair puts back the stored files that are missing. An app with nothing stored is known as one,
/// and where nothing that is stored is missing, nothing is done.
pub proof fn a_repair_puts_back_what_is_missing(
    stored: ManifestSet,
    missing: &Vec<String>,
    plan: Repair,
    name: Seq<char>,
    bytes: Seq<u8>,
)
    requires
        stored.wf(),
        call_ensures(plan_repair, (stored, missing), plan),
        has_file(stored.files@, name, bytes),
    ensures
        !(plan is NeverStored),
        (exists|i: int| 0 <= i < missing@.len() && (#[trigger] missing@[i])@ == name) ==> (
        plan matches Repair::PutBack(set) && has_file(set.files@, name, bytes)),
        !(exists|i: int| 0 <= i < missing@.len() && (#[trigger] missing@[i])@ == name) ==> (
        plan matches Repair::PutBack(set) ==> !has_file(set.files@, name, bytes)),
{
    a_set_has_its_files(stored, name, bytes);
    a_listed_text_is_in_the_set(missing@, name);
    let wanted = stored@.restrict(texts(missing@).to_set());
    if exists|i: int| 0 <= i < missing@.len() && (#[trigger] missing@[i])@ == name {
        assert(wanted.contains_key(name));
        assert(!Map::<Seq<char>, Seq<u8>>::empty().contains_key(name));
    }
    assert(!Map::<Seq<char>, Seq<u8>>::empty().contains_key(name));
    if let Repair::PutBack(set) = plan {
        a_set_has_its_files(set, name, bytes);
    }
}

/// An app without a stored file was never stored, and nothing is put back.
pub proof fn an_empty_store_is_known(stored: ManifestSet, missing: &Vec<String>, plan: Repair)
    requires
        stored.wf(),
        call_ensures(plan_repair, (stored, missing), plan),
        stored.files@.len() == 0,
    ensures
        plan is NeverStored,
{
    assert(stored@ =~= Map::<Seq<char>, Seq<u8>>::empty());
}

/// The user's own files take the place of the stored ones of their names; every other stored file
/// stays. A Lua of the user's own replaces the stored one, which stays where they brought none.
pub proof fn own_files_come_first(
    stored: StoredUnlock,
    unlock: OwnUnlock,
    merged: StoredUnlock,
    number: String,
    name: Seq<char>,
    bytes: Seq<u8>,
)
    requires
        stored.manifests.wf(),
        unlock.manifests.wf(),
        call_ensures(merge_own_unlock, (stored, unlock), merged),
        call_ensures(decimal, (unlock.app_id as u64,), number),
    ensures
        has_file(unlock.manifests.files@, name, bytes) ==> has_file(
            merged.manifests.files@,
            name,
            bytes,
        ),
        has_file(stored.manifests.files@, name, bytes) && (forall|i: int|
            0 <= i < unlock.manifests.files@.len() ==> (
            #[trigger] unlock.manifests.files@[i]).name@ != name) ==> has_file(
            merged.manifests.files@,
            name,
            bytes,
        ),
        has_file(merged.manifests.files@, name, bytes) ==> has_file(
            unlock.manifests.files@,
            name,
            bytes,
        ) || has_file(stored.manifests.files@, name, bytes),
        unlock.lua matches Some(lua) ==> merged.lua is Some && merged.lua->0.bytes@ == lua@,
        unlock.lua is None && stored.lua is Some ==> merged.lua is Some && merged.lua->0.bytes@
            == stored.lua->0.bytes@,
        unlock.lua is None && stored.lua is None ==> merged.lua is None,
        merged.lua matches Some(file) ==> file.name@ == number@ + ".lua"@,
{
    a_set_has_its_files(stored.manifests, name, bytes);
    a_set_has_its_files(unlock.manifests, name, bytes);
    a_set_has_its_files(merged.manifests, name, bytes);
    if unlock.manifests@.contains_key(name) {
        file_map_comes_from(unlock.manifests.files@, name);
        a_set_has_its_files(unlock.manifests, name, unlock.manifests@[name]);
    }
}

/// The Lua of an app is named by its number, so two apps have two names.
pub proof fn every_app_has_a_lua_of_its_own(
    one: u32,
    other: u32,
    name: String,
    second: String,
    number: String,
)
    requires
        call_ensures(lua_file_name, (one,), name),
        call_ensures(lua_file_name, (other,), second),
        call_ensures(decimal, (one as u64,), number),
    ensures
        name@ == number@ + ".lua"@,
        name@ == second@ ==> one == other,
{
    if name@ == second@ {
        let a = crate::text::decimal_text(one as nat);
        let b = crate::text::decimal_text(other as nat);
        assert(name@.len() == a.len() + ".lua"@.len());
        assert(second@.len() == b.len() + ".lua"@.len());
        assert(a =~= b) by {
            assert forall|i: int| 0 <= i < a.len() implies a[i] == b[i] by {
                assert((a + ".lua"@)[i] == a[i]);
                assert((b + ".lua"@)[i] == b[i]);
            }
        }
        crate::laws::text::decimal_text_has_its_value(one as nat);
        crate::laws::text::decimal_text_has_its_value(other as nat);
    }
}

/// Files of the user's own are added where both kinds could be put in place; the note then names the
/// game, and the reason of a failure is passed on.
pub proof fn own_files_are_all_put_in_place(
    has_lua: bool,
    lua: Result<(), String>,
    manifests: Result<usize, String>,
    saved: Result<(), String>,
    name: &str,
    note: Result<String, String>,
)
    requires
        call_ensures(install_own_unlock, (has_lua, lua, manifests, saved, name), note),
    ensures
        note is Ok <==> (!has_lua || lua is Ok) && manifests is Ok,
        note is Err ==> Err::<(), String>(note->Err_0) == lua || Err::<usize, String>(note->Err_0)
            == manifests,
        note matches Ok(text) ==> exists|a: Seq<char>, b: Seq<char>|
            text@ == #[trigger] (a + name@ + b),
        note is Ok && saved is Err ==> exists|a: Seq<char>, b: Seq<char>|
            note->Ok_0@ == #[trigger] (a + saved->Err_0@ + b),
        note is Ok && !has_lua ==> exists|b: Seq<char>|
            note->Ok_0@ == #[trigger] ("Added "@ + crate::text::decimal_text(
                manifests->Ok_0 as nat,
            ) + " depot manifest(s)"@ + b),
        note is Ok && has_lua && manifests->Ok_0 > 0 ==> exists|b: Seq<char>|
            note->Ok_0@ == #[trigger] ("Added "@ + "your Lua and "@ + crate::text::decimal_text(
                manifests->Ok_0 as nat,
            ) + " depot manifest(s)"@ + b),
        note is Ok && has_lua && manifests->Ok_0 == 0 ==> exists|b: Seq<char>|
            note->Ok_0@ == #[trigger] ("Added "@ + "your Lua"@ + b),
{
    if note is Ok {
        let files = "Added "@ + crate::unlocks::own_files_text(has_lua, manifests->Ok_0)
            + " for \""@;
        let rest = "\" to Steam. Automatic updates leave these files alone."@;
        let backup = crate::unlocks::backup_text(saved);
        assert(note->Ok_0@ =~= files + name@ + (rest + backup));
        let tail = " for \""@ + name@ + rest + backup;
        let count = crate::text::decimal_text(manifests->Ok_0 as nat);
        if !has_lua {
            assert(note->Ok_0@ =~= "Added "@ + count + " depot manifest(s)"@ + tail);
        } else if manifests->Ok_0 > 0 {
            assert(note->Ok_0@ =~= "Added "@ + "your Lua and "@ + count + " depot manifest(s)"@
                + tail);
        } else {
            assert(note->Ok_0@ =~= "Added "@ + "your Lua"@ + tail);
        }
        if let Err(error) = saved {
            let front = files + name@ + rest + " Drydock could not keep its own copy ("@;
            assert(note->Ok_0@ =~= front + error@
                + "), so reinstalling it will need the files again."@);
        }
    }
}

/// Nobody writes beside another: while one holds the right, a second is refused; after its release
/// the next is granted. The marks of the user stay through all of it.
pub proof fn one_writes_at_a_time(
    writes: &mut UnlockWrites,
    first: Option<UnlockWriteGuard>,
    again: &mut UnlockWrites,
    second: Option<UnlockWriteGuard>,
    done: &mut UnlockWrites,
    next: &mut UnlockWrites,
    third: Option<UnlockWriteGuard>,
    app_id: u32,
)
    requires
        !old(writes).is_held(),
        call_ensures(UnlockWrites::write, (writes,), first),
        *old(again) == *final(writes),
        call_ensures(UnlockWrites::write, (again,), second),
        *old(done) == *final(again),
        first is Some ==> call_ensures(UnlockWrites::release, (done, first->0), ()),
        *old(next) == *final(done),
        call_ensures(UnlockWrites::write, (next,), third),
    ensures
        first is Some,
        second is None,
        third is Some,
        third->0.turn() != first->0.turn(),
        final(next).touched_set().contains(app_id) <==> old(writes).touched_set().contains(app_id),
{
}

/// An app that was touched is marked, beside those that were marked before, until a sweep begins.
pub proof fn a_touched_app_is_marked(
    writes: &mut UnlockWrites,
    app_id: u32,
    other: u32,
    later: &mut UnlockWrites,
    apps: Vec<u32>,
    sweep: UnlockSweep,
)
    requires
        call_ensures(UnlockWrites::touch, (writes, app_id), ()),
        other != app_id,
        *old(later) == *final(writes),
        call_ensures(update_unlocks, (apps, later), sweep),
    ensures
        final(writes).touched_set().contains(app_id),
        final(writes).touched_set().contains(other) <==> old(writes).touched_set().contains(other),
        final(writes).is_held() == old(writes).is_held(),
        !final(later).touched_set().contains(app_id),
        !final(later).touched_set().contains(other),
        sweep.apps@ == apps@,
        sweep.verdicts@.len() == 0,
        sweep.stage == SweepStage::Done <==> apps@.len() == 0,
{
}

/// An app in a sweep is written exactly where its newer files were fetched, differ, and the user
/// neither touched nor removed it meanwhile. Each app gets one verdict, in order.
pub proof fn a_sweep_leaves_the_users_work_alone(
    sweep: &mut UnlockSweep,
    writes: &UnlockWrites,
    guard: &UnlockWriteGuard,
    fetch: UnlockFetch,
    differs: bool,
    in_steam: bool,
    written: bool,
)
    requires
        old(sweep).wf(),
        old(sweep).stage == SweepStage::Fetch,
        call_ensures(
            handle_app,
            (sweep, writes, guard, fetch, differs, in_steam, written),
            (),
        ),
    ensures
        ({
            let app_id = old(sweep).apps@[old(sweep).verdicts@.len() as int];
            let touched = writes.touched_set().contains(app_id);
            let verdict = final(sweep).verdicts@.last();
            &&& final(sweep).verdicts@.len() == old(sweep).verdicts@.len() + 1
            &&& forall|i: int|
                0 <= i < old(sweep).verdicts@.len() ==> #[trigger] final(sweep).verdicts@[i]
                    == old(sweep).verdicts@[i]
            &&& final(sweep).apps == old(sweep).apps
            &&& verdict == UnlockVerdict::Updated <==> fetch == UnlockFetch::Current && differs
                && !touched && in_steam && written
            &&& verdict == UnlockVerdict::Failed <==> fetch == UnlockFetch::Failed || (fetch
                == UnlockFetch::Current && differs && !touched && in_steam && !written)
            &&& final(sweep).stage == SweepStage::Done <==> final(sweep).verdicts@.len()
                == final(sweep).apps@.len()
        }),
{
}

/// Step by step a sweep stops at the first reason to leave an app alone, and installs only after
/// the last.
pub proof fn a_sweep_goes_step_by_step(
    fetching: &mut UnlockSweep,
    fetch: UnlockFetch,
    comparing: &mut UnlockSweep,
    differs: bool,
    checking: &mut UnlockSweep,
    writes: &UnlockWrites,
    guard: &UnlockWriteGuard,
    in_steam: bool,
)
    requires
        old(fetching).wf(),
        old(fetching).stage == SweepStage::Fetch,
        call_ensures(UnlockSweep::fetched, (fetching, fetch), ()),
        old(comparing).wf(),
        old(comparing).stage == SweepStage::Compare,
        call_ensures(UnlockSweep::compared, (comparing, differs), ()),
        old(checking).wf(),
        old(checking).stage == SweepStage::Check,
        call_ensures(UnlockSweep::checked, (checking, writes, guard, in_steam), ()),
    ensures
        final(fetching).stage == SweepStage::Compare <==> fetch == UnlockFetch::Current,
        fetch == UnlockFetch::Current ==> final(fetching).verdicts@ == old(fetching).verdicts@,
        differs ==> final(comparing).verdicts@ == old(comparing).verdicts@,
        final(checking).stage == SweepStage::Install ==> final(checking).verdicts@
            == old(checking).verdicts@,
        final(fetching).apps == old(fetching).apps,
        final(comparing).apps == old(comparing).apps,
        final(checking).apps == old(checking).apps,
        final(comparing).stage == SweepStage::Check <==> differs,
        final(checking).stage == SweepStage::Install <==> in_steam
            && !writes.touched_set().contains(
            old(checking).apps@[old(checking).verdicts@.len() as int],
        ),
        final(checking).stage != SweepStage::Install ==> final(checking).verdicts@.last()
            == UnlockVerdict::LeftAlone,
        !differs ==> final(comparing).verdicts@.last() == UnlockVerdict::LeftAlone,
{
}

/// A sweep reports every app that it updated and no other, and how many failed.
pub proof fn a_sweep_reports_what_it_did(
    sweep: &UnlockSweep,
    report: UnlockUpdateSweep,
    app_id: u32,
)
    requires
        sweep.wf(),
        call_ensures(UnlockSweep::summary, (sweep,), report),
    ensures
        report.updated@.contains(app_id) <==> exists|i: int|
            0 <= i < sweep.verdicts@.len() && #[trigger] sweep.verdicts@[i]
                == UnlockVerdict::Updated && sweep.apps@[i] == app_id,
        report.failed == sweep.verdicts@.filter(
            |verdict: UnlockVerdict| verdict == UnlockVerdict::Failed,
        ).len(),
{
    only_updated_apps_are_reported(sweep.apps@, sweep.verdicts@, app_id);
    failed_verdicts_are_counted(sweep.verdicts@);
}

proof fn failed_verdicts_are_counted(verdicts: Seq<UnlockVerdict>)
    ensures
        crate::unlocks::failures(verdicts) == verdicts.filter(
            |verdict: UnlockVerdict| verdict == UnlockVerdict::Failed,
        ).len(),
    decreases verdicts.len(),
{
    reveal(Seq::filter);
    if verdicts.len() > 0 {
        failed_verdicts_are_counted(verdicts.drop_last());
    }
}

/// The sweep over Steam's depots counts what was put back, app by app, and remembers whom there was
/// nothing stored of, where the files are not the user's own.
pub proof fn a_guard_counts_what_it_put_back(
    sweep: &mut GuardSweep,
    app_id: u32,
    from_provider: bool,
    look: AppLook,
    after: &GuardSweep,
    before: (usize, usize, Option<u32>),
    report: (usize, usize, Option<u32>),
)
    requires
        call_ensures(GuardSweep::note, (sweep, app_id, from_provider, look), ()),
        *after == *final(sweep),
        call_ensures(GuardSweep::report, (&*old(sweep),), before),
        call_ensures(GuardSweep::report, (after,), report),
    ensures
        look matches AppLook::PutBack(Ok(count)) ==> report.0 == before.0 + count && report.1
            == before.1 + 1 && final(sweep).repaired@.last() == app_id,
        !(look matches AppLook::PutBack(Ok(_))) ==> report.0 == before.0 && report.1 == before.1,
        report.2 == before.2,
        look is NeverStored && from_provider ==> final(sweep).never_stored@.last() == app_id
            && final(sweep).never_stored@.len() == old(sweep).never_stored@.len() + 1,
        !(look is NeverStored && from_provider) ==> final(sweep).never_stored@
            == old(sweep).never_stored@,
{
}

/// A fetch is remembered as tried, and counted where it brought something.
pub proof fn a_fetch_is_remembered(
    sweep: &mut GuardSweep,
    app_id: u32,
    count: Result<usize, String>,
    after: &GuardSweep,
    before: (usize, usize, Option<u32>),
    report: (usize, usize, Option<u32>),
)
    requires
        call_ensures(GuardSweep::fetched, (sweep, app_id, count), ()),
        *after == *final(sweep),
        call_ensures(GuardSweep::report, (&*old(sweep),), before),
        call_ensures(GuardSweep::report, (after,), report),
    ensures
        report.2 == Some(app_id),
        count matches Ok(n) ==> report.0 == before.0 + n && report.1 == before.1 + 1,
        count is Err ==> report.0 == before.0 && report.1 == before.1,
{
}

} // verus!
