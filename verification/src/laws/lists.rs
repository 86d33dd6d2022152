//! What the library's lists promise: numbers and names in order, the tags that occur most, and the
//! games that a catalog finds.
use crate::catalog::{
    first_kept, is_repacked, kept_places_ascend, lists_name, matches_query, Catalog,
};
use crate::ids::{id_set, set_ids, sorted_distinct, table_ids};
use crate::laws::store::{a_kept_place_is_listed_or_the_list_is_full, has_or_is_full};
use crate::laws::text::a_part_is_found_wherever_it_stands;
use crate::order::{precedes_is_irreflexive, sorted_order, sorted_unique};
use crate::state::{AddedAppState, DrydockApp, UnlockSource};
use crate::steam::source_of;
use crate::tags::frequent_tags;
use crate::text::{chars_of, decimal, decimal_wide, no_text, precedes, same_text, string_of, texts};
use crate::tools::count_occurrences;
use crate::types::{CatalogApp, FixEntry, FixFilter, RepackApp, RepackFilter};
use std::collections::{BTreeMap, BTreeSet, HashMap, HashSet};
use vstd::prelude::*;

verus! {

broadcast use vstd::std_specs::hash::group_hash_axioms;

/// The numbers of a table, of a set or of a list with repetitions come out rising, each once, and no
/// other with them.
pub proof fn numbers_come_out_in_order(
    table: &BTreeMap<u32, String>,
    keys: Vec<u32>,
    set: &BTreeSet<u32>,
    members: Vec<u32>,
    list: &Vec<u32>,
    distinct: Vec<u32>,
    hashed: HashSet<u32>,
    id: u32,
    i: int,
)
    requires
        call_ensures(table_ids, (table,), keys),
        call_ensures(set_ids, (set,), members),
        call_ensures(sorted_distinct, (list,), distinct),
        call_ensures(id_set, (list,), hashed),
    ensures
        keys@.contains(id) <==> table@.contains_key(id),
        members@.contains(id) <==> set@.contains(id),
        distinct@.contains(id) <==> list@.contains(id),
        hashed@.contains(id) <==> list@.contains(id),
        0 < i < keys@.len() ==> keys@[i - 1] < keys@[i],
        0 < i < members@.len() ==> members@[i - 1] < members@[i],
        0 < i < distinct@.len() ==> distinct@[i - 1] < distinct@[i],
{
    assert(keys@.to_set().contains(id) <==> keys@.contains(id));
    assert(table@.dom().contains(id) <==> table@.contains_key(id));
    assert(members@.to_set().contains(id) <==> members@.contains(id));
    assert(distinct@.to_set().contains(id) <==> distinct@.contains(id));
    assert(list@.to_set().contains(id) <==> list@.contains(id));
}

/// A list is sorted by its keys without losing or repeating a place, and equal keys keep their order.
pub proof fn places_are_sorted_by_their_keys(
    keys: &Vec<String>,
    order: Vec<usize>,
    i: int,
    j: int,
    place: usize,
)
    requires
        call_ensures(sorted_order, (keys,), order),
    ensures
        order@.len() == keys@.len(),
        0 <= i < order@.len() ==> order@[i] < keys@.len(),
        0 <= place < keys@.len() ==> order@.contains(place),
        0 <= i < j < order@.len() ==> order@[i] != order@[j],
        0 <= i < j < order@.len() ==> !precedes(
            keys@[order@[j] as int]@,
            keys@[order@[i] as int]@,
        ),
        0 <= i < j < order@.len() && keys@[order@[i] as int]@ == keys@[order@[j] as int]@
            ==> order@[i] < order@[j],
{
    let all = texts(keys@);
    if 0 <= i < order@.len() {
        assert(0 <= order@[i] < keys@.len());
    }
    if 0 <= i < j < order@.len() {
        let a = order@[i] as int;
        let b = order@[j] as int;
        assert(0 <= order@[j] < keys@.len());
        assert(crate::order::comes_before(all, a, b));
        assert(all[a] == keys@[a]@ && all[b] == keys@[b]@);
        precedes_is_irreflexive(all[a]);
        if precedes(all[b], all[a]) {
            if precedes(all[a], all[b]) {
                crate::order::precedes_is_transitive(all[a], all[b], all[a]);
            }
        }
    }
}

/// A list of names is sorted with each name once, and none is lost.
pub proof fn names_come_out_in_order(
    names: &Vec<String>,
    list: Vec<String>,
    name: Seq<char>,
    i: int,
    j: int,
)
    requires
        call_ensures(sorted_unique, (names,), list),
    ensures
        (exists|k: int| 0 <= k < list@.len() && (#[trigger] list@[k])@ == name) <==> (exists|k: int|
            0 <= k < names@.len() && (#[trigger] names@[k])@ == name),
        0 <= i < j < list@.len() ==> precedes(list@[i]@, list@[j]@) && list@[i]@ != list@[j]@,
{
    a_text_is_in_the_set(list@, name);
    a_text_is_in_the_set(names@, name);
    if 0 <= i < j < list@.len() {
        assert(precedes(texts(list@)[i], texts(list@)[j]));
        assert(texts(list@)[i] == list@[i]@ && texts(list@)[j] == list@[j]@);
        precedes_is_irreflexive(list@[i]@);
    }
}

proof fn a_text_is_in_the_set(list: Seq<String>, text: Seq<char>)
    ensures
        texts(list).to_set().contains(text) <==> exists|i: int|
            0 <= i < list.len() && (#[trigger] list[i])@ == text,
        texts(list).contains(text) <==> exists|i: int|
            0 <= i < list.len() && (#[trigger] list[i])@ == text,
{
    if texts(list).contains(text) {
        let i = choose|i: int| 0 <= i < texts(list).len() && texts(list)[i] == text;
        assert(list[i]@ == text);
    }
    if exists|i: int| 0 <= i < list.len() && (#[trigger] list[i])@ == text {
        let i = choose|i: int| 0 <= i < list.len() && (#[trigger] list[i])@ == text;
        assert(texts(list)[i] == text);
    }
}

/// The test whether a text is a tag.
pub open spec fn is_tag(tag: Seq<char>) -> spec_fn(String) -> bool {
    |held: String| held@ == tag
}

/// How often a tag stands among the tags of a list of games.
pub open spec fn tagged(apps: Seq<CatalogApp>, tag: Seq<char>) -> nat
    decreases apps.len(),
{
    if apps.len() == 0 {
        0
    } else {
        tagged(apps.drop_last(), tag) + apps.last().tags@.filter(is_tag(tag)).len()
    }
}

proof fn tags_are_counted(list: Seq<Seq<char>>, more: Seq<String>, tag: Seq<char>)
    ensures
        crate::tags::occurrences(list + texts(more), tag) == crate::tags::occurrences(list, tag)
            + more.filter(is_tag(tag)).len(),
    decreases more.len(),
{
    reveal(Seq::filter);
    if more.len() == 0 {
        assert(list + texts(more) =~= list);
    } else {
        tags_are_counted(list, more.drop_last(), tag);
        let all = list + texts(more);
        assert(all.last() == more.last()@);
        assert(all.drop_last() =~= list + texts(more.drop_last()));
    }
}

proof fn tags_of_games_are_counted(apps: Seq<CatalogApp>, tag: Seq<char>)
    ensures
        crate::tags::occurrences(crate::tags::all_tags(apps), tag) == tagged(apps, tag),
    decreases apps.len(),
{
    if apps.len() > 0 {
        tags_of_games_are_counted(apps.drop_last(), tag);
        tags_are_counted(crate::tags::all_tags(apps.drop_last()), apps.last().tags@, tag);
    }
}

/// A tag is offered where twenty games or more have it, the most frequent first and those that are
/// equally frequent by name. Forty are offered at most, and what is left out is no more frequent.
pub proof fn frequent_tags_are_offered(
    apps: &Vec<CatalogApp>,
    list: Vec<String>,
    tag: Seq<char>,
    i: int,
    j: int,
)
    requires
        call_ensures(frequent_tags, (apps,), list),
    ensures
        list@.len() <= 40,
        0 <= i < list@.len() ==> tagged(apps@, list@[i]@) >= 20,
        0 <= i < j < list@.len() ==> tagged(apps@, list@[i]@) >= tagged(apps@, list@[j]@),
        0 <= i < j < list@.len() && tagged(apps@, list@[i]@) == tagged(apps@, list@[j]@)
            ==> precedes(list@[i]@, list@[j]@),
        tagged(apps@, tag) >= 20 ==> (exists|k: int|
            0 <= k < list@.len() && (#[trigger] list@[k])@ == tag) || list@.len() == 40,
        tagged(apps@, tag) >= 20 && 0 <= i < list@.len() && !(exists|k: int|
            0 <= k < list@.len() && (#[trigger] list@[k])@ == tag) ==> tagged(apps@, list@[i]@)
            >= tagged(apps@, tag),
{
    let all = crate::tags::all_tags(apps@);
    let names = texts(list@);
    assert(names.len() == list@.len());
    tags_of_games_are_counted(apps@, tag);
    a_text_is_in_the_set(list@, tag);
    assert(crate::tags::occurrences(all, tag) == tagged(apps@, tag));
    if 0 <= i < list@.len() {
        assert(names[i] == list@[i]@);
        tags_of_games_are_counted(apps@, names[i]);
        assert(crate::tags::occurrences(all, names[i]) >= 20);
    }
    if 0 <= i < j < list@.len() {
        assert(names[j] == list@[j]@);
        tags_of_games_are_counted(apps@, names[j]);
        assert(crate::tags::ranks_before(all, names[i], names[j]));
    }
    if tagged(apps@, tag) >= 20 && !names.contains(tag) && 0 <= i < list@.len() {
        assert(crate::tags::ranks_before(all, names[i], tag));
    }
}

/// A new catalog has its games and nothing beside them: no filter, no fix, no repack, no watch list.
/// A game is in it exactly where it is in its list.
pub proof fn a_new_catalog_has_its_games(apps: Vec<CatalogApp>, catalog: Catalog, app_id: u32)
    requires
        call_ensures(Catalog::new, (apps,), catalog),
    ensures
        catalog.apps == apps,
        catalog.ids@.contains(app_id) <==> exists|i: int|
            0 <= i < apps@.len() && (#[trigger] apps@[i]).app_id == app_id,
        catalog.selected_tag is None,
        catalog.fix_filter == FixFilter::Any,
        catalog.repack_filter == RepackFilter::Any,
        !catalog.denuvo_loaded && !catalog.fixes_loaded && !catalog.repacks_loaded,
        !catalog.denuvo_appids@.contains(app_id),
        catalog.fixes@.len() == 0 && catalog.repacks@.len() == 0,
{
    reveal(Catalog::wf);
    assert(catalog.ids@ == crate::catalog::app_ids(apps@).to_set());
    known_means_listed(apps@, app_id);
}

proof fn known_means_listed(apps: Seq<CatalogApp>, app_id: u32)
    ensures
        crate::catalog::app_ids(apps).to_set().contains(app_id) <==> exists|i: int|
            0 <= i < apps.len() && (#[trigger] apps[i]).app_id == app_id,
{
    let ids = crate::catalog::app_ids(apps);
    if ids.contains(app_id) {
        let i = choose|i: int| 0 <= i < ids.len() && ids[i] == app_id;
        assert(apps[i].app_id == app_id);
    }
    if exists|i: int| 0 <= i < apps.len() && (#[trigger] apps[i]).app_id == app_id {
        let i = choose|i: int| 0 <= i < apps.len() && (#[trigger] apps[i]).app_id == app_id;
        assert(ids[i] == app_id);
    }
}

/// After the games changed, the games that are known are those of the list, and nothing else of the
/// catalog changes but the tags.
pub proof fn the_known_games_follow_the_list(catalog: &mut Catalog, app_id: u32)
    requires
        call_ensures(Catalog::recompute_tags, (catalog,), ()),
    ensures
        final(catalog).apps == old(catalog).apps,
        final(catalog).ids@.contains(app_id) <==> exists|i: int|
            0 <= i < old(catalog).apps@.len() && (#[trigger] old(catalog).apps@[i]).app_id
                == app_id,
        final(catalog).fixes == old(catalog).fixes,
        final(catalog).repacks == old(catalog).repacks,
        final(catalog).denuvo_appids == old(catalog).denuvo_appids,
        final(catalog).repack_filter == old(catalog).repack_filter,
        final(catalog).selected_tag is None || final(catalog).selected_tag
            == old(catalog).selected_tag,
{
    known_means_listed(old(catalog).apps@, app_id);
}

/// A fix or a repack of an app is the first that the list has of it.
pub proof fn the_first_entry_counts(
    catalog: &Catalog,
    app_id: u32,
    fix: Option<&FixEntry>,
    repack: Option<&RepackApp>,
    m: int,
    n: int,
)
    requires
        call_ensures(Catalog::fix_for, (catalog, app_id), fix),
        call_ensures(Catalog::repack_for, (catalog, app_id), repack),
    ensures
        0 <= m < catalog.fixes@.len() && catalog.fixes@[m].app_id == app_id && (forall|k: int|
            0 <= k < m ==> (#[trigger] catalog.fixes@[k]).app_id != app_id) ==> fix is Some
            && *fix->0 == catalog.fixes@[m],
        0 <= n < catalog.repacks@.len() && catalog.repacks@[n].app_id == app_id && (forall|k: int|
            0 <= k < n ==> (#[trigger] catalog.repacks@[k]).app_id != app_id) ==> repack is Some
            && *repack->0 == catalog.repacks@[n],
        fix matches Some(fix) ==> fix.app_id == app_id,
        repack matches Some(repack) ==> repack.app_id == app_id,
{
    let fixes = crate::catalog::fix_ids(catalog.fixes@);
    let repacks = crate::catalog::repack_ids(catalog.repacks@);
    assert forall|i: int| #[trigger] crate::catalog::first_at(fixes, app_id, i) implies (
    catalog.fixes@[i]).app_id == app_id by {
        assert(fixes[i] == catalog.fixes@[i].app_id);
    }
    assert forall|i: int| #[trigger] crate::catalog::first_at(repacks, app_id, i) implies (
    catalog.repacks@[i]).app_id == app_id by {
        assert(repacks[i] == catalog.repacks@[i].app_id);
    }
    if 0 <= m < catalog.fixes@.len() && catalog.fixes@[m].app_id == app_id && (forall|k: int|
        0 <= k < m ==> (#[trigger] catalog.fixes@[k]).app_id != app_id) {
        assert(fixes[m] == app_id);
        assert(fixes.contains(app_id));
        assert forall|i: int| #[trigger] crate::catalog::first_at(fixes, app_id, i) implies i
            == m by {
            if i < m {
                assert(catalog.fixes@[i].app_id != app_id);
            }
            if i > m {
                assert(fixes[m] != app_id);
            }
        }
    }
    if 0 <= n < catalog.repacks@.len() && catalog.repacks@[n].app_id == app_id && (forall|k: int|
        0 <= k < n ==> (#[trigger] catalog.repacks@[k]).app_id != app_id) {
        assert(repacks[n] == app_id);
        assert(repacks.contains(app_id));
        assert forall|i: int| #[trigger] crate::catalog::first_at(repacks, app_id, i) implies i
            == n by {
            if i < n {
                assert(catalog.repacks@[i].app_id != app_id);
            }
            if i > n {
                assert(repacks[n] != app_id);
            }
        }
    }
}

/// The games among a set of numbers are listed in the catalog's order, up to the limit.
pub proof fn games_of_a_set_are_listed(
    catalog: &Catalog,
    ids: &HashSet<u32>,
    limit: usize,
    places: Vec<usize>,
    at: int,
    i: int,
)
    requires
        call_ensures(Catalog::games_among, (catalog, ids, limit), places),
        catalog.apps@.len() <= usize::MAX,
        0 <= at < catalog.apps@.len(),
    ensures
        ids@.contains(catalog.apps@[at].app_id) ==> has_or_is_full(places@, at, limit as nat),
        places@.len() <= limit,
        0 <= i < places@.len() ==> places@[i] < catalog.apps@.len() && ids@.contains(
            catalog.apps@[places@[i] as int].app_id,
        ),
        0 < i < places@.len() ==> places@[i - 1] < places@[i],
{
    let keep = |k: int| ids@.contains(catalog.apps@[k].app_id);
    kept_places_ascend(catalog.apps@.len(), keep, limit as nat);
    if keep(at) {
        a_kept_place_is_listed_or_the_list_is_full(catalog.apps@.len(), keep, limit as nat, at);
    }
    if 0 <= i < places@.len() {
        assert(first_kept(catalog.apps@.len(), keep, limit as nat)[i] < catalog.apps@.len());
        assert(keep(places@[i] as int));
    }
}

/// A query is found in a name or a number wherever it stands.
pub proof fn a_query_is_found_anywhere(
    lower: &str,
    app_id: u32,
    query: &str,
    found: bool,
    number: String,
)
    requires
        call_ensures(matches_query, (lower, app_id, query), found),
        call_ensures(decimal, (app_id as u64,), number),
    ensures
        found <==> (exists|a: Seq<char>, b: Seq<char>| lower@ == #[trigger] (a + query@ + b)) || (
        exists|a: Seq<char>, b: Seq<char>| number@ == #[trigger] (a + query@ + b)),
{
    a_part_is_found_wherever_it_stands(lower@, query@);
    a_part_is_found_wherever_it_stands(number@, query@);
}

/// A name is listed where one of the names is it; an app is repacked where the table has a repacker
/// of it.
pub proof fn names_are_looked_up(
    names: &Vec<String>,
    name: &String,
    found: bool,
    table: &HashMap<u32, Vec<String>>,
    app_id: u32,
    repacked: bool,
)
    requires
        call_ensures(lists_name, (names, name), found),
        call_ensures(is_repacked, (table, app_id), repacked),
    ensures
        found <==> exists|i: int| 0 <= i < names@.len() && (#[trigger] names@[i])@ == name@,
        repacked <==> table@.contains_key(app_id) && table@[app_id]@.len() > 0,
{
    a_text_is_in_the_set(names@, name@);
}

/// A part is counted each time that it is met, one after the other, and a text without it counts
/// none.
pub proof fn parts_are_counted_one_by_one(
    text: &str,
    part: &str,
    count: usize,
    rest: &str,
    fewer: usize,
    longer: &str,
    same: usize,
    c: char,
)
    requires
        part@.len() > 0,
        call_ensures(count_occurrences, (text, part), count),
        call_ensures(count_occurrences, (rest, part), fewer),
        text@ == part@ + rest@,
        call_ensures(count_occurrences, (longer, part), same),
        longer@.len() < part@.len(),
    ensures
        count == fewer + 1,
        same == 0,
{
    assert(text@.take(part@.len() as int) =~= part@);
    assert(text@.skip(part@.len() as int) =~= rest@);
}

/// A text is taken apart and put together again without loss, and compared character by character.
pub proof fn texts_are_taken_apart_and_put_together(
    text: &str,
    list: Vec<char>,
    back: String,
    other: &str,
    same: bool,
    none: bool,
    n: u128,
    wide: String,
)
    requires
        call_ensures(chars_of, (text,), list),
        call_ensures(string_of, (&list,), back),
        call_ensures(same_text, (text, other), same),
        call_ensures(no_text, (text,), none),
        call_ensures(decimal_wide, (n,), wide),
    ensures
        back@ == text@,
        list@.len() == text@.len(),
        same <==> text@ == other@,
        none <==> text@.len() == 0,
        crate::text::all_digits(wide@),
        crate::text::digits_value(wide@) == n,
{
    crate::laws::text::decimal_text_has_its_value(n as nat);
}

/// Where an unlock came from is what was recorded of it.
pub proof fn the_recorded_source_is_known(
    added: &BTreeMap<u32, AddedAppState>,
    app_id: u32,
    source: Option<UnlockSource>,
)
    requires
        call_ensures(source_of, (added, app_id), source),
    ensures
        added@.contains_key(app_id) ==> source == added@[app_id].source,
        !added@.contains_key(app_id) ==> source is None,
{
}

/// Files of the user's own may be added while Steam is found and nothing else of it runs; where Steam
/// is missing, that is told.
pub proof fn own_files_need_steam(app: &mut DrydockApp, allowed: bool)
    requires
        call_ensures(DrydockApp::may_add_own_unlock, (app,), allowed),
    ensures
        allowed <==> old(app).steam.root is Some && !old(app).steam_jobs.service,
        old(app).steam.root is None ==> final(app).line.error,
        old(app).steam.root is Some ==> final(app).line == old(app).line,
        final(app).settings == old(app).settings,
{
}

/// A cracked version is offered where the first fix entry of the app has one, and nowhere else.
pub proof fn the_first_fix_decides(catalog: &Catalog, app_id: u32, offered: bool, m: int)
    requires
        call_ensures(Catalog::has_denuvo_fix, (catalog, app_id), offered),
    ensures
        0 <= m < catalog.fixes@.len() && catalog.fixes@[m].app_id == app_id && (forall|k: int|
            0 <= k < m ==> (#[trigger] catalog.fixes@[k]).app_id != app_id) ==> offered
            == catalog.fixes@[m].denuvo,
        (forall|k: int|
            0 <= k < catalog.fixes@.len() ==> (#[trigger] catalog.fixes@[k]).app_id != app_id)
            ==> !offered,
{
    let ids = crate::catalog::fix_ids(catalog.fixes@);
    if 0 <= m < catalog.fixes@.len() && catalog.fixes@[m].app_id == app_id && (forall|k: int|
        0 <= k < m ==> (#[trigger] catalog.fixes@[k]).app_id != app_id) {
        assert(ids[m] == app_id);
        assert forall|k: int| 0 <= k < m implies ids[k] != app_id by {
            assert(catalog.fixes@[k].app_id != app_id);
        }
        assert(crate::catalog::first_at(ids, app_id, m));
        assert forall|i: int| #[trigger] crate::catalog::first_at(ids, app_id, i) implies i == m by {
            if i < m {
                assert(catalog.fixes@[i].app_id != app_id);
            }
            if i > m {
                assert(ids[m] != app_id);
            }
        }
    }
    if forall|k: int|
        0 <= k < catalog.fixes@.len() ==> (#[trigger] catalog.fixes@[k]).app_id != app_id {
        assert forall|i: int| !#[trigger] crate::catalog::first_at(ids, app_id, i) by {
            if 0 <= i < ids.len() {
                assert(catalog.fixes@[i].app_id != app_id);
            }
        }
    }
}

} // verus!
