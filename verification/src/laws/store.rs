//! What the store promises: the search finds every game it should and no other, the filters and
//! lists go by what was loaded, and everything on offer is in the catalog.
use crate::catalog::{
    catalog_matches_filters, denuvo_fixed, display_name, first_kept, found_by, kept_places_ascend,
    kept_places_are_listed, repackers_of, Catalog,
};
use crate::home::{by_name, GameList, LIST_LIMIT, RESULT_LIMIT};
use crate::laws::text::{
    a_part_is_found_wherever_it_stands, core_is_left, is_padding, is_tight,
};
use crate::order::orders;
use crate::state::DrydockApp;
use crate::text::{decimal, lowercase, precedes, texts, trimmed};
use crate::types::{CatalogApp, FixEntry, FixFilter, RepackApp, RepackFilter, StoreCapsule};
use std::collections::{HashMap, HashSet};
use vstd::prelude::*;

verus! {

/// A place that is kept is listed, unless the list is full with places before it.
pub proof fn a_kept_place_is_listed_or_the_list_is_full(
    n: nat,
    keep: spec_fn(int) -> bool,
    limit: nat,
    at: int,
)
    requires
        n <= usize::MAX,
        0 <= at < n,
        keep(at),
    ensures
        ({
            let list = first_kept(n, keep, limit);
            list.contains(at as usize) || list.len() == limit && forall|i: int|
                0 <= i < list.len() ==> #[trigger] list[i] < at
        }),
    decreases n,
{
    let list = first_kept(n, keep, limit);
    let before = first_kept((n - 1) as nat, keep, limit);
    kept_places_ascend((n - 1) as nat, keep, limit);
    kept_places_ascend(n, keep, limit);
    if at == n - 1 {
        if before.len() < limit {
            assert(list[before.len() as int] == at as usize);
        } else {
            assert(list == before);
        }
    } else {
        a_kept_place_is_listed_or_the_list_is_full((n - 1) as nat, keep, limit, at);
        if before.contains(at as usize) {
            let i = choose|i: int| 0 <= i < before.len() && before[i] == at as usize;
            assert(list[i] == at as usize);
        } else {
            assert(list == before);
        }
    }
}

/// Whether a list of places has a place, or is full with places before it.
pub open spec fn has_or_is_full(places: Seq<usize>, at: int, limit: nat) -> bool {
    ||| places.contains(at as usize)
    ||| places.len() == limit && forall|i: int| 0 <= i < places.len() ==> #[trigger] places[i] < at
}

/// Whether the filters of a catalog let an app through: the tables have what the filters ask for.
pub open spec fn filters_pass(catalog: Catalog, app_id: u32) -> bool {
    &&& match catalog.repack_filter {
        RepackFilter::Any => true,
        RepackFilter::AnyRepack => catalog.repackers_by_app@.contains_key(app_id)
            && catalog.repackers_by_app@[app_id]@.len() > 0,
        RepackFilter::Repacker(name) => catalog.repackers_by_app@.contains_key(app_id) && exists|
            i: int,
        |
            0 <= i < catalog.repackers_by_app@[app_id]@.len() && (
            #[trigger] catalog.repackers_by_app@[app_id]@[i])@ == lowercase(name@),
    }
    &&& catalog.fix_filter == FixFilter::Denuvo ==> catalog.fix_flags_by_app@.contains(app_id)
}

proof fn filters_go_by_the_tables(catalog: Catalog, at: int, query: Seq<char>)
    requires
        0 <= at < catalog.apps@.len(),
    ensures
        catalog.shows(at, query) <==> filters_pass(catalog, catalog.apps@[at].app_id) && (query.len()
            == 0 || found_by(lowercase(catalog.apps@[at].name@), catalog.apps@[at].app_id, query)),
{
    let id = catalog.apps@[at].app_id;
    if catalog.repackers_by_app@.contains_key(id) {
        let names = catalog.repackers_by_app@[id]@;
        if let RepackFilter::Repacker(name) = catalog.repack_filter {
            let wanted = lowercase(name@);
            if texts(names).contains(wanted) {
                let i = choose|i: int| 0 <= i < texts(names).len() && texts(names)[i] == wanted;
                assert(names[i]@ == wanted);
            }
            if exists|i: int| 0 <= i < names.len() && (#[trigger] names[i])@ == wanted {
                let i = choose|i: int| 0 <= i < names.len() && (#[trigger] names[i])@ == wanted;
                assert(texts(names)[i] == wanted);
            }
        }
    }
}

/// The search finds every game whose lowercased name holds the query anywhere, in any case and with
/// white space around it, if the filters let it through and the results are not full before it.
pub proof fn the_search_finds_any_part_of_a_name(
    app: &DrydockApp,
    results: (String, Vec<usize>),
    before: Seq<char>,
    core: Seq<char>,
    after: Seq<char>,
    at: int,
    a: Seq<char>,
    b: Seq<char>,
)
    requires
        call_ensures(DrydockApp::store_search_results, (app,), results),
        app.catalog.apps@.len() <= usize::MAX,
        app.store.search@ == before + core + after,
        is_padding(before),
        is_padding(after),
        is_tight(core),
        0 <= at < app.catalog.apps@.len(),
        lowercase(app.catalog.apps@[at].name@) == a + lowercase(core) + b,
        filters_pass(app.catalog, app.catalog.apps@[at].app_id),
    ensures
        has_or_is_full(results.1@, at, 200),
{
    core_is_left(before, core, after);
    let query = lowercase(core);
    a_part_is_found_wherever_it_stands(lowercase(app.catalog.apps@[at].name@), query);
    filters_go_by_the_tables(app.catalog, at, query);
    let keep = |i: int| app.catalog.shows(i, query);
    assert(keep(at));
    a_kept_place_is_listed_or_the_list_is_full(
        app.catalog.apps@.len(),
        keep,
        RESULT_LIMIT as nat,
        at,
    );
}

/// The search finds a game by any run of digits in its App ID.
pub proof fn the_search_finds_any_part_of_a_number(
    app: &DrydockApp,
    results: (String, Vec<usize>),
    before: Seq<char>,
    core: Seq<char>,
    after: Seq<char>,
    at: int,
    number: String,
    a: Seq<char>,
    b: Seq<char>,
)
    requires
        call_ensures(DrydockApp::store_search_results, (app,), results),
        app.catalog.apps@.len() <= usize::MAX,
        app.store.search@ == before + core + after,
        is_padding(before),
        is_padding(after),
        is_tight(core),
        0 <= at < app.catalog.apps@.len(),
        call_ensures(decimal, (app.catalog.apps@[at].app_id as u64,), number),
        number@ == a + lowercase(core) + b,
        filters_pass(app.catalog, app.catalog.apps@[at].app_id),
    ensures
        has_or_is_full(results.1@, at, 200),
{
    core_is_left(before, core, after);
    let query = lowercase(core);
    a_part_is_found_wherever_it_stands(number@, query);
    filters_go_by_the_tables(app.catalog, at, query);
    let keep = |i: int| app.catalog.shows(i, query);
    assert(keep(at));
    a_kept_place_is_listed_or_the_list_is_full(
        app.catalog.apps@.len(),
        keep,
        RESULT_LIMIT as nat,
        at,
    );
}

/// Without a query the search lists every game that the filters let through.
pub proof fn an_empty_search_lists_everything(
    app: &DrydockApp,
    results: (String, Vec<usize>),
    at: int,
)
    requires
        call_ensures(DrydockApp::store_search_results, (app,), results),
        app.catalog.apps@.len() <= usize::MAX,
        lowercase(trimmed(app.store.search@)).len() == 0,
        0 <= at < app.catalog.apps@.len(),
        filters_pass(app.catalog, app.catalog.apps@[at].app_id),
    ensures
        has_or_is_full(results.1@, at, 200),
{
    let query = lowercase(trimmed(app.store.search@));
    filters_go_by_the_tables(app.catalog, at, query);
    let keep = |i: int| app.catalog.shows(i, query);
    assert(keep(at));
    a_kept_place_is_listed_or_the_list_is_full(
        app.catalog.apps@.len(),
        keep,
        RESULT_LIMIT as nat,
        at,
    );
}

/// Every result is a game that the filters let through and whose name or number holds the query.
/// Results stand in the order of the catalog, none of them twice, and there are 200 at most.
pub proof fn every_result_fits_the_search(
    app: &DrydockApp,
    results: (String, Vec<usize>),
    before: Seq<char>,
    core: Seq<char>,
    after: Seq<char>,
    i: int,
    number: String,
)
    requires
        call_ensures(DrydockApp::store_search_results, (app,), results),
        app.catalog.apps@.len() <= usize::MAX,
        app.store.search@ == before + core + after,
        is_padding(before),
        is_padding(after),
        is_tight(core),
        0 <= i < results.1@.len(),
        results.1@[i] < app.catalog.apps@.len() ==> call_ensures(
            decimal,
            (app.catalog.apps@[results.1@[i] as int].app_id as u64,),
            number,
        ),
    ensures
        results.1@.len() <= 200,
        results.1@[i] < app.catalog.apps@.len(),
        filters_pass(app.catalog, app.catalog.apps@[results.1@[i] as int].app_id),
        lowercase(core).len() > 0 ==> (exists|a: Seq<char>, b: Seq<char>|
            lowercase(app.catalog.apps@[results.1@[i] as int].name@) == #[trigger] (a + lowercase(
                core,
            ) + b)) || (exists|a: Seq<char>, b: Seq<char>|
            number@ == #[trigger] (a + lowercase(core) + b)),
        forall|j: int| 0 <= j < i ==> #[trigger] results.1@[j] < results.1@[i],
{
    core_is_left(before, core, after);
    let query = lowercase(core);
    let keep = |at: int| app.catalog.shows(at, query);
    kept_places_ascend(app.catalog.apps@.len(), keep, RESULT_LIMIT as nat);
    let at = results.1@[i] as int;
    assert(first_kept(app.catalog.apps@.len(), keep, RESULT_LIMIT as nat)[i] < app.catalog.apps@.len());
    assert(keep(at));
    filters_go_by_the_tables(app.catalog, at, query);
    a_part_is_found_wherever_it_stands(lowercase(app.catalog.apps@[at].name@), query);
    a_part_is_found_wherever_it_stands(number@, query);
}

/// The line above the results counts them.
pub proof fn the_line_counts_the_results(
    app: &DrydockApp,
    results: (String, Vec<usize>),
    number: String,
)
    requires
        call_ensures(DrydockApp::store_search_results, (app,), results),
        call_ensures(decimal, (results.1@.len() as u64,), number),
        results.1@.len() <= u64::MAX,
    ensures
        results.1@.len() == 1 ==> results.0@ == number@ + " result"@,
        results.1@.len() != 1 ==> results.0@ == number@ + " results"@,
{
}

/// A single app is let through by exactly what the tables hold of it. Turning a filter off lets
/// through whatever it let through before.
pub proof fn filters_only_narrow(
    entry: &CatalogApp,
    filter: &RepackFilter,
    fix: FixFilter,
    table: &HashMap<u32, Vec<String>>,
    fixed: &HashSet<u32>,
    passes: bool,
    no_repack_filter: bool,
    no_fix_filter: bool,
    no_filter: bool,
)
    requires
        call_ensures(catalog_matches_filters, (entry, filter, fix, table, fixed), passes),
        call_ensures(
            catalog_matches_filters,
            (entry, &RepackFilter::Any, fix, table, fixed),
            no_repack_filter,
        ),
        call_ensures(
            catalog_matches_filters,
            (entry, filter, FixFilter::Any, table, fixed),
            no_fix_filter,
        ),
        call_ensures(
            catalog_matches_filters,
            (entry, &RepackFilter::Any, FixFilter::Any, table, fixed),
            no_filter,
        ),
    ensures
        no_filter,
        passes <==> no_repack_filter && no_fix_filter,
        no_repack_filter <==> fix == FixFilter::Any || fixed@.contains(entry.app_id),
        no_fix_filter && !(*filter is Any) ==> table@.contains_key(entry.app_id)
            && table@[entry.app_id]@.len() > 0,
        *filter is AnyRepack && table@.contains_key(entry.app_id) && table@[entry.app_id]@.len() > 0
            ==> no_fix_filter,
        *filter matches RepackFilter::Repacker(name) ==> (no_fix_filter <==> table@.contains_key(
            entry.app_id,
        ) && texts(table@[entry.app_id]@).contains(lowercase(name@))),
{
    if let RepackFilter::Repacker(name) = *filter {
        if no_fix_filter {
            let names = texts(table@[entry.app_id]@);
            let i = choose|i: int| 0 <= i < names.len() && names[i] == lowercase(name@);
            assert(table@[entry.app_id]@.len() > 0);
        }
    }
}

proof fn fixed_apps(fixes: Seq<FixEntry>, app_id: u32)
    ensures
        denuvo_fixed(fixes).contains(app_id) <==> exists|i: int|
            0 <= i < fixes.len() && (#[trigger] fixes[i]).app_id == app_id && fixes[i].denuvo,
    decreases fixes.len(),
{
    if fixes.len() > 0 {
        let rest = fixes.drop_last();
        fixed_apps(rest, app_id);
        if exists|i: int|
            0 <= i < rest.len() && (#[trigger] rest[i]).app_id == app_id && rest[i].denuvo {
            let i = choose|i: int|
                0 <= i < rest.len() && (#[trigger] rest[i]).app_id == app_id && rest[i].denuvo;
            assert(fixes[i] == rest[i]);
        }
        if exists|i: int|
            0 <= i < fixes.len() && (#[trigger] fixes[i]).app_id == app_id && fixes[i].denuvo {
            let i = choose|i: int|
                0 <= i < fixes.len() && (#[trigger] fixes[i]).app_id == app_id && fixes[i].denuvo;
            if i < rest.len() {
                assert(rest[i] == fixes[i]);
            }
        }
        if fixes.last().denuvo && fixes.last().app_id == app_id {
            assert(fixes[fixes.len() - 1].app_id == app_id);
        }
    }
}

/// The fix table has exactly the apps with an entry that offers a Denuvo fix.
pub proof fn the_fix_table_has_every_fix(catalog: &mut Catalog, app_id: u32)
    requires
        call_ensures(Catalog::rebuild_fix_index, (catalog,), ()),
    ensures
        final(catalog).fix_flags_by_app@.contains(app_id) <==> exists|i: int|
            0 <= i < old(catalog).fixes@.len() && (#[trigger] old(catalog).fixes@[i]).app_id
                == app_id && old(catalog).fixes@[i].denuvo,
        final(catalog).fixes == old(catalog).fixes,
        final(catalog).apps == old(catalog).apps,
{
    fixed_apps(old(catalog).fixes@, app_id);
}

proof fn repacked_apps(repacks: Seq<RepackApp>, m: int)
    requires
        0 <= m < repacks.len(),
        forall|k: int| m < k < repacks.len() ==> (#[trigger] repacks[k]).app_id != repacks[m].app_id,
    ensures
        repackers_of(repacks).contains_key(repacks[m].app_id),
        repackers_of(repacks)[repacks[m].app_id].len() == repacks[m].sources@.len(),
        forall|i: int|
            0 <= i < repacks[m].sources@.len() ==> #[trigger] repackers_of(
                repacks,
            )[repacks[m].app_id][i] == lowercase(repacks[m].sources@[i].repacker@),
    decreases repacks.len(),
{
    if m < repacks.len() - 1 {
        let rest = repacks.drop_last();
        assert(rest[m] == repacks[m]);
        assert forall|k: int| m < k < rest.len() implies (#[trigger] rest[k]).app_id
            != rest[m].app_id by {
            assert(rest[k] == repacks[k]);
        }
        repacked_apps(rest, m);
        assert(repacks[repacks.len() - 1].app_id != repacks[m].app_id);
    }
}

proof fn table_has_no_other_app(repacks: Seq<RepackApp>, app_id: u32)
    requires
        repackers_of(repacks).contains_key(app_id),
    ensures
        exists|i: int| 0 <= i < repacks.len() && (#[trigger] repacks[i]).app_id == app_id,
    decreases repacks.len(),
{
    if repacks.len() > 0 {
        let rest = repacks.drop_last();
        if repacks.last().app_id == app_id {
            assert(repacks[repacks.len() - 1].app_id == app_id);
        } else {
            table_has_no_other_app(rest, app_id);
            let i = choose|i: int| 0 <= i < rest.len() && (#[trigger] rest[i]).app_id == app_id;
            assert(repacks[i] == rest[i]);
        }
    }
}

/// The repack table has for each app the lowercased repackers of its last entry, and no other app.
pub proof fn the_repack_table_has_every_source(catalog: &mut Catalog, m: int, app_id: u32)
    requires
        call_ensures(Catalog::rebuild_repack_index, (catalog,), ()),
        0 <= m < old(catalog).repacks@.len(),
        forall|k: int|
            m < k < old(catalog).repacks@.len() ==> (#[trigger] old(catalog).repacks@[k]).app_id
                != old(catalog).repacks@[m].app_id,
    ensures
        ({
            let repack = old(catalog).repacks@[m];
            let table = final(catalog).repackers_by_app@;
            &&& table.contains_key(repack.app_id)
            &&& table[repack.app_id]@.len() == repack.sources@.len()
            &&& forall|i: int|
                0 <= i < repack.sources@.len() ==> (#[trigger] table[repack.app_id]@[i])@
                    == lowercase(repack.sources@[i].repacker@)
            &&& table.contains_key(app_id) ==> exists|i: int|
                0 <= i < old(catalog).repacks@.len() && (
                #[trigger] old(catalog).repacks@[i]).app_id == app_id
        }),
        final(catalog).repacks == old(catalog).repacks,
        final(catalog).apps == old(catalog).apps,
{
    let repacks = old(catalog).repacks@;
    repacked_apps(repacks, m);
    let id = repacks[m].app_id;
    let table = final(catalog).repackers_by_app@;
    assert(table.contains_key(id));
    assert(texts(table[id]@) == repackers_of(repacks)[id]);
    assert forall|i: int| 0 <= i < repacks[m].sources@.len() implies (#[trigger] table[id]@[i])@
        == lowercase(repacks[m].sources@[i].repacker@) by {
        assert(texts(table[id]@)[i] == repackers_of(repacks)[id][i]);
    }
    if table.contains_key(app_id) {
        assert(repackers_of(repacks).contains_key(app_id));
        table_has_no_other_app(repacks, app_id);
    }
}

proof fn by_name_lists_the_games(
    apps: Seq<CatalogApp>,
    places: Seq<usize>,
    limit: nat,
    list: Seq<usize>,
)
    requires
        by_name(apps, places, limit, list),
        places.len() <= usize::MAX,
    ensures
        list.len() == (if places.len() <= limit {
            places.len()
        } else {
            limit
        }),
        forall|i: int| 0 <= i < list.len() ==> places.contains(#[trigger] list[i]),
        places.len() <= limit ==> forall|i: int|
            0 <= i < places.len() ==> list.contains(#[trigger] places[i]),
        forall|i: int, j: int|
            0 <= i < j < list.len() ==> !precedes(
                lowercase(apps[#[trigger] list[j] as int].name@),
                lowercase(apps[#[trigger] list[i] as int].name@),
            ),
{
    let keys = crate::home::names_at(apps, places);
    let order = choose|order: Seq<usize>| #[trigger]
        orders(keys, order, 0, places.len() as int) && list == (if places.len() <= limit {
            order
        } else {
            order.take(limit as int)
        }).map_values(|k: usize| places[k as int]);
    assert forall|i: int| 0 <= i < list.len() implies places.contains(#[trigger] list[i]) by {
        assert(list[i] == places[order[i] as int]);
    }
    if places.len() <= limit {
        assert forall|i: int| 0 <= i < places.len() implies list.contains(#[trigger] places[i]) by {
            assert(order.contains(i as usize));
            let k = choose|k: int| 0 <= k < order.len() && order[k] == i as usize;
            assert(list[k] == places[i]);
        }
    }
    assert forall|i: int, j: int| 0 <= i < j < list.len() implies !precedes(
        lowercase(apps[#[trigger] list[j] as int].name@),
        lowercase(apps[#[trigger] list[i] as int].name@),
    ) by {
        let a = order[i] as int;
        let b = order[j] as int;
        assert(crate::order::comes_before(keys, a, b));
        assert(keys[a] == lowercase(apps[list[i] as int].name@));
        assert(keys[b] == lowercase(apps[list[j] as int].name@));
        if precedes(keys[b], keys[a]) {
            if precedes(keys[a], keys[b]) {
                crate::order::precedes_is_transitive(keys[a], keys[b], keys[a]);
            }
            crate::order::precedes_is_irreflexive(keys[a]);
        }
    }
}

/// The watch list page has every game of the catalog that the watch list has, up to 400, and no
/// other game, in the order of their lowercased names.
pub proof fn the_watch_list_page_has_the_watched_games(catalog: &Catalog, list: GameList, at: int)
    requires
        call_ensures(Catalog::store_denuvo_watch, (catalog,), list),
        catalog.denuvo_loaded,
        catalog.apps@.len() <= usize::MAX,
        0 <= at < catalog.apps@.len(),
    ensures
        list matches GameList::Games { places, .. } && {
            &&& places@.contains(at as usize) ==> catalog.denuvo_appids@.contains(
                catalog.apps@[at].app_id,
            )
            &&& catalog.apps@.len() <= 400 && catalog.denuvo_appids@.contains(
                catalog.apps@[at].app_id,
            ) ==> places@.contains(at as usize)
            &&& places@.len() <= 400
            &&& forall|i: int, j: int|
                0 <= i < j < places@.len() ==> !precedes(
                    lowercase(catalog.apps@[#[trigger] places@[j] as int].name@),
                    lowercase(catalog.apps@[#[trigger] places@[i] as int].name@),
                )
        },
{
    let n = catalog.apps@.len();
    let keep = |i: int| catalog.denuvo_appids@.contains(catalog.apps@[i].app_id);
    let all = catalog.watched(n);
    assert(all == first_kept(n, keep, n));
    kept_places_ascend(n, keep, n);
    if let GameList::Games { places, .. } = list {
        by_name_lists_the_games(catalog.apps@, all, LIST_LIMIT as nat, places@);
        listing_goes_by(n, keep, places@, all, at);
    }
}

proof fn listing_goes_by(
    n: nat,
    keep: spec_fn(int) -> bool,
    places: Seq<usize>,
    all: Seq<usize>,
    at: int,
)
    requires
        n <= usize::MAX,
        0 <= at < n,
        all == first_kept(n, keep, n),
        forall|i: int| 0 <= i < places.len() ==> all.contains(#[trigger] places[i]),
        n <= 400 ==> forall|i: int| 0 <= i < all.len() ==> places.contains(#[trigger] all[i]),
    ensures
        places.contains(at as usize) ==> keep(at),
        n <= 400 && keep(at) ==> places.contains(at as usize),
{
    kept_places_ascend(n, keep, n);
    if places.contains(at as usize) {
        let i = choose|i: int| 0 <= i < places.len() && places[i] == at as usize;
        assert(all.contains(places[i]));
        let k = choose|k: int| 0 <= k < all.len() && all[k] == places[i];
        assert(keep(all[k] as int));
    }
    if n <= 400 && keep(at) {
        kept_places_are_listed(n, keep, n, at);
        let k = choose|k: int| 0 <= k < all.len() && all[k] == at as usize;
        assert(places.contains(all[k]));
    }
}

/// The repack page has every game of the catalog with an entry in the repack table, up to 400, and
/// no other game, in the order of their lowercased names.
pub proof fn the_repack_page_has_the_repacked_games(catalog: &Catalog, list: GameList, at: int)
    requires
        call_ensures(Catalog::store_repacks, (catalog,), list),
        catalog.repacks_loaded,
        catalog.apps@.len() <= usize::MAX,
        0 <= at < catalog.apps@.len(),
    ensures
        catalog.repackers_by_app@.contains_key(catalog.apps@[at].app_id) ==> list is Games,
        list is Nothing || list is Games,
        list matches GameList::Games { places, .. } ==> {
            &&& places@.contains(at as usize) ==> catalog.repackers_by_app@.contains_key(
                catalog.apps@[at].app_id,
            )
            &&& catalog.apps@.len() <= 400 && catalog.repackers_by_app@.contains_key(
                catalog.apps@[at].app_id,
            ) ==> places@.contains(at as usize)
            &&& places@.len() <= 400
            &&& forall|i: int, j: int|
                0 <= i < j < places@.len() ==> !precedes(
                    lowercase(catalog.apps@[#[trigger] places@[j] as int].name@),
                    lowercase(catalog.apps@[#[trigger] places@[i] as int].name@),
                )
        },
{
    let n = catalog.apps@.len();
    let keep = |i: int| catalog.repackers_by_app@.contains_key(catalog.apps@[i].app_id);
    let all = catalog.repacked();
    assert(all == first_kept(n, keep, n));
    kept_places_ascend(n, keep, n);
    if keep(at) {
        kept_places_are_listed(n, keep, n, at);
    }
    if let GameList::Games { places, .. } = list {
        by_name_lists_the_games(catalog.apps@, all, LIST_LIMIT as nat, places@);
        listing_goes_by(n, keep, places@, all, at);
    }
}

/// A capsule of the feed is offered exactly where its game is in the catalog, and capsules keep
/// their order.
pub proof fn capsules_in_the_catalog_are_offered(
    catalog: &Catalog,
    capsules: &Vec<StoreCapsule>,
    places: Vec<usize>,
    at: int,
)
    requires
        call_ensures(Catalog::available, (catalog, capsules), places),
        capsules@.len() <= usize::MAX,
        0 <= at < capsules@.len(),
    ensures
        places@.contains(at as usize) <==> catalog.ids@.contains(capsules@[at].app_id),
        forall|i: int, j: int|
            0 <= i < j < places@.len() ==> #[trigger] places@[i] < #[trigger] places@[j],
{
    let n = capsules@.len();
    let keep = |i: int| catalog.ids@.contains(capsules@[i].app_id);
    kept_places_ascend(n, keep, n);
    if keep(at) {
        kept_places_are_listed(n, keep, n, at);
    }
    if places@.contains(at as usize) {
        let i = choose|i: int| 0 <= i < places@.len() && places@[i] == at as usize;
        assert(keep(places@[i] as int));
    }
}

proof fn the_first_name_is_shown(apps: Seq<CatalogApp>, app_id: u32, i: int)
    requires
        0 <= i < apps.len(),
        apps[i].app_id == app_id,
        forall|k: int| 0 <= k < i ==> (#[trigger] apps[k]).app_id != app_id,
    ensures
        display_name(apps, app_id) == apps[i].name@,
    decreases apps.len(),
{
    if i > 0 {
        let rest = apps.drop_first();
        assert(apps[0].app_id != app_id);
        assert(rest[i - 1] == apps[i]);
        assert forall|k: int| 0 <= k < i - 1 implies (#[trigger] rest[k]).app_id != app_id by {
            assert(rest[k] == apps[k + 1]);
        }
        the_first_name_is_shown(rest, app_id, i - 1);
    }
}

proof fn no_name_is_shown(apps: Seq<CatalogApp>, app_id: u32)
    requires
        forall|k: int| 0 <= k < apps.len() ==> (#[trigger] apps[k]).app_id != app_id,
    ensures
        display_name(apps, app_id) == "App "@ + crate::text::decimal_text(app_id as nat),
    decreases apps.len(),
{
    if apps.len() > 0 {
        let rest = apps.drop_first();
        assert(apps[0].app_id != app_id);
        assert forall|k: int| 0 <= k < rest.len() implies (#[trigger] rest[k]).app_id != app_id by {
            assert(rest[k] == apps[k + 1]);
        }
        no_name_is_shown(rest, app_id);
    }
}

/// An app is shown under the name of its first entry in the catalog, and under its number where the
/// catalog does not have it.
pub proof fn an_app_is_shown_under_its_name(
    catalog: &Catalog,
    app_id: u32,
    name: String,
    i: int,
    number: String,
)
    requires
        call_ensures(Catalog::app_display_name, (catalog, app_id), name),
        call_ensures(decimal, (app_id as u64,), number),
        0 <= i <= catalog.apps@.len(),
        i < catalog.apps@.len() ==> catalog.apps@[i].app_id == app_id,
        forall|k: int| 0 <= k < i ==> (#[trigger] catalog.apps@[k]).app_id != app_id,
    ensures
        i < catalog.apps@.len() ==> name@ == catalog.apps@[i].name@,
        i == catalog.apps@.len() ==> name@ == "App "@ + number@,
{
    if i < catalog.apps@.len() {
        the_first_name_is_shown(catalog.apps@, app_id, i);
    } else {
        no_name_is_shown(catalog.apps@, app_id);
    }
}

/// Whether an app needs activation is known once the watch list is loaded, and goes by it alone.
pub proof fn the_watch_list_tells_who_needs_activation(
    catalog: &Catalog,
    app_id: u32,
    answer: Option<bool>,
)
    requires
        call_ensures(Catalog::needs_activation, (catalog, app_id), answer),
    ensures
        answer is None <==> !catalog.denuvo_loaded,
        answer matches Some(needed) ==> needed == catalog.denuvo_appids@.contains(app_id),
{
}

/// Choosing a filter changes that filter alone, and clearing the filters lets every app through.
pub proof fn filters_are_chosen_and_cleared(
    catalog: &mut Catalog,
    repack: RepackFilter,
    fixes: &mut Catalog,
    fix: FixFilter,
    cleared: &mut Catalog,
    active: bool,
    app_id: u32,
)
    requires
        call_ensures(Catalog::filter_repacks, (catalog, repack), ()),
        *old(fixes) == *final(catalog),
        call_ensures(Catalog::filter_fixes, (fixes, fix), ()),
        call_ensures(Catalog::filters_active, (&*final(fixes),), active),
        *old(cleared) == *final(fixes),
        call_ensures(Catalog::clear_filters, (cleared,), ()),
    ensures
        final(fixes).repack_filter == repack,
        final(fixes).fix_filter == fix,
        final(fixes).apps == old(catalog).apps,
        final(fixes).repackers_by_app == old(catalog).repackers_by_app,
        final(fixes).fix_flags_by_app == old(catalog).fix_flags_by_app,
        active <==> !(repack is Any) || fix != FixFilter::Any,
        filters_pass(*final(cleared), app_id),
{
}

/// Fixes and repacks that were fetched are what the filters go by: an app is flagged where a fetched
/// fix of it has one, and repacked where a fetched repack is of it.
pub proof fn fetched_lists_fill_the_tables(
    app: &mut DrydockApp,
    fixes: Vec<FixEntry>,
    other: &mut DrydockApp,
    repacks: Vec<RepackApp>,
    app_id: u32,
    m: int,
)
    requires
        old(app).list_jobs.fixes,
        call_ensures(DrydockApp::poll_fixes_refresh, (app, crate::types::Reply::Done(Ok(fixes))), ()),
        old(other).list_jobs.repacks,
        call_ensures(
            DrydockApp::poll_repacks_refresh,
            (other, crate::types::Reply::Done(Ok(repacks))),
            (),
        ),
        0 <= m < repacks@.len(),
        forall|k: int|
            m < k < repacks@.len() ==> (#[trigger] repacks@[k]).app_id != repacks@[m].app_id,
    ensures
        final(app).catalog.fix_flags_by_app@.contains(app_id) <==> exists|i: int|
            0 <= i < fixes@.len() && (#[trigger] fixes@[i]).app_id == app_id && fixes@[i].denuvo,
        final(other).catalog.repackers_by_app@.contains_key(repacks@[m].app_id),
        final(other).catalog.repackers_by_app@[repacks@[m].app_id]@.len()
            == repacks@[m].sources@.len(),
        final(other).catalog.repackers_by_app@.contains_key(app_id) ==> exists|i: int|
            0 <= i < repacks@.len() && (#[trigger] repacks@[i]).app_id == app_id,
{
    reveal(Catalog::fixes_load);
    reveal(Catalog::repacks_load);
    fixed_apps(fixes@, app_id);
    repacked_apps(repacks@, m);
    let id = repacks@[m].app_id;
    let table = final(other).catalog.repackers_by_app@;
    assert(table.contains_key(id));
    assert(texts(table[id]@) == repackers_of(repacks@)[id]);
    assert(texts(table[id]@).len() == table[id]@.len());
    if table.contains_key(app_id) {
        assert(repackers_of(repacks@).contains_key(app_id));
        table_has_no_other_app(repacks@, app_id);
    }
}

} // verus!
