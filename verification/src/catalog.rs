//! The catalog and the lists beside it: tags, fixes, repacks and the Denuvo watch list, with the
//! look-ups that searching and filtering need.
use crate::order::{ascending, sorted_unique};
use crate::tags::{all_tags, frequent_tags, offers};
use crate::text::{cat2, contains, contains_text, decimal, decimal_text, lowercase, texts};
use crate::types::{
    CatalogApp, FixEntry, FixFilter, RepackApp, RepackFilter, RepackSource, StoreCapsule,
};
use std::collections::{HashMap, HashSet};
use vstd::prelude::*;

verus! {

broadcast use vstd::std_specs::hash::group_hash_axioms;

/// The lists that the store works on.
pub struct Catalog {
    pub apps: Vec<CatalogApp>,
    /// The App IDs of `apps`, for quick checks whether a game is available.
    pub ids: HashSet<u32>,
    pub available_tags: Vec<String>,
    pub selected_tag: Option<String>,
    /// The games that actively use Denuvo.
    pub denuvo_appids: HashSet<u32>,
    pub denuvo_loaded: bool,
    pub fixes: Vec<FixEntry>,
    pub fixes_loaded: bool,
    /// The apps that have a Denuvo fix.
    pub fix_flags_by_app: HashSet<u32>,
    pub fix_filter: FixFilter,
    pub repacks: Vec<RepackApp>,
    pub repacks_loaded: bool,
    /// The lowercased repacker names of each app with repacks.
    pub repackers_by_app: HashMap<u32, Vec<String>>,
    /// The distinct repacker names over all repacks, in order.
    pub available_repackers: Vec<String>,
    pub repack_filter: RepackFilter,
}

/// The App IDs of a list of games.
pub open spec fn app_ids(apps: Seq<CatalogApp>) -> Seq<u32> {
    apps.map_values(|app: CatalogApp| app.app_id)
}

/// Whether `at` is the first place where `id` stands.
pub open spec fn first_at(ids: Seq<u32>, id: u32, at: int) -> bool {
    &&& 0 <= at < ids.len()
    &&& ids[at] == id
    &&& forall|j: int| 0 <= j < at ==> ids[j] != id
}

/// The name to show for an app: that of its first entry in the catalog, else its number.
pub open spec fn display_name(apps: Seq<CatalogApp>, app_id: u32) -> Seq<char>
    decreases apps.len(),
{
    if apps.len() == 0 {
        "App "@ + decimal_text(app_id as nat)
    } else if apps[0].app_id == app_id {
        apps[0].name@
    } else {
        display_name(apps.drop_first(), app_id)
    }
}

/// The App IDs of a list of fixes.
pub open spec fn fix_ids(fixes: Seq<FixEntry>) -> Seq<u32> {
    fixes.map_values(|fix: FixEntry| fix.app_id)
}

/// The App IDs of a list of repacks.
pub open spec fn repack_ids(repacks: Seq<RepackApp>) -> Seq<u32> {
    repacks.map_values(|repack: RepackApp| repack.app_id)
}

/// The apps that have a Denuvo fix.
pub open spec fn denuvo_fixed(fixes: Seq<FixEntry>) -> Set<u32>
    decreases fixes.len(),
{
    if fixes.len() == 0 {
        Set::empty()
    } else {
        let before = denuvo_fixed(fixes.drop_last());
        if fixes.last().denuvo {
            before.insert(fixes.last().app_id)
        } else {
            before
        }
    }
}

/// The repacker names of a list of sources.
pub open spec fn repackers(sources: Seq<RepackSource>) -> Seq<Seq<char>> {
    sources.map_values(|source: RepackSource| source.repacker@)
}

/// The lowercased repacker names of a list of sources.
pub open spec fn lower_repackers(sources: Seq<RepackSource>) -> Seq<Seq<char>> {
    sources.map_values(|source: RepackSource| lowercase(source.repacker@))
}

/// The lowercased repacker names of each app; of two entries for one app, the later counts.
pub open spec fn repackers_of(repacks: Seq<RepackApp>) -> Map<u32, Seq<Seq<char>>>
    decreases repacks.len(),
{
    if repacks.len() == 0 {
        Map::empty()
    } else {
        repackers_of(repacks.drop_last()).insert(
            repacks.last().app_id,
            lower_repackers(repacks.last().sources@),
        )
    }
}

/// The repacker names over all repacks, in order and with repetitions.
pub open spec fn all_repackers(repacks: Seq<RepackApp>) -> Seq<Seq<char>>
    decreases repacks.len(),
{
    if repacks.len() == 0 {
        Seq::empty()
    } else {
        all_repackers(repacks.drop_last()) + repackers(repacks.last().sources@)
    }
}

/// Whether a table of name lists holds exactly what a map of texts holds.
pub open spec fn table_is(table: Map<u32, Vec<String>>, map: Map<u32, Seq<Seq<char>>>) -> bool {
    &&& table.dom() == map.dom()
    &&& forall|id: u32| #[trigger] table.contains_key(id) ==> texts(table[id]@) == map[id]
}

/// Whether an app has at least one repack source.
pub open spec fn has_repack(table: Map<u32, Vec<String>>, app_id: u32) -> bool {
    table.contains_key(app_id) && table[app_id]@.len() > 0
}

/// Whether an app has at least one repack source.
pub fn is_repacked(table: &HashMap<u32, Vec<String>>, app_id: u32) -> (repacked: bool)
    ensures
        repacked == has_repack(table@, app_id),
{
    match table.get(&app_id) {
        Some(names) => names.len() > 0,
        None => false,
    }
}

/// Whether an app passes the repack filter. `wanted` is the lowercased name that the filter
/// holds, if any.
pub open spec fn passes_repack_filter(
    filter: RepackFilter,
    wanted: Seq<char>,
    table: Map<u32, Vec<String>>,
    app_id: u32,
) -> bool {
    match filter {
        RepackFilter::Any => true,
        RepackFilter::AnyRepack => has_repack(table, app_id),
        RepackFilter::Repacker(_) => table.contains_key(app_id) && texts(
            table[app_id]@,
        ).contains(wanted),
    }
}

/// The lowercased repacker name of a filter, empty where it names none.
pub open spec fn wanted_repacker(filter: RepackFilter) -> Seq<char> {
    match filter {
        RepackFilter::Repacker(name) => lowercase(name@),
        _ => Seq::empty(),
    }
}

/// Whether an app passes the fix filter.
pub open spec fn passes_fix_filter(filter: FixFilter, fixed: Set<u32>, app_id: u32) -> bool {
    match filter {
        FixFilter::Any => true,
        FixFilter::Denuvo => fixed.contains(app_id),
    }
}

/// Whether a list of names holds `name`.
pub fn lists_name(names: &Vec<String>, name: &String) -> (found: bool)
    ensures
        found == texts(names@).contains(name@),
{
    let mut i: usize = 0;
    while i < names.len()
        invariant
            i <= names@.len(),
            forall|k: int| 0 <= k < i ==> (#[trigger] names@[k])@ != name@,
        decreases names@.len() - i,
    {
        if names[i] == *name {
            assert(texts(names@)[i as int] == name@);
            return true;
        }
        i += 1;
    }
    assert(forall|k: int| 0 <= k < names@.len() ==> texts(names@)[k] == names@[k]@);
    false
}

/// Whether an app passes the filters, given the lowercased name that the repack filter holds.
pub fn matches_filters_lowered(
    app_id: u32,
    repack_filter: &RepackFilter,
    wanted: &String,
    fix_filter: FixFilter,
    repackers_by_app: &HashMap<u32, Vec<String>>,
    fix_flags_by_app: &HashSet<u32>,
) -> (passes: bool)
    ensures
        passes == (passes_repack_filter(*repack_filter, wanted@, repackers_by_app@, app_id)
            && passes_fix_filter(fix_filter, fix_flags_by_app@, app_id)),
{
    let repack_ok = match repack_filter {
        RepackFilter::Any => true,
        RepackFilter::AnyRepack => is_repacked(repackers_by_app, app_id),
        RepackFilter::Repacker(_) => match repackers_by_app.get(&app_id) {
            Some(names) => lists_name(names, wanted),
            None => false,
        },
    };
    if !repack_ok {
        return false;
    }
    match fix_filter {
        FixFilter::Any => true,
        FixFilter::Denuvo => fix_flags_by_app.contains(&app_id),
    }
}

fn lowered_repacker(filter: &RepackFilter) -> (name: String)
    ensures
        name@ == wanted_repacker(*filter),
{
    match filter {
        RepackFilter::Repacker(name) => name.as_str().to_lowercase(),
        _ => String::new(),
    }
}

/// Whether a catalog app passes the active filters.
pub fn catalog_matches_filters(
    entry: &CatalogApp,
    repack_filter: &RepackFilter,
    fix_filter: FixFilter,
    repackers_by_app: &HashMap<u32, Vec<String>>,
    fix_flags_by_app: &HashSet<u32>,
) -> (passes: bool)
    ensures
        passes == (passes_repack_filter(
            *repack_filter,
            wanted_repacker(*repack_filter),
            repackers_by_app@,
            entry.app_id,
        ) && passes_fix_filter(fix_filter, fix_flags_by_app@, entry.app_id)),
{
    let wanted = lowered_repacker(repack_filter);
    matches_filters_lowered(
        entry.app_id,
        repack_filter,
        &wanted,
        fix_filter,
        repackers_by_app,
        fix_flags_by_app,
    )
}

/// Whether an app is found by a query: its lowercased name or its number contains it.
pub open spec fn found_by(lower_name: Seq<char>, app_id: u32, query: Seq<char>) -> bool {
    contains_text(lower_name, query) || contains_text(decimal_text(app_id as nat), query)
}

/// Whether an app is found by a query, given its lowercased name.
pub fn matches_query(lower_name: &str, app_id: u32, query: &str) -> (found: bool)
    ensures
        found == found_by(lower_name@, app_id, query@),
{
    if contains(lower_name, query) {
        return true;
    }
    let id = decimal(app_id as u64);
    contains(id.as_str(), query)
}

/// The first `limit` of the places below `n` that are kept.
pub open spec fn first_kept(n: nat, keep: spec_fn(int) -> bool, limit: nat) -> Seq<usize>
    decreases n,
{
    if n == 0 {
        Seq::empty()
    } else {
        let before = first_kept((n - 1) as nat, keep, limit);
        if keep(n - 1) && before.len() < limit {
            before.push((n - 1) as usize)
        } else {
            before
        }
    }
}

/// Once the limit is reached, later places change nothing.
pub proof fn full_list_stays(n: nat, m: nat, keep: spec_fn(int) -> bool, limit: nat)
    requires
        n <= m,
        first_kept(n, keep, limit).len() >= limit,
    ensures
        first_kept(m, keep, limit) == first_kept(n, keep, limit),
    decreases m,
{
    if n < m {
        full_list_stays(n, (m - 1) as nat, keep, limit);
    }
}

/// Every place in such a list is kept and below the bound, and the places ascend.
pub proof fn kept_places_ascend(n: nat, keep: spec_fn(int) -> bool, limit: nat)
    requires
        n <= usize::MAX,
    ensures
        first_kept(n, keep, limit).len() <= n,
        first_kept(n, keep, limit).len() <= limit,
        forall|i: int|
            0 <= i < first_kept(n, keep, limit).len() ==> {
                &&& (#[trigger] first_kept(n, keep, limit)[i]) < n
                &&& keep(first_kept(n, keep, limit)[i] as int)
            },
        forall|i: int, j: int|
            0 <= i < j < first_kept(n, keep, limit).len() ==> #[trigger] first_kept(
                n,
                keep,
                limit,
            )[i] < #[trigger] first_kept(n, keep, limit)[j],
    decreases n,
{
    if n > 0 {
        kept_places_ascend((n - 1) as nat, keep, limit);
    }
}

/// Without a limit that is reached, every kept place is in the list.
pub proof fn kept_places_are_listed(n: nat, keep: spec_fn(int) -> bool, limit: nat, at: int)
    requires
        n <= limit,
        n <= usize::MAX,
        0 <= at < n,
        keep(at),
    ensures
        first_kept(n, keep, limit).contains(at as usize),
    decreases n,
{
    kept_places_ascend((n - 1) as nat, keep, limit);
    let list = first_kept(n, keep, limit);
    let before = first_kept((n - 1) as nat, keep, limit);
    if at == n - 1 {
        assert(list[list.len() - 1] == at as usize);
    } else {
        kept_places_are_listed((n - 1) as nat, keep, limit, at);
        let i = choose|i: int| 0 <= i < before.len() && before[i] == at as usize;
        assert(list[i] == at as usize);
    }
}

impl Catalog {
    /// The look-ups agree with the lists they were built from.
    #[verifier::opaque]
    pub open spec fn wf(&self) -> bool {
        &&& self.ids@ == app_ids(self.apps@).to_set()
        &&& offers(all_tags(self.apps@), texts(self.available_tags@))
        &&& self.selected_tag matches Some(tag) ==> texts(self.available_tags@).contains(tag@)
        &&& self.fix_flags_by_app@ == denuvo_fixed(self.fixes@)
        &&& table_is(self.repackers_by_app@, repackers_of(self.repacks@))
        &&& ascending(texts(self.available_repackers@))
        &&& texts(self.available_repackers@).to_set() == all_repackers(self.repacks@).to_set()
        &&& self.repack_filter matches RepackFilter::Repacker(name) ==> texts(
            self.available_repackers@,
        ).contains(name@)
    }

    /// A catalog of the given games, with nothing loaded beside it.
    pub fn new(apps: Vec<CatalogApp>) -> (catalog: Self)
        ensures
            catalog.wf(),
            catalog.apps == apps,
            catalog.selected_tag is None,
            catalog.denuvo_appids@ == Set::<u32>::empty(),
            !catalog.denuvo_loaded && !catalog.fixes_loaded && !catalog.repacks_loaded,
            catalog.fixes@.len() == 0,
            catalog.repacks@.len() == 0,
            catalog.fix_filter == FixFilter::Any,
            catalog.repack_filter == RepackFilter::Any,
    {
        let mut catalog = Catalog {
            apps,
            ids: HashSet::new(),
            available_tags: Vec::new(),
            selected_tag: None,
            denuvo_appids: HashSet::new(),
            denuvo_loaded: false,
            fixes: Vec::new(),
            fixes_loaded: false,
            fix_flags_by_app: HashSet::new(),
            fix_filter: FixFilter::Any,
            repacks: Vec::new(),
            repacks_loaded: false,
            repackers_by_app: HashMap::new(),
            available_repackers: Vec::new(),
            repack_filter: RepackFilter::Any,
        };
        proof {
            reveal(Catalog::wf);
            assert(catalog.repackers_by_app@.dom() =~= repackers_of(catalog.repacks@).dom());
            assert(texts(catalog.available_repackers@) =~= Seq::<Seq<char>>::empty());
            assert(all_repackers(catalog.repacks@) =~= Seq::<Seq<char>>::empty());
        }
        catalog.recompute_tags();
        catalog
    }

    /// Recomputes the App ID set and the genre filter's options from the games, and drops a
    /// selection that is no longer among them.
    pub fn recompute_tags(&mut self)
        ensures
            *final(self) == (Catalog {
                ids: final(self).ids,
                available_tags: final(self).available_tags,
                selected_tag: final(self).selected_tag,
                ..*old(self)
            }),
            final(self).ids@ == app_ids(old(self).apps@).to_set(),
            offers(all_tags(old(self).apps@), texts(final(self).available_tags@)),
            final(self).selected_tag == (match old(self).selected_tag {
                Some(tag) if texts(final(self).available_tags@).contains(tag@) => Some(tag),
                _ => None,
            }),
    {
        let mut ids: HashSet<u32> = HashSet::new();
        let mut i: usize = 0;
        while i < self.apps.len()
            invariant
                i <= self.apps@.len(),
                *self == *old(self),
                ids@ == app_ids(self.apps@.take(i as int)).to_set(),
            decreases self.apps@.len() - i,
        {
            ids.insert(self.apps[i].app_id);
            proof {
                let before = app_ids(self.apps@.take(i as int));
                let id = self.apps@[i as int].app_id;
                assert(app_ids(self.apps@.take(i + 1)) =~= before.push(id));
                push_inserts(before, id);
            }
            i += 1;
        }
        assert(self.apps@.take(i as int) =~= self.apps@);
        self.ids = ids;
        self.available_tags = frequent_tags(&self.apps);
        let stale = match &self.selected_tag {
            Some(tag) => !lists_name(&self.available_tags, tag),
            None => false,
        };
        if stale {
            self.selected_tag = None;
        }
    }

    /// Rebuilds the repack look-up and the list of repackers, and drops a filter on a repacker
    /// that is no longer among them, so that the filter never points at nothing.
    pub fn rebuild_repack_index(&mut self)
        ensures
            *final(self) == (Catalog {
                repackers_by_app: final(self).repackers_by_app,
                available_repackers: final(self).available_repackers,
                repack_filter: final(self).repack_filter,
                ..*old(self)
            }),
            table_is(final(self).repackers_by_app@, repackers_of(old(self).repacks@)),
            ascending(texts(final(self).available_repackers@)),
            texts(final(self).available_repackers@).to_set() == all_repackers(
                old(self).repacks@,
            ).to_set(),
            final(self).repack_filter == (match old(self).repack_filter {
                RepackFilter::Repacker(name) => if texts(
                    final(self).available_repackers@,
                ).contains(name@) {
                    RepackFilter::Repacker(name)
                } else {
                    RepackFilter::Any
                },
                other => other,
            }),
    {
        let mut by_app: HashMap<u32, Vec<String>> = HashMap::new();
        let mut names: Vec<String> = Vec::new();
        let ghost repacks = self.repacks@;
        let mut i: usize = 0;
        assert(by_app@.dom() =~= repackers_of(repacks.take(0)).dom());
        while i < self.repacks.len()
            invariant
                i <= repacks.len(),
                repacks == self.repacks@,
                *self == *old(self),
                table_is(by_app@, repackers_of(repacks.take(i as int))),
                texts(names@) =~= all_repackers(repacks.take(i as int)),
            decreases repacks.len() - i,
        {
            let repack = &self.repacks[i];
            let ghost base = texts(names@);
            let mut lowered: Vec<String> = Vec::new();
            let mut j: usize = 0;
            while j < repack.sources.len()
                invariant
                    j <= repack.sources@.len(),
                    texts(lowered@) =~= lower_repackers(repack.sources@.take(j as int)),
                    texts(names@) =~= base + repackers(repack.sources@.take(j as int)),
                decreases repack.sources@.len() - j,
            {
                let repacker = &repack.sources[j].repacker;
                names.push(repacker.clone());
                lowered.push(repacker.as_str().to_lowercase());
                proof {
                    let taken = repack.sources@.take(j as int);
                    let more = repack.sources@.take(j + 1);
                    assert(more =~= taken.push(repack.sources@[j as int]));
                    assert(texts(lowered@) =~= lower_repackers(taken).push(
                        lowercase(repacker@),
                    ));
                    assert(texts(names@) =~= (base + repackers(taken)).push(repacker@));
                }
                j += 1;
            }
            let ghost table = by_app@;
            by_app.insert(repack.app_id, lowered);
            proof {
                assert(repack.sources@.take(j as int) =~= repack.sources@);
                let now = repacks.take(i + 1);
                assert(now.drop_last() =~= repacks.take(i as int));
                assert(now.last() == *repack);
                assert(by_app@.dom() =~= repackers_of(now).dom());
            }
            i += 1;
        }
        assert(repacks.take(i as int) =~= repacks);
        self.repackers_by_app = by_app;
        self.available_repackers = sorted_unique(&names);
        let stale = match &self.repack_filter {
            RepackFilter::Repacker(name) => !lists_name(&self.available_repackers, name),
            _ => false,
        };
        if stale {
            self.repack_filter = RepackFilter::Any;
        }
    }

    /// Rebuilds the set of apps with a Denuvo fix.
    pub fn rebuild_fix_index(&mut self)
        ensures
            *final(self) == (Catalog { fix_flags_by_app: final(self).fix_flags_by_app, ..*old(self) }),
            final(self).fix_flags_by_app@ == denuvo_fixed(old(self).fixes@),
    {
        let mut flags: HashSet<u32> = HashSet::new();
        let mut i: usize = 0;
        while i < self.fixes.len()
            invariant
                i <= self.fixes@.len(),
                *self == *old(self),
                flags@ == denuvo_fixed(self.fixes@.take(i as int)),
            decreases self.fixes@.len() - i,
        {
            if self.fixes[i].denuvo {
                flags.insert(self.fixes[i].app_id);
            }
            assert(self.fixes@.take(i + 1).drop_last() =~= self.fixes@.take(i as int));
            i += 1;
        }
        assert(self.fixes@.take(i as int) =~= self.fixes@);
        self.fix_flags_by_app = flags;
    }

    /// The repack sources of an app, if any are known.
    pub fn repack_for(&self, app_id: u32) -> (repack: Option<&RepackApp>)
        ensures
            repack is None <==> !repack_ids(self.repacks@).contains(app_id),
            repack matches Some(repack) ==> exists|i: int| #[trigger]
                first_at(repack_ids(self.repacks@), app_id, i) && *repack == self.repacks@[i],
    {
        let ghost ids = repack_ids(self.repacks@);
        let mut i: usize = 0;
        while i < self.repacks.len()
            invariant
                i <= self.repacks@.len(),
                ids == repack_ids(self.repacks@),
                forall|k: int| 0 <= k < i ==> ids[k] != app_id,
            decreases self.repacks@.len() - i,
        {
            if self.repacks[i].app_id == app_id {
                assert(first_at(ids, app_id, i as int));
                assert(ids.contains(app_id));
                return Some(&self.repacks[i]);
            }
            i += 1;
        }
        None
    }

    /// The fixes of an app, if any are known.
    pub fn fix_for(&self, app_id: u32) -> (fix: Option<&FixEntry>)
        ensures
            fix is None <==> !fix_ids(self.fixes@).contains(app_id),
            fix matches Some(fix) ==> exists|i: int| #[trigger]
                first_at(fix_ids(self.fixes@), app_id, i) && *fix == self.fixes@[i],
    {
        let ghost ids = fix_ids(self.fixes@);
        let mut i: usize = 0;
        while i < self.fixes.len()
            invariant
                i <= self.fixes@.len(),
                ids == fix_ids(self.fixes@),
                forall|k: int| 0 <= k < i ==> ids[k] != app_id,
            decreases self.fixes@.len() - i,
        {
            if self.fixes[i].app_id == app_id {
                assert(first_at(ids, app_id, i as int));
                assert(ids.contains(app_id));
                return Some(&self.fixes[i]);
            }
            i += 1;
        }
        None
    }

    /// Whether the first entry for an app offers a Denuvo fix.
    pub open spec fn offers_denuvo_fix(&self, app_id: u32) -> bool {
        exists|i: int| #[trigger]
            first_at(fix_ids(self.fixes@), app_id, i) && self.fixes@[i].denuvo
    }

    /// Whether a Denuvo fix is offered for an app.
    pub fn has_denuvo_fix(&self, app_id: u32) -> (offered: bool)
        ensures
            offered == self.offers_denuvo_fix(app_id),
    {
        match self.fix_for(app_id) {
            Some(fix) => {
                proof {
                    let ids = fix_ids(self.fixes@);
                    let i = choose|i: int| #[trigger]
                        first_at(ids, app_id, i) && *fix == self.fixes@[i];
                    assert forall|j: int| #[trigger] first_at(ids, app_id, j) implies j == i by {}
                }
                fix.denuvo
            },
            None => {
                assert forall|i: int| !#[trigger] first_at(fix_ids(self.fixes@), app_id, i) by {
                    if first_at(fix_ids(self.fixes@), app_id, i) {
                        assert(fix_ids(self.fixes@).contains(app_id));
                    }
                }
                false
            },
        }
    }

    /// The name to show for an app.
    pub fn app_display_name(&self, app_id: u32) -> (name: String)
        ensures
            name@ == display_name(self.apps@, app_id),
    {
        let mut i: usize = 0;
        assert(self.apps@.skip(0) =~= self.apps@);
        while i < self.apps.len()
            invariant
                i <= self.apps@.len(),
                display_name(self.apps@, app_id) == display_name(self.apps@.skip(i as int), app_id),
            decreases self.apps@.len() - i,
        {
            if self.apps[i].app_id == app_id {
                return self.apps[i].name.clone();
            }
            assert(self.apps@.skip(i as int).drop_first() =~= self.apps@.skip(i + 1));
            i += 1;
        }
        let id = decimal(app_id as u64);
        cat2("App ", id.as_str())
    }

    /// Whether an app needs activation. `None` only while the watch list is still loading; once
    /// it is loaded the answer is complete for every app.
    pub fn needs_activation(&self, app_id: u32) -> (answer: Option<bool>)
        ensures
            answer == (if self.denuvo_loaded {
                Some(self.denuvo_appids@.contains(app_id))
            } else {
                None
            }),
    {
        if self.denuvo_loaded {
            Some(self.denuvo_appids.contains(&app_id))
        } else {
            None
        }
    }

    /// Whether a game of the catalog is shown for a query that is trimmed and lowercased.
    pub open spec fn shows(&self, at: int, query: Seq<char>) -> bool {
        let app = self.apps@[at];
        &&& passes_repack_filter(
            self.repack_filter,
            wanted_repacker(self.repack_filter),
            self.repackers_by_app@,
            app.app_id,
        )
        &&& passes_fix_filter(self.fix_filter, self.fix_flags_by_app@, app.app_id)
        &&& query.len() == 0 || found_by(lowercase(app.name@), app.app_id, query)
    }

    /// The places in the catalog of the first `limit` games that pass the filters and are found by
    /// a query, which is trimmed and lowercased.
    pub fn search(&self, query: &str, limit: usize) -> (places: Vec<usize>)
        ensures
            places@ == first_kept(
                self.apps@.len(),
                |at: int| self.shows(at, query@),
                limit as nat,
            ),
    {
        let ghost keep = |at: int| self.shows(at, query@);
        let wanted = lowered_repacker(&self.repack_filter);
        let everything = crate::text::no_text(query);
        let mut places: Vec<usize> = Vec::new();
        let mut i: usize = 0;
        while i < self.apps.len()
            invariant
                i <= self.apps@.len(),
                keep == (|at: int| self.shows(at, query@)),
                wanted@ == wanted_repacker(self.repack_filter),
                everything == (query@.len() == 0),
                places@ == first_kept(i as nat, keep, limit as nat),
            decreases self.apps@.len() - i,
        {
            if places.len() >= limit {
                proof {
                    full_list_stays(i as nat, self.apps@.len(), keep, limit as nat);
                }
                return places;
            }
            let app = &self.apps[i];
            let shown = matches_filters_lowered(
                app.app_id,
                &self.repack_filter,
                &wanted,
                self.fix_filter,
                &self.repackers_by_app,
                &self.fix_flags_by_app,
            ) && (everything || {
                let lower = app.name.as_str().to_lowercase();
                matches_query(lower.as_str(), app.app_id, query)
            });
            assert(shown == keep(i as int));
            if shown {
                places.push(i);
            }
            i += 1;
        }
        places
    }

    /// The places of the first `limit` games whose App ID is in `ids`.
    pub fn games_among(&self, ids: &HashSet<u32>, limit: usize) -> (places: Vec<usize>)
        ensures
            places@ == first_kept(
                self.apps@.len(),
                |at: int| ids@.contains(self.apps@[at].app_id),
                limit as nat,
            ),
    {
        let ghost keep = |at: int| ids@.contains(self.apps@[at].app_id);
        let mut places: Vec<usize> = Vec::new();
        let mut i: usize = 0;
        while i < self.apps.len()
            invariant
                i <= self.apps@.len(),
                keep == (|at: int| ids@.contains(self.apps@[at].app_id)),
                places@ == first_kept(i as nat, keep, limit as nat),
            decreases self.apps@.len() - i,
        {
            if places.len() >= limit {
                proof {
                    full_list_stays(i as nat, self.apps@.len(), keep, limit as nat);
                }
                return places;
            }
            let kept = ids.contains(&self.apps[i].app_id);
            assert(kept == keep(i as int));
            if kept {
                places.push(i);
            }
            i += 1;
        }
        places
    }

    /// The places of the capsules whose game is in the catalog.
    pub fn available(&self, capsules: &Vec<StoreCapsule>) -> (places: Vec<usize>)
        ensures
            places@ == first_kept(
                capsules@.len(),
                |at: int| self.ids@.contains(capsules@[at].app_id),
                capsules@.len(),
            ),
    {
        let ghost keep = |at: int| self.ids@.contains(capsules@[at].app_id);
        let mut places: Vec<usize> = Vec::new();
        let mut i: usize = 0;
        while i < capsules.len()
            invariant
                i <= capsules@.len(),
                keep == (|at: int| self.ids@.contains(capsules@[at].app_id)),
                places@ == first_kept(i as nat, keep, capsules@.len()),
                places@.len() <= i,
            decreases capsules@.len() - i,
        {
            let kept = self.ids.contains(&capsules[i].app_id);
            assert(kept == keep(i as int));
            if kept {
                places.push(i);
            }
            i += 1;
        }
        places
    }
}

proof fn push_inserts(list: Seq<u32>, id: u32)
    ensures
        list.push(id).to_set() == list.to_set().insert(id),
{
    let more = list.push(id);
    assert forall|x: u32| more.to_set().contains(x) <==> list.to_set().insert(id).contains(x) by {
        if list.contains(x) {
            let i = choose|i: int| 0 <= i < list.len() && list[i] == x;
            assert(more[i] == x);
        }
        if more.contains(x) && x != id {
            let i = choose|i: int| 0 <= i < more.len() && more[i] == x;
            assert(list[i] == x);
        }
        assert(more[list.len() as int] == id);
    }
    assert(more.to_set() =~= list.to_set().insert(id));
}

/// A filter on repacks lets through only apps that have a repack, and one on a single repacker is
/// at least as strict as the one on any.
pub proof fn stricter_repack_filter(
    filter: RepackFilter,
    table: Map<u32, Vec<String>>,
    app_id: u32,
)
    requires
        passes_repack_filter(filter, wanted_repacker(filter), table, app_id),
        !(filter is Any),
    ensures
        passes_repack_filter(RepackFilter::AnyRepack, Seq::empty(), table, app_id),
{
}

} // verus!
