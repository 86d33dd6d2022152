//! The library: which games it lists, and what it says and offers of each.
use crate::catalog::{display_name, first_kept};
use crate::helpers::{is_real_game, is_tool_app, is_tool_name};
use crate::ids::{in_order, set_ids, sorted_distinct, table_ids};
use crate::order::{orders, sorted_order};
use crate::state::{DrydockApp, InstalledGame, LibraryFilter, LibraryState};
use crate::text::{
    cat2, cat3, contains, contains_text, decimal, decimal_text, lowercase, no_text, texts, trim,
    trimmed,
};
use crate::types::{CatalogApp, SteamManifest, Tone};
use std::collections::{BTreeMap, HashSet};
use vstd::prelude::*;

verus! {

broadcast use vstd::std_specs::hash::group_hash_axioms;

/// Where a game of the library comes from.
#[derive(Clone, Copy, Debug, PartialEq, Eq, Structural)]
pub enum LibrarySource {
    SteamInstalled,
    DrydockInstalled,
    /// Unlocked, but not installed.
    Available,
}

/// A game of the library.
pub struct LibraryEntry {
    pub app_id: u32,
    pub name: String,
    pub installed: bool,
    pub launch_path: Option<String>,
    pub install_dir: Option<String>,
    pub size_on_disk: Option<u64>,
    pub source: LibrarySource,
}

/// A game of the library, as contracts speak of it.
#[verifier::ext_equal]
pub ghost struct Listed {
    pub app_id: u32,
    pub name: Seq<char>,
    pub installed: bool,
    pub launch_path: Option<String>,
    pub install_dir: Option<String>,
    pub size_on_disk: Option<u64>,
    pub source: LibrarySource,
}

impl View for LibraryEntry {
    type V = Listed;

    open spec fn view(&self) -> Listed {
        Listed {
            app_id: self.app_id,
            name: self.name@,
            installed: self.installed,
            launch_path: self.launch_path,
            install_dir: self.install_dir,
            size_on_disk: self.size_on_disk,
            source: self.source,
        }
    }
}

/// The models of a list of entries.
pub open spec fn listed(entries: Seq<LibraryEntry>) -> Seq<Listed> {
    entries.map_values(|entry: LibraryEntry| entry@)
}

/// Whether a list has an app.
pub open spec fn lists_app(entries: Seq<Listed>, app_id: u32) -> bool {
    exists|i: int| 0 <= i < entries.len() && (#[trigger] entries[i]).app_id == app_id
}

/// Whether an app of this name is a game.
pub open spec fn is_game(app_id: u32, name: Seq<char>) -> bool {
    !is_tool_app(app_id) && !is_tool_name(lowercase(name))
}

/// What a table holds for an app.
pub open spec fn entry_of<V>(table: Map<u32, V>, app_id: u32) -> Option<V> {
    if table.contains_key(app_id) {
        Some(table[app_id])
    } else {
        None
    }
}

/// The text that a table holds for an app.
pub fn text_of(table: &BTreeMap<u32, String>, app_id: u32) -> (text: Option<String>)
    ensures
        text == entry_of(table@, app_id),
{
    broadcast use vstd::std_specs::btree::group_btree_axioms;
    broadcast use vstd::laws_cmp::group_laws_cmp;

    assert(vstd::laws_cmp::obeys_cmp::<u32>());
    match table.get(&app_id) {
        Some(text) => Some(text.clone()),
        None => None,
    }
}

/// The games that Steam has installed, each once, without Steam's own runtimes.
pub open spec fn steam_games(
    manifests: Seq<SteamManifest>,
    launch_paths: Map<u32, String>,
) -> Seq<Listed>
    decreases manifests.len(),
{
    if manifests.len() == 0 {
        Seq::empty()
    } else {
        let before = steam_games(manifests.drop_last(), launch_paths);
        let manifest = manifests.last();
        if is_game(manifest.app_id, manifest.name@) && !lists_app(before, manifest.app_id) {
            before.push(
                Listed {
                    app_id: manifest.app_id,
                    name: manifest.name@,
                    installed: true,
                    launch_path: entry_of(launch_paths, manifest.app_id),
                    install_dir: Some(manifest.install_dir),
                    size_on_disk: manifest.size_on_disk,
                    source: LibrarySource::SteamInstalled,
                },
            )
        } else {
            before
        }
    }
}

/// A list with the games that Drydock installed, where it does not have them yet. `present` holds
/// the games whose folder exists.
pub open spec fn with_drydock_games(
    entries: Seq<Listed>,
    ids: Seq<u32>,
    games: Map<u32, InstalledGame>,
    launch_paths: Map<u32, String>,
    present: Set<u32>,
) -> Seq<Listed>
    decreases ids.len(),
{
    if ids.len() == 0 {
        entries
    } else {
        let before = with_drydock_games(entries, ids.drop_last(), games, launch_paths, present);
        let id = ids.last();
        if lists_app(before, id) {
            before
        } else {
            before.push(
                Listed {
                    app_id: id,
                    name: games[id].name@,
                    installed: true,
                    launch_path: entry_of(launch_paths, id),
                    install_dir: if present.contains(id) {
                        Some(games[id].install_dir)
                    } else {
                        None
                    },
                    size_on_disk: None,
                    source: LibrarySource::DrydockInstalled,
                },
            )
        }
    }
}

/// A list with the games that are unlocked but not installed.
pub open spec fn with_available_games(
    entries: Seq<Listed>,
    ids: Seq<u32>,
    apps: Seq<CatalogApp>,
    launch_paths: Map<u32, String>,
) -> Seq<Listed>
    decreases ids.len(),
{
    if ids.len() == 0 {
        entries
    } else {
        let before = with_available_games(entries, ids.drop_last(), apps, launch_paths);
        let id = ids.last();
        if lists_app(before, id) || !is_game(id, display_name(apps, id)) {
            before
        } else {
            before.push(
                Listed {
                    app_id: id,
                    name: display_name(apps, id),
                    installed: false,
                    launch_path: entry_of(launch_paths, id),
                    install_dir: None,
                    size_on_disk: None,
                    source: LibrarySource::Available,
                },
            )
        }
    }
}

/// Whether no two entries are of the same app.
pub open spec fn apps_are_distinct(entries: Seq<Listed>) -> bool {
    forall|i: int, j: int|
        0 <= i < j < entries.len() ==> (#[trigger] entries[i]).app_id != (
        #[trigger] entries[j]).app_id
}

proof fn steam_games_are_distinct(
    manifests: Seq<SteamManifest>,
    launch_paths: Map<u32, String>,
)
    ensures
        apps_are_distinct(steam_games(manifests, launch_paths)),
    decreases manifests.len(),
{
    if manifests.len() > 0 {
        steam_games_are_distinct(manifests.drop_last(), launch_paths);
        let before = steam_games(manifests.drop_last(), launch_paths);
        let all = steam_games(manifests, launch_paths);
        assert forall|i: int, j: int| 0 <= i < j < all.len() implies (#[trigger] all[i]).app_id != (
        #[trigger] all[j]).app_id by {
            if j == before.len() {
                assert(all[i] == before[i]);
            }
        }
    }
}

proof fn drydock_games_stay_distinct(
    entries: Seq<Listed>,
    ids: Seq<u32>,
    games: Map<u32, InstalledGame>,
    launch_paths: Map<u32, String>,
    present: Set<u32>,
)
    requires
        apps_are_distinct(entries),
    ensures
        apps_are_distinct(with_drydock_games(entries, ids, games, launch_paths, present)),
    decreases ids.len(),
{
    if ids.len() > 0 {
        drydock_games_stay_distinct(entries, ids.drop_last(), games, launch_paths, present);
        let before = with_drydock_games(entries, ids.drop_last(), games, launch_paths, present);
        let all = with_drydock_games(entries, ids, games, launch_paths, present);
        assert forall|i: int, j: int| 0 <= i < j < all.len() implies (#[trigger] all[i]).app_id != (
        #[trigger] all[j]).app_id by {
            if j == before.len() {
                assert(all[i] == before[i]);
            }
        }
    }
}

proof fn available_games_stay_distinct(
    entries: Seq<Listed>,
    ids: Seq<u32>,
    apps: Seq<CatalogApp>,
    launch_paths: Map<u32, String>,
)
    requires
        apps_are_distinct(entries),
    ensures
        apps_are_distinct(with_available_games(entries, ids, apps, launch_paths)),
    decreases ids.len(),
{
    if ids.len() > 0 {
        available_games_stay_distinct(entries, ids.drop_last(), apps, launch_paths);
        let before = with_available_games(entries, ids.drop_last(), apps, launch_paths);
        let all = with_available_games(entries, ids, apps, launch_paths);
        assert forall|i: int, j: int| 0 <= i < j < all.len() implies (#[trigger] all[i]).app_id != (
        #[trigger] all[j]).app_id by {
            if j == before.len() {
                assert(all[i] == before[i]);
            }
        }
    }
}

fn has_app(entries: &Vec<LibraryEntry>, app_id: u32) -> (found: bool)
    ensures
        found == lists_app(listed(entries@), app_id),
{
    let mut i: usize = 0;
    while i < entries.len()
        invariant
            i <= entries@.len(),
            forall|k: int| 0 <= k < i ==> (#[trigger] listed(entries@)[k]).app_id != app_id,
        decreases entries@.len() - i,
    {
        if entries[i].app_id == app_id {
            assert(listed(entries@)[i as int].app_id == app_id);
            return true;
        }
        i += 1;
    }
    false
}

fn push_entry(entries: &mut Vec<LibraryEntry>, entry: LibraryEntry)
    ensures
        listed(final(entries)@) == listed(old(entries)@).push(entry@),
{
    let ghost before = listed(entries@);
    entries.push(entry);
    assert(listed(entries@) =~= before.push(entry@));
}

fn list_steam_games(
    manifests: &Vec<SteamManifest>,
    launch_paths: &BTreeMap<u32, String>,
) -> (entries: Vec<LibraryEntry>)
    ensures
        listed(entries@) == steam_games(manifests@, launch_paths@),
{
    let mut entries: Vec<LibraryEntry> = Vec::new();
    let mut i: usize = 0;
    assert(listed(entries@) =~= Seq::<Listed>::empty());
    while i < manifests.len()
        invariant
            i <= manifests@.len(),
            listed(entries@) == steam_games(manifests@.take(i as int), launch_paths@),
        decreases manifests@.len() - i,
    {
        proof {
            let now = manifests@.take(i + 1);
            assert(now.drop_last() =~= manifests@.take(i as int));
            assert(now.last() == manifests@[i as int]);
        }
        let manifest = &manifests[i];
        if is_real_game(manifest.app_id, manifest.name.as_str()) && !has_app(
            &entries,
            manifest.app_id,
        ) {
            let entry = LibraryEntry {
                app_id: manifest.app_id,
                name: manifest.name.clone(),
                installed: true,
                launch_path: text_of(launch_paths, manifest.app_id),
                install_dir: Some(manifest.install_dir.clone()),
                size_on_disk: manifest.size_on_disk,
                source: LibrarySource::SteamInstalled,
            };
            push_entry(&mut entries, entry);
        }
        i += 1;
    }
    assert(manifests@.take(i as int) =~= manifests@);
    entries
}

/// What a table holds for an installed game.
pub fn installed_game(games: &BTreeMap<u32, InstalledGame>, app_id: u32) -> (game: Option<
    InstalledGame,
>)
    ensures
        game == entry_of(games@, app_id),
{
    broadcast use vstd::std_specs::btree::group_btree_axioms;
    broadcast use vstd::laws_cmp::group_laws_cmp;

    assert(vstd::laws_cmp::obeys_cmp::<u32>());
    match games.get(&app_id) {
        Some(game) => Some(
            InstalledGame { name: game.name.clone(), install_dir: game.install_dir.clone() },
        ),
        None => None,
    }
}

fn list_drydock_games(
    entries: &mut Vec<LibraryEntry>,
    games: &BTreeMap<u32, InstalledGame>,
    launch_paths: &BTreeMap<u32, String>,
    present: &HashSet<u32>,
)
    ensures
        listed(final(entries)@) == with_drydock_games(
            listed(old(entries)@),
            in_order(games@.dom()),
            games@,
            launch_paths@,
            present@,
        ),
{
    let ghost before = listed(entries@);
    let ids = table_ids(games);
    let mut i: usize = 0;
    while i < ids.len()
        invariant
            i <= ids@.len(),
            before == listed(old(entries)@),
            ids@.to_set() == games@.dom(),
            listed(entries@) == with_drydock_games(
                before,
                ids@.take(i as int),
                games@,
                launch_paths@,
                present@,
            ),
        decreases ids@.len() - i,
    {
        let id: u32 = ids[i];
        assert(ids@.to_set().contains(id));
        proof {
            let now = ids@.take(i + 1);
            assert(now.drop_last() =~= ids@.take(i as int));
            assert(now.last() == id);
        }
        if !has_app(entries, id) {
            if let Some(game) = installed_game(games, id) {
                let install_dir = if present.contains(&id) {
                    Some(game.install_dir)
                } else {
                    None
                };
                let entry = LibraryEntry {
                    app_id: id,
                    name: game.name,
                    installed: true,
                    launch_path: text_of(launch_paths, id),
                    install_dir,
                    size_on_disk: None,
                    source: LibrarySource::DrydockInstalled,
                };
                push_entry(entries, entry);
            }
        }
        i += 1;
    }
    assert(ids@.take(i as int) =~= ids@);
}

/// The numbers of two lists, in order, each once.
fn united(a: Vec<u32>, b: Vec<u32>) -> (ids: Vec<u32>)
    ensures
        ids@ == in_order(a@.to_set().union(b@.to_set())),
{
    let ghost first = a@;
    let mut all = a;
    let mut i: usize = 0;
    while i < b.len()
        invariant
            i <= b@.len(),
            all@ == first + b@.take(i as int),
        decreases b@.len() - i,
    {
        all.push(b[i]);
        assert(b@.take(i + 1) =~= b@.take(i as int).push(b@[i as int]));
        assert(all@ =~= first + b@.take(i + 1));
        i += 1;
    }
    assert(b@.take(i as int) =~= b@);
    proof {
        assert forall|id: u32| all@.to_set().contains(id) <==> a@.to_set().union(
            b@.to_set(),
        ).contains(id) by {
            if a@.contains(id) {
                let k = choose|k: int| 0 <= k < a@.len() && a@[k] == id;
                assert(all@[k] == id);
            }
            if b@.contains(id) {
                let k = choose|k: int| 0 <= k < b@.len() && b@[k] == id;
                assert(all@[a@.len() + k] == id);
            }
            if all@.contains(id) {
                let k = choose|k: int| 0 <= k < all@.len() && all@[k] == id;
                if k < a@.len() {
                    assert(a@[k] == id);
                } else {
                    assert(b@[k - a@.len()] == id);
                }
            }
        }
        assert(all@.to_set() =~= a@.to_set().union(b@.to_set()));
    }
    sorted_distinct(&all)
}

/// What the list is sorted by.
pub open spec fn sort_keys(entries: Seq<Listed>) -> Seq<Seq<char>> {
    entries.map_values(|entry: Listed| lowercase(entry.name))
}

fn copy_entry(entry: &LibraryEntry) -> (copy: LibraryEntry)
    ensures
        copy == *entry,
{
    LibraryEntry {
        app_id: entry.app_id,
        name: entry.name.clone(),
        installed: entry.installed,
        launch_path: entry.launch_path.clone(),
        install_dir: entry.install_dir.clone(),
        size_on_disk: entry.size_on_disk,
        source: entry.source,
    }
}

/// Whether `sorted` is `entries` by lowercased name, equal names in the order they had.
pub open spec fn is_sorted_list(entries: Seq<Listed>, sorted: Seq<Listed>) -> bool {
    exists|order: Seq<usize>| #[trigger]
        orders(sort_keys(entries), order, 0, entries.len() as int) && sorted == order.map_values(
            |at: usize| entries[at as int],
        )
}

fn sort_entries(entries: Vec<LibraryEntry>) -> (sorted: Vec<LibraryEntry>)
    ensures
        is_sorted_list(listed(entries@), listed(sorted@)),
{
    let ghost models = listed(entries@);
    let mut keys: Vec<String> = Vec::new();
    let mut i: usize = 0;
    while i < entries.len()
        invariant
            i <= entries@.len(),
            keys@.len() == i,
            forall|k: int| 0 <= k < i ==> (#[trigger] keys@[k])@ == lowercase(entries@[k].name@),
        decreases entries@.len() - i,
    {
        let key = entries[i].name.as_str().to_lowercase();
        keys.push(key);
        i += 1;
    }
    assert(texts(keys@) =~= sort_keys(models));
    let order = sorted_order(&keys);
    let mut sorted: Vec<LibraryEntry> = Vec::new();
    let mut k: usize = 0;
    while k < order.len()
        invariant
            k <= order@.len(),
            models == listed(entries@),
            orders(sort_keys(models), order@, 0, entries@.len() as int),
            sorted@.len() == k,
            forall|m: int| 0 <= m < k ==> (#[trigger] sorted@[m])@ == models[order@[m] as int],
        decreases order@.len() - k,
    {
        let at: usize = order[k];
        let copy = copy_entry(&entries[at]);
        sorted.push(copy);
        k += 1;
    }
    assert(listed(sorted@) =~= order@.map_values(|at: usize| models[at as int]));
    sorted
}

/// A sorted list of distinct apps lists the same apps, each once.
pub proof fn sorting_keeps_the_games(entries: Seq<Listed>, sorted: Seq<Listed>)
    requires
        is_sorted_list(entries, sorted),
        apps_are_distinct(entries),
        entries.len() <= usize::MAX,
    ensures
        sorted.len() == entries.len(),
        apps_are_distinct(sorted),
        forall|app_id: u32| lists_app(sorted, app_id) <==> lists_app(entries, app_id),
{
    let order = choose|order: Seq<usize>| #[trigger]
        orders(sort_keys(entries), order, 0, entries.len() as int) && sorted == order.map_values(
            |at: usize| entries[at as int],
        );
    let keys = sort_keys(entries);
    assert forall|i: int, j: int| 0 <= i < j < sorted.len() implies (#[trigger] sorted[i]).app_id
        != (#[trigger] sorted[j]).app_id by {
        let a = order[i] as int;
        let b = order[j] as int;
        assert(crate::order::comes_before(keys, a, b));
        if a == b {
            crate::order::precedes_is_irreflexive(keys[a]);
        }
        if a < b {
            assert(entries[a].app_id != entries[b].app_id);
        } else {
            assert(entries[b].app_id != entries[a].app_id);
        }
    }
    assert forall|app_id: u32| lists_app(sorted, app_id) <==> lists_app(entries, app_id) by {
        if lists_app(sorted, app_id) {
            let i = choose|i: int|
                0 <= i < sorted.len() && (#[trigger] sorted[i]).app_id == app_id;
            assert(entries[order[i] as int].app_id == app_id);
        }
        if lists_app(entries, app_id) {
            let i = choose|i: int|
                0 <= i < entries.len() && (#[trigger] entries[i]).app_id == app_id;
            assert(order.contains(i as usize));
            let k = choose|k: int| 0 <= k < order.len() && order[k] == i as usize;
            assert(sorted[k].app_id == app_id);
        }
    }
}

impl DrydockApp {
    /// The apps that are unlocked: by a Lua in the plug-in folder, or as recorded.
    pub open spec fn unlocked_apps(&self) -> Set<u32> {
        self.steam.plugin_luas@.union(self.settings.added_apps@.dom())
    }

    /// The games of the library before they are sorted: those that Steam has installed, those that
    /// Drydock has, and those that are unlocked only. `present` holds the games of Drydock whose
    /// folder exists.
    pub open spec fn library_games(&self, present: Set<u32>) -> Seq<Listed> {
        let paths = self.settings.launch_paths@;
        let games = self.settings.installed_games@;
        with_available_games(
            with_drydock_games(
                steam_games(self.steam.manifests@, paths),
                in_order(games.dom()),
                games,
                paths,
                present,
            ),
            in_order(self.unlocked_apps()),
            self.catalog.apps@,
            paths,
        )
    }

    fn list_available_games(&self, entries: &mut Vec<LibraryEntry>)
        ensures
            listed(final(entries)@) == with_available_games(
                listed(old(entries)@),
                in_order(self.unlocked_apps()),
                self.catalog.apps@,
                self.settings.launch_paths@,
            ),
    {
        let ghost before = listed(entries@);
        let on_disk = set_ids(&self.steam.plugin_luas);
        let recorded = table_ids(&self.settings.added_apps);
        let ids = united(on_disk, recorded);
        let mut i: usize = 0;
        while i < ids.len()
            invariant
                i <= ids@.len(),
                before == listed(old(entries)@),
                listed(entries@) == with_available_games(
                    before,
                    ids@.take(i as int),
                    self.catalog.apps@,
                    self.settings.launch_paths@,
                ),
            decreases ids@.len() - i,
        {
            let id: u32 = ids[i];
            proof {
                let now = ids@.take(i + 1);
                assert(now.drop_last() =~= ids@.take(i as int));
                assert(now.last() == id);
            }
            let name = self.catalog.app_display_name(id);
            if !has_app(entries, id) && is_real_game(id, name.as_str()) {
                let entry = LibraryEntry {
                    app_id: id,
                    name,
                    installed: false,
                    launch_path: text_of(&self.settings.launch_paths, id),
                    install_dir: None,
                    size_on_disk: None,
                    source: LibrarySource::Available,
                };
                push_entry(entries, entry);
            }
            i += 1;
        }
        assert(ids@.take(i as int) =~= ids@);
    }

    /// The games of the library, by name. `present` holds the games of Drydock whose folder is still
    /// there.
    pub fn library_entries(&self, present: &HashSet<u32>) -> (entries: Vec<LibraryEntry>)
        ensures
            is_sorted_list(self.library_games(present@), listed(entries@)),
    {
        let mut entries = list_steam_games(&self.steam.manifests, &self.settings.launch_paths);
        list_drydock_games(
            &mut entries,
            &self.settings.installed_games,
            &self.settings.launch_paths,
            present,
        );
        self.list_available_games(&mut entries);
        sort_entries(entries)
    }
}

/// The library lists every game once, however it came to be there.
pub proof fn library_lists_each_game_once(app: DrydockApp, present: Set<u32>)
    ensures
        apps_are_distinct(app.library_games(present)),
{
    let paths = app.settings.launch_paths@;
    let games = app.settings.installed_games@;
    let steam = steam_games(app.steam.manifests@, paths);
    steam_games_are_distinct(app.steam.manifests@, paths);
    drydock_games_stay_distinct(steam, in_order(games.dom()), games, paths, present);
    available_games_stay_distinct(
        with_drydock_games(steam, in_order(games.dom()), games, paths, present),
        in_order(app.unlocked_apps()),
        app.catalog.apps@,
        paths,
    );
}

proof fn drydock_games_keep_the_list(
    entries: Seq<Listed>,
    ids: Seq<u32>,
    games: Map<u32, InstalledGame>,
    launch_paths: Map<u32, String>,
    present: Set<u32>,
)
    ensures
        entries.is_prefix_of(with_drydock_games(entries, ids, games, launch_paths, present)),
        forall|i: int|
            entries.len() <= i < with_drydock_games(
                entries,
                ids,
                games,
                launch_paths,
                present,
            ).len() ==> (#[trigger] with_drydock_games(
                entries,
                ids,
                games,
                launch_paths,
                present,
            )[i]).source == LibrarySource::DrydockInstalled,
        forall|k: int|
            0 <= k < ids.len() ==> lists_app(
                with_drydock_games(entries, ids, games, launch_paths, present),
                #[trigger] ids[k],
            ),
    decreases ids.len(),
{
    if ids.len() > 0 {
        drydock_games_keep_the_list(entries, ids.drop_last(), games, launch_paths, present);
        let before = with_drydock_games(entries, ids.drop_last(), games, launch_paths, present);
        let all = with_drydock_games(entries, ids, games, launch_paths, present);
        assert(entries.is_prefix_of(all)) by {
            assert(before.is_prefix_of(all));
        }
        assert forall|k: int| 0 <= k < ids.len() implies lists_app(all, #[trigger] ids[k]) by {
            if k < ids.len() - 1 {
                assert(ids.drop_last()[k] == ids[k]);
                let i = choose|i: int|
                    0 <= i < before.len() && (#[trigger] before[i]).app_id == ids[k];
                assert(all[i].app_id == ids[k]);
            } else if lists_app(before, ids.last()) {
                assert(all == before);
            } else {
                assert(all[before.len() as int].app_id == ids[k]);
            }
        }
    } else {
        assert(entries.is_prefix_of(entries));
    }
}

proof fn available_games_keep_the_list(
    entries: Seq<Listed>,
    ids: Seq<u32>,
    apps: Seq<CatalogApp>,
    launch_paths: Map<u32, String>,
)
    ensures
        entries.is_prefix_of(with_available_games(entries, ids, apps, launch_paths)),
        forall|i: int|
            entries.len() <= i < with_available_games(entries, ids, apps, launch_paths).len() ==> {
                let entry = #[trigger] with_available_games(entries, ids, apps, launch_paths)[i];
                &&& entry.source == LibrarySource::Available
                &&& !entry.installed
                &&& ids.contains(entry.app_id)
                &&& !lists_app(entries, entry.app_id)
            },
    decreases ids.len(),
{
    if ids.len() > 0 {
        let rest = ids.drop_last();
        available_games_keep_the_list(entries, rest, apps, launch_paths);
        let before = with_available_games(entries, rest, apps, launch_paths);
        let all = with_available_games(entries, ids, apps, launch_paths);
        assert(entries.is_prefix_of(all)) by {
            assert(before.is_prefix_of(all));
        }
        assert forall|i: int| entries.len() <= i < all.len() implies {
            let entry = #[trigger] all[i];
            &&& entry.source == LibrarySource::Available
            &&& !entry.installed
            &&& ids.contains(entry.app_id)
            &&& !lists_app(entries, entry.app_id)
        } by {
            if i < before.len() {
                assert(all[i] == before[i]);
                assert(rest.contains(before[i].app_id));
                let k = choose|k: int| 0 <= k < rest.len() && rest[k] == before[i].app_id;
                assert(ids[k] == all[i].app_id);
            } else {
                assert(ids[ids.len() - 1] == all[i].app_id);
                if lists_app(entries, all[i].app_id) {
                    let k = choose|k: int|
                        0 <= k < entries.len() && (#[trigger] entries[k]).app_id == all[i].app_id;
                    assert(before[k] == entries[k]);
                    assert(lists_app(before, all[i].app_id));
                }
            }
        }
    } else {
        assert(entries.is_prefix_of(entries));
    }
}

/// A game that Drydock installed is in the library, and a game listed as available only is
/// unlocked and not installed.
pub proof fn installed_games_are_not_offered(app: DrydockApp, present: Set<u32>, i: int)
    requires
        0 <= i < app.library_games(present).len(),
        app.library_games(present)[i].source == LibrarySource::Available,
        app.settings.installed_games@.dom().finite(),
        app.unlocked_apps().finite(),
    ensures
        !app.settings.installed_games@.contains_key(app.library_games(present)[i].app_id),
        app.unlocked_apps().contains(app.library_games(present)[i].app_id),
{
    let paths = app.settings.launch_paths@;
    let games = app.settings.installed_games@;
    let ids = in_order(games.dom());
    let steam = steam_games(app.steam.manifests@, paths);
    let installed = with_drydock_games(steam, ids, games, paths, present);
    let unlocked = in_order(app.unlocked_apps());
    crate::ids::finite_set_has_an_order(games.dom());
    crate::ids::finite_set_has_an_order(app.unlocked_apps());
    steam_games_are_installed(app.steam.manifests@, paths);
    drydock_games_keep_the_list(steam, ids, games, paths, present);
    available_games_keep_the_list(installed, unlocked, app.catalog.apps@, paths);
    let all = app.library_games(present);
    let entry = all[i];
    if i < installed.len() {
        assert(installed[i] == entry);
        if i < steam.len() {
            assert(steam[i] == entry);
        }
        assert(false);
    }
    assert(unlocked.to_set().contains(entry.app_id));
    if games.contains_key(entry.app_id) {
        assert(ids.to_set().contains(entry.app_id));
        let k = choose|k: int| 0 <= k < ids.len() && ids[k] == entry.app_id;
        assert(lists_app(installed, ids[k]));
    }
}

proof fn steam_games_are_installed(
    manifests: Seq<SteamManifest>,
    launch_paths: Map<u32, String>,
)
    ensures
        forall|i: int|
            0 <= i < steam_games(manifests, launch_paths).len() ==> (#[trigger] steam_games(
                manifests,
                launch_paths,
            )[i]).source == LibrarySource::SteamInstalled,
    decreases manifests.len(),
{
    if manifests.len() > 0 {
        steam_games_are_installed(manifests.drop_last(), launch_paths);
    }
}

/// Whether the library shows a game under a filter and a search term, both the term and the name of
/// the game in lowercase.
pub open spec fn passes(
    filter: LibraryFilter,
    installed: bool,
    lower_name: Seq<char>,
    term: Seq<char>,
) -> bool {
    &&& match filter {
        LibraryFilter::All => true,
        LibraryFilter::Installed => installed,
        LibraryFilter::Available => !installed,
    }
    &&& term.len() == 0 || contains_text(lower_name, term)
}

/// Whether the library shows a game, given its name and the search term in lowercase.
pub fn passes_lowered(filter: LibraryFilter, installed: bool, lower_name: &str, term: &str) -> (shown:
    bool)
    ensures
        shown == passes(filter, installed, lower_name@, term@),
{
    let kept = match filter {
        LibraryFilter::All => true,
        LibraryFilter::Installed => installed,
        LibraryFilter::Available => !installed,
    };
    kept && (no_text(term) || contains(lower_name, term))
}

/// Whether the library shows an entry under a filter and a search term that is trimmed and
/// lowercased.
pub open spec fn is_shown(entry: Listed, filter: LibraryFilter, term: Seq<char>) -> bool {
    passes(filter, entry.installed, lowercase(entry.name), term)
}

impl LibraryState {
    /// The places of the entries that the filter and the search leave.
    pub open spec fn shown_places(&self, entries: Seq<LibraryEntry>) -> Seq<usize> {
        first_kept(
            entries.len(),
            |at: int| is_shown(entries[at]@, self.filter, lowercase(trimmed(self.search@))),
            entries.len(),
        )
    }

    /// The places of the entries that the filter and the search leave.
    pub fn shown_entries(&self, entries: &Vec<LibraryEntry>) -> (places: Vec<usize>)
        ensures
            places@ == self.shown_places(entries@),
    {
        let trimmed_search = trim(self.search.as_str());
        let term = trimmed_search.as_str().to_lowercase();
        let ghost keep = |at: int|
            is_shown(entries@[at]@, self.filter, lowercase(trimmed(self.search@)));
        let mut places: Vec<usize> = Vec::new();
        let mut i: usize = 0;
        while i < entries.len()
            invariant
                i <= entries@.len(),
                keep == (|at: int|
                    is_shown(entries@[at]@, self.filter, lowercase(trimmed(self.search@)))),
                term@ == lowercase(trimmed(self.search@)),
                places@ == first_kept(i as nat, keep, entries@.len()),
                places@.len() <= i,
            decreases entries@.len() - i,
        {
            let entry = &entries[i];
            let lower = entry.name.as_str().to_lowercase();
            let shown = passes_lowered(self.filter, entry.installed, lower.as_str(), term.as_str());
            assert(shown == keep(i as int));
            if shown {
                places.push(i);
            }
            i += 1;
        }
        places
    }

    /// Shows every game again.
    pub fn clear_filters(&mut self)
        ensures
            *final(self) == (LibraryState {
                search: final(self).search,
                filter: LibraryFilter::All,
                ..*old(self)
            }),
            final(self).search@ == Seq::<char>::empty(),
    {
        self.search = String::new();
        self.filter = LibraryFilter::All;
    }

    /// Opens the window of a game.
    pub fn open_game(&mut self, app_id: u32)
        ensures
            *final(self) == (LibraryState {
                modal: Some(app_id),
                selected: Some(app_id),
                ..*old(self)
            }),
    {
        self.modal = Some(app_id);
        self.selected = Some(app_id);
    }

    /// The place of the game whose window is open. A window of a game that is gone is closed.
    pub fn open_entry(&mut self, entries: &Vec<LibraryEntry>) -> (place: Option<usize>)
        ensures
            *final(self) == (LibraryState { modal: final(self).modal, ..*old(self) }),
            match old(self).modal {
                None => place is None && final(self).modal is None,
                Some(app_id) => if lists_app(listed(entries@), app_id) {
                    &&& final(self).modal == Some(app_id)
                    &&& place matches Some(at) && at < entries@.len() && entries@[at as int].app_id
                        == app_id && forall|k: int|
                        0 <= k < at ==> (#[trigger] entries@[k]).app_id != app_id
                } else {
                    place is None && final(self).modal is None
                },
            },
    {
        let app_id: u32 = match self.modal {
            Some(app_id) => app_id,
            None => {
                return None;
            },
        };
        let mut i: usize = 0;
        while i < entries.len()
            invariant
                i <= entries@.len(),
                *self == *old(self),
                self.modal == Some(app_id),
                forall|k: int| 0 <= k < i ==> (#[trigger] entries@[k]).app_id != app_id,
            decreases entries@.len() - i,
        {
            if entries[i].app_id == app_id {
                assert(listed(entries@)[i as int].app_id == app_id);
                return Some(i);
            }
            i += 1;
        }
        proof {
            if lists_app(listed(entries@), app_id) {
                let k = choose|k: int|
                    0 <= k < listed(entries@).len() && (#[trigger] listed(entries@)[k]).app_id
                        == app_id;
                assert(entries@[k].app_id == app_id);
            }
        }
        self.modal = None;
        None
    }
}

/// How many of a list are installed.
pub open spec fn installed_count(entries: Seq<Listed>) -> nat
    decreases entries.len(),
{
    if entries.len() == 0 {
        0
    } else {
        installed_count(entries.drop_last()) + if entries.last().installed {
            1nat
        } else {
            0
        }
    }
}

/// How many games the library has, installed, available and in all.
pub struct LibraryCounts {
    pub installed: usize,
    pub available: usize,
    pub total: usize,
}

/// How many games the library has.
pub fn count_entries(entries: &Vec<LibraryEntry>) -> (counts: LibraryCounts)
    ensures
        counts.installed == installed_count(listed(entries@)),
        counts.total == entries@.len(),
        counts.installed + counts.available == counts.total,
{
    let ghost models = listed(entries@);
    let mut installed: usize = 0;
    let mut i: usize = 0;
    assert(models.take(0) =~= Seq::<Listed>::empty());
    while i < entries.len()
        invariant
            i <= entries@.len(),
            models == listed(entries@),
            installed <= i,
            installed == installed_count(models.take(i as int)),
        decreases entries@.len() - i,
    {
        proof {
            let now = models.take(i + 1);
            assert(now.drop_last() =~= models.take(i as int));
            assert(now.last() == entries@[i as int]@);
        }
        if entries[i].installed {
            installed += 1;
        }
        i += 1;
    }
    assert(models.take(i as int) =~= models);
    LibraryCounts { installed, available: entries.len() - installed, total: entries.len() }
}

impl LibraryCounts {
    /// The labels of the filters.
    pub fn filter_label(&self, filter: LibraryFilter) -> (label: String)
        ensures
            label@ == (match filter {
                LibraryFilter::All => "All ("@ + decimal_text(self.total as nat) + ")"@,
                LibraryFilter::Installed => "Installed ("@ + decimal_text(self.installed as nat)
                    + ")"@,
                LibraryFilter::Available => "Available ("@ + decimal_text(self.available as nat)
                    + ")"@,
            }),
    {
        match filter {
            LibraryFilter::All => {
                let number = decimal(self.total as u64);
                cat3("All (", number.as_str(), ")")
            },
            LibraryFilter::Installed => {
                let number = decimal(self.installed as u64);
                cat3("Installed (", number.as_str(), ")")
            },
            LibraryFilter::Available => {
                let number = decimal(self.available as u64);
                cat3("Available (", number.as_str(), ")")
            },
        }
    }

    /// The pills of the heading, from the right.
    pub fn pills(&self) -> (pills: [(String, Tone); 3])
        ensures
            pills@[0].0@ == decimal_text(self.installed as nat) + " INSTALLED"@,
            pills@[0].1 == Tone::Verdigris,
            pills@[1].0@ == decimal_text(self.available as nat) + " AVAILABLE"@,
            pills@[1].1 == Tone::Amber,
            pills@[2].0@ == decimal_text(self.total as nat) + " TOTAL"@,
            pills@[2].1 == Tone::Accent,
    {
        let installed = decimal(self.installed as u64);
        let available = decimal(self.available as u64);
        let total = decimal(self.total as u64);
        [
            (cat2(installed.as_str(), " INSTALLED"), Tone::Verdigris),
            (cat2(available.as_str(), " AVAILABLE"), Tone::Amber),
            (cat2(total.as_str(), " TOTAL"), Tone::Accent),
        ]
    }
}

} // verus!
