//! What the library promises: every game that is installed or unlocked is listed once, as it is,
//! and found again by its name.
use crate::catalog::{display_name, first_kept, kept_places_ascend, kept_places_are_listed};
use crate::ids::{finite_set_has_an_order, in_order};
use crate::laws::text::{a_part_is_found_wherever_it_stands, core_is_left, is_padding, is_tight};
use crate::library::{
    count_entries, installed_count, is_game, is_shown, is_sorted_list, library_lists_each_game_once,
    listed, lists_app, sort_keys, steam_games, with_available_games, with_drydock_games,
    LibraryCounts, LibraryEntry, LibrarySource, Listed,
};
use crate::library_page::{LibraryAction, LibraryBody, LibraryView, OverviewButton};
use crate::order::orders;
use crate::state::{DrydockApp, InstalledGame, LibraryFilter, LibraryState};
use crate::text::{lowercase, precedes, trimmed};
use crate::types::{CatalogApp, SteamManifest};
use std::collections::HashSet;
use vstd::prelude::*;

verus! {

/// Whether an app is one of Steam's own runtimes or redistributables, by its number or by what its
/// lowercased name holds.
pub open spec fn is_runtime(app_id: u32, name: Seq<char>) -> bool {
    let lower = lowercase(name);
    ||| app_id == 228980
    ||| app_id == 1070560
    ||| app_id == 1391110
    ||| app_id == 1628350
    ||| exists|a: Seq<char>, b: Seq<char>| lower == #[trigger] (a + "redistributable"@ + b)
    ||| exists|a: Seq<char>, b: Seq<char>| lower == #[trigger] (a + "steam linux runtime"@ + b)
    ||| exists|b: Seq<char>| lower == #[trigger] ("proton"@ + b)
}

/// A game is whatever is no runtime.
pub proof fn runtimes_are_no_games(app_id: u32, name: Seq<char>)
    ensures
        is_game(app_id, name) <==> !is_runtime(app_id, name),
{
    let lower = lowercase(name);
    a_part_is_found_wherever_it_stands(lower, "redistributable"@);
    a_part_is_found_wherever_it_stands(lower, "steam linux runtime"@);
    let part = "proton"@;
    if part.is_prefix_of(lower) {
        assert(lower =~= part + lower.skip(part.len() as int));
    }
    if exists|b: Seq<char>| lower == #[trigger] (part + b) {
        let b = choose|b: Seq<char>| lower == #[trigger] (part + b);
        assert(part.is_prefix_of(part + b));
    }
}

/// The entry that a Steam manifest asks for.
pub open spec fn steam_entry(entry: Listed, manifest: SteamManifest) -> bool {
    &&& entry.app_id == manifest.app_id
    &&& entry.name == manifest.name@
    &&& entry.installed
    &&& entry.source == LibrarySource::SteamInstalled
    &&& entry.size_on_disk == manifest.size_on_disk
    &&& entry.install_dir == Some(manifest.install_dir)
}

proof fn a_manifest_is_taken(
    manifests: Seq<SteamManifest>,
    paths: Map<u32, String>,
    m: int,
)
    requires
        0 <= m < manifests.len(),
        is_game(manifests[m].app_id, manifests[m].name@),
        forall|k: int|
            0 <= k < m ==> (#[trigger] manifests[k]).app_id != manifests[m].app_id,
    ensures
        exists|i: int|
            0 <= i < steam_games(manifests, paths).len() && steam_entry(
                #[trigger] steam_games(manifests, paths)[i],
                manifests[m],
            ) && steam_games(manifests, paths)[i].launch_path == (if paths.contains_key(
                manifests[m].app_id,
            ) {
                Some(paths[manifests[m].app_id])
            } else {
                None
            }),
    decreases manifests.len(),
{
    let rest = manifests.drop_last();
    let before = steam_games(rest, paths);
    let all = steam_games(manifests, paths);
    if m < manifests.len() - 1 {
        assert(rest[m] == manifests[m]);
        assert forall|k: int| 0 <= k < m implies (#[trigger] rest[k]).app_id
            != rest[m].app_id by {
            assert(rest[k] == manifests[k]);
        }
        a_manifest_is_taken(rest, paths, m);
        let i = choose|i: int|
            0 <= i < before.len() && steam_entry(#[trigger] before[i], manifests[m])
                && before[i].launch_path == (if paths.contains_key(manifests[m].app_id) {
                Some(paths[manifests[m].app_id])
            } else {
                None
            });
        assert(all[i] == before[i]);
    } else {
        listed_games_have_manifests(rest, paths);
        if lists_app(before, manifests[m].app_id) {
            let i = choose|i: int|
                0 <= i < before.len() && (#[trigger] before[i]).app_id == manifests[m].app_id;
            let k = choose|k: int|
                0 <= k < rest.len() && steam_entry(before[i], #[trigger] rest[k]) && is_game(
                    rest[k].app_id,
                    rest[k].name@,
                );
            assert(rest[k] == manifests[k]);
            assert(false);
        }
        assert(steam_entry(all[before.len() as int], manifests[m]));
    }
}

proof fn listed_games_have_manifests(manifests: Seq<SteamManifest>, paths: Map<u32, String>)
    ensures
        forall|i: int|
            #![trigger steam_games(manifests, paths)[i]]
            0 <= i < steam_games(manifests, paths).len() ==> exists|k: int|
                0 <= k < manifests.len() && steam_entry(
                    steam_games(manifests, paths)[i],
                    #[trigger] manifests[k],
                ) && is_game(manifests[k].app_id, manifests[k].name@),
    decreases manifests.len(),
{
    if manifests.len() > 0 {
        let rest = manifests.drop_last();
        listed_games_have_manifests(rest, paths);
        let before = steam_games(rest, paths);
        let all = steam_games(manifests, paths);
        assert forall|i: int| #![trigger all[i]] 0 <= i < all.len() implies exists|k: int|
            0 <= k < manifests.len() && steam_entry(all[i], #[trigger] manifests[k]) && is_game(
                manifests[k].app_id,
                manifests[k].name@,
            ) by {
            if i < before.len() {
                assert(all[i] == before[i]);
                let k = choose|k: int|
                    0 <= k < rest.len() && steam_entry(before[i], #[trigger] rest[k]) && is_game(
                        rest[k].app_id,
                        rest[k].name@,
                    );
                assert(manifests[k] == rest[k]);
            } else {
                assert(steam_entry(all[i], manifests[manifests.len() - 1]));
            }
        }
    }
}

/// The entry that a game installed by Drydock asks for.
pub open spec fn drydock_entry(
    entry: Listed,
    app_id: u32,
    game: InstalledGame,
    present: bool,
) -> bool {
    &&& entry.app_id == app_id
    &&& entry.name == game.name@
    &&& entry.installed
    &&& entry.source == LibrarySource::DrydockInstalled
    &&& entry.size_on_disk is None
    &&& entry.install_dir == (if present {
        Some(game.install_dir)
    } else {
        None
    })
}

proof fn drydock_games_are_added(
    entries: Seq<Listed>,
    ids: Seq<u32>,
    games: Map<u32, InstalledGame>,
    paths: Map<u32, String>,
    present: Set<u32>,
)
    ensures
        ({
            let all = with_drydock_games(entries, ids, games, paths, present);
            &&& entries.is_prefix_of(all)
            &&& forall|i: int| #![trigger all[i]]
                entries.len() <= i < all.len() ==> ids.contains(all[i].app_id) && drydock_entry(
                    all[i],
                    all[i].app_id,
                    games[all[i].app_id],
                    present.contains(all[i].app_id),
                ) && all[i].launch_path == (if paths.contains_key(all[i].app_id) {
                    Some(paths[all[i].app_id])
                } else {
                    None
                })
            &&& forall|k: int| 0 <= k < ids.len() ==> lists_app(all, #[trigger] ids[k])
        }),
    decreases ids.len(),
{
    let all = with_drydock_games(entries, ids, games, paths, present);
    if ids.len() == 0 {
        assert(entries.is_prefix_of(all));
    } else {
        let rest = ids.drop_last();
        drydock_games_are_added(entries, rest, games, paths, present);
        let before = with_drydock_games(entries, rest, games, paths, present);
        assert(before.is_prefix_of(all));
        assert(entries.is_prefix_of(all));
        assert forall|i: int| #![trigger all[i]] entries.len() <= i < all.len() implies ids.contains(
            all[i].app_id,
        ) && drydock_entry(
            all[i],
            all[i].app_id,
            games[all[i].app_id],
            present.contains(all[i].app_id),
        ) && all[i].launch_path == (if paths.contains_key(all[i].app_id) {
            Some(paths[all[i].app_id])
        } else {
            None
        }) by {
            if i < before.len() {
                assert(all[i] == before[i]);
                let k = choose|k: int| 0 <= k < rest.len() && rest[k] == before[i].app_id;
                assert(ids[k] == all[i].app_id);
            } else {
                assert(ids[ids.len() - 1] == all[i].app_id);
            }
        }
        assert forall|k: int| 0 <= k < ids.len() implies lists_app(all, #[trigger] ids[k]) by {
            if k < rest.len() {
                assert(rest[k] == ids[k]);
                let i = choose|i: int|
                    0 <= i < before.len() && (#[trigger] before[i]).app_id == ids[k];
                assert(all[i].app_id == ids[k]);
            } else if lists_app(before, ids.last()) {
                assert(all == before);
            } else {
                assert(all[before.len() as int].app_id == ids[k]);
            }
        }
    }
}

/// The entry that an app which is unlocked only asks for.
pub open spec fn available_entry(entry: Listed, app_id: u32, name: Seq<char>) -> bool {
    &&& entry.app_id == app_id
    &&& entry.name == name
    &&& !entry.installed
    &&& entry.source == LibrarySource::Available
    &&& entry.size_on_disk is None
    &&& entry.install_dir is None
}

proof fn available_games_are_added(
    entries: Seq<Listed>,
    ids: Seq<u32>,
    apps: Seq<CatalogApp>,
    paths: Map<u32, String>,
)
    ensures
        ({
            let all = with_available_games(entries, ids, apps, paths);
            &&& entries.is_prefix_of(all)
            &&& forall|i: int| #![trigger all[i]]
                entries.len() <= i < all.len() ==> ids.contains(all[i].app_id) && !lists_app(
                    entries,
                    all[i].app_id,
                ) && is_game(all[i].app_id, display_name(apps, all[i].app_id)) && available_entry(
                    all[i],
                    all[i].app_id,
                    display_name(apps, all[i].app_id),
                )
            &&& forall|k: int|
                0 <= k < ids.len() ==> lists_app(all, #[trigger] ids[k]) || !is_game(
                    ids[k],
                    display_name(apps, ids[k]),
                )
        }),
    decreases ids.len(),
{
    let all = with_available_games(entries, ids, apps, paths);
    if ids.len() == 0 {
        assert(entries.is_prefix_of(all));
    } else {
        let rest = ids.drop_last();
        available_games_are_added(entries, rest, apps, paths);
        let before = with_available_games(entries, rest, apps, paths);
        assert(before.is_prefix_of(all));
        assert(entries.is_prefix_of(all));
        assert forall|i: int| #![trigger all[i]] entries.len() <= i < all.len() implies ids.contains(
            all[i].app_id,
        ) && !lists_app(entries, all[i].app_id) && is_game(
            all[i].app_id,
            display_name(apps, all[i].app_id),
        ) && available_entry(all[i], all[i].app_id, display_name(apps, all[i].app_id)) by {
            if i < before.len() {
                assert(all[i] == before[i]);
                let k = choose|k: int| 0 <= k < rest.len() && rest[k] == before[i].app_id;
                assert(ids[k] == all[i].app_id);
            } else {
                assert(ids[ids.len() - 1] == all[i].app_id);
                if lists_app(entries, all[i].app_id) {
                    let k = choose|k: int|
                        0 <= k < entries.len() && (#[trigger] entries[k]).app_id == all[i].app_id;
                    assert(before[k] == entries[k]);
                    assert(lists_app(before, all[i].app_id));
                }
            }
        }
        assert forall|k: int| 0 <= k < ids.len() implies lists_app(all, #[trigger] ids[k])
            || !is_game(ids[k], display_name(apps, ids[k])) by {
            if k < rest.len() {
                assert(rest[k] == ids[k]);
                if lists_app(before, ids[k]) {
                    let i = choose|i: int|
                        0 <= i < before.len() && (#[trigger] before[i]).app_id == ids[k];
                    assert(all[i].app_id == ids[k]);
                }
            } else if lists_app(before, ids.last()) {
                assert(all == before);
            } else if is_game(ids[k], display_name(apps, ids[k])) {
                assert(all[before.len() as int].app_id == ids[k]);
            }
        }
    }
}

proof fn sorting_moves_entries(entries: Seq<Listed>, sorted: Seq<Listed>)
    requires
        is_sorted_list(entries, sorted),
        entries.len() <= usize::MAX,
    ensures
        sorted.len() == entries.len(),
        forall|i: int| 0 <= i < entries.len() ==> sorted.contains(#[trigger] entries[i]),
        forall|i: int| 0 <= i < sorted.len() ==> entries.contains(#[trigger] sorted[i]),
{
    let order = choose|order: Seq<usize>| #[trigger]
        orders(sort_keys(entries), order, 0, entries.len() as int) && sorted == order.map_values(
            |at: usize| entries[at as int],
        );
    assert forall|i: int| 0 <= i < entries.len() implies sorted.contains(#[trigger] entries[i]) by {
        assert(order.contains(i as usize));
        let k = choose|k: int| 0 <= k < order.len() && order[k] == i as usize;
        assert(sorted[k] == entries[i]);
    }
    assert forall|i: int| 0 <= i < sorted.len() implies entries.contains(#[trigger] sorted[i]) by {
        assert(sorted[i] == entries[order[i] as int]);
    }
}

/// Whether an entry stands in a list.
pub open spec fn has_entry(entries: Seq<LibraryEntry>, wanted: spec_fn(Listed) -> bool) -> bool {
    exists|i: int| 0 <= i < entries.len() && wanted((#[trigger] entries[i])@)
}

/// Every game that Steam has installed is in the library with the name, the folder and the size of
/// its first manifest, whatever they are. Steam's own runtimes are not.
pub proof fn every_steam_game_is_listed(
    app: &DrydockApp,
    present: &HashSet<u32>,
    entries: Vec<LibraryEntry>,
    m: int,
)
    requires
        call_ensures(DrydockApp::library_entries, (app, present), entries),
        app.library_games(present@).len() <= usize::MAX,
        0 <= m < app.steam.manifests@.len(),
        !is_runtime(app.steam.manifests@[m].app_id, app.steam.manifests@[m].name@),
        forall|k: int|
            0 <= k < m ==> (#[trigger] app.steam.manifests@[k]).app_id
                != app.steam.manifests@[m].app_id,
    ensures
        has_entry(
            entries@,
            |entry: Listed|
                steam_entry(entry, app.steam.manifests@[m]) && entry.launch_path == (
                if app.settings.launch_paths@.contains_key(entry.app_id) {
                    Some(app.settings.launch_paths@[entry.app_id])
                } else {
                    None
                }),
        ),
{
    let manifest = app.steam.manifests@[m];
    let paths = app.settings.launch_paths@;
    let games = app.settings.installed_games@;
    let steam = steam_games(app.steam.manifests@, paths);
    let ids = in_order(games.dom());
    let installed = with_drydock_games(steam, ids, games, paths, present@);
    let unlocked = in_order(app.unlocked_apps());
    let all = app.library_games(present@);
    runtimes_are_no_games(manifest.app_id, manifest.name@);
    a_manifest_is_taken(app.steam.manifests@, paths, m);
    drydock_games_are_added(steam, ids, games, paths, present@);
    available_games_are_added(installed, unlocked, app.catalog.apps@, paths);
    let i = choose|i: int|
        0 <= i < steam.len() && steam_entry(#[trigger] steam[i], manifest) && steam[i].launch_path
            == (if paths.contains_key(manifest.app_id) {
            Some(paths[manifest.app_id])
        } else {
            None
        });
    assert(installed[i] == steam[i]);
    assert(all[i] == steam[i]);
    sorting_moves_entries(all, listed(entries@));
    assert(listed(entries@).contains(all[i]));
    let k = choose|k: int| 0 <= k < listed(entries@).len() && listed(entries@)[k] == all[i];
    assert(entries@[k]@ == all[i]);
}

/// Every game that Drydock has installed is in the library as installed. Where Steam has no game of
/// the same App ID, it stands there under its own name and with its folder if that is there.
pub proof fn every_drydock_game_is_listed(
    app: &DrydockApp,
    present: &HashSet<u32>,
    entries: Vec<LibraryEntry>,
    app_id: u32,
)
    requires
        call_ensures(DrydockApp::library_entries, (app, present), entries),
        app.library_games(present@).len() <= usize::MAX,
        app.settings.installed_games@.dom().finite(),
        app.settings.installed_games@.contains_key(app_id),
    ensures
        has_entry(entries@, |entry: Listed| entry.app_id == app_id && entry.installed),
        (forall|k: int|
            0 <= k < app.steam.manifests@.len() ==> (#[trigger] app.steam.manifests@[k]).app_id
                != app_id) ==> has_entry(
            entries@,
            |entry: Listed|
                drydock_entry(
                    entry,
                    app_id,
                    app.settings.installed_games@[app_id],
                    present@.contains(app_id),
                ),
        ),
{
    let paths = app.settings.launch_paths@;
    let games = app.settings.installed_games@;
    let steam = steam_games(app.steam.manifests@, paths);
    let ids = in_order(games.dom());
    let installed = with_drydock_games(steam, ids, games, paths, present@);
    let unlocked = in_order(app.unlocked_apps());
    let all = app.library_games(present@);
    finite_set_has_an_order(games.dom());
    listed_games_have_manifests(app.steam.manifests@, paths);
    drydock_games_are_added(steam, ids, games, paths, present@);
    available_games_are_added(installed, unlocked, app.catalog.apps@, paths);
    sorting_moves_entries(all, listed(entries@));
    assert(ids.to_set().contains(app_id));
    let n = choose|n: int| 0 <= n < ids.len() && ids[n] == app_id;
    assert(lists_app(installed, ids[n]));
    let i = choose|i: int| 0 <= i < installed.len() && (#[trigger] installed[i]).app_id == app_id;
    assert(all[i] == installed[i]);
    assert(listed(entries@).contains(all[i]));
    let k = choose|k: int| 0 <= k < listed(entries@).len() && listed(entries@)[k] == all[i];
    assert(entries@[k]@ == all[i]);
    if i < steam.len() {
        assert(installed[i] == steam[i]);
        let m = choose|m: int|
            0 <= m < app.steam.manifests@.len() && steam_entry(
                steam[i],
                #[trigger] app.steam.manifests@[m],
            ) && is_game(app.steam.manifests@[m].app_id, app.steam.manifests@[m].name@);
        assert(app.steam.manifests@[m].app_id == app_id);
    }
    let wanted = |entry: Listed| entry.app_id == app_id && entry.installed;
    assert(wanted(entries@[k]@));
}

/// Every app that is unlocked, by a Lua on disk or as recorded, and that nobody has installed is in
/// the library under its display name, unless it is one of Steam's runtimes.
pub proof fn every_unlocked_game_is_listed(
    app: &DrydockApp,
    present: &HashSet<u32>,
    entries: Vec<LibraryEntry>,
    app_id: u32,
    name: String,
)
    requires
        call_ensures(DrydockApp::library_entries, (app, present), entries),
        call_ensures(crate::catalog::Catalog::app_display_name, (&app.catalog, app_id), name),
        app.library_games(present@).len() <= usize::MAX,
        app.settings.installed_games@.dom().finite(),
        app.unlocked_apps().finite(),
        app.steam.plugin_luas@.contains(app_id) || app.settings.added_apps@.contains_key(app_id),
        !app.settings.installed_games@.contains_key(app_id),
        forall|k: int|
            0 <= k < app.steam.manifests@.len() ==> (#[trigger] app.steam.manifests@[k]).app_id
                != app_id,
        !is_runtime(app_id, name@),
    ensures
        has_entry(entries@, |entry: Listed| available_entry(entry, app_id, name@)),
{
    let paths = app.settings.launch_paths@;
    let games = app.settings.installed_games@;
    let steam = steam_games(app.steam.manifests@, paths);
    let ids = in_order(games.dom());
    let installed = with_drydock_games(steam, ids, games, paths, present@);
    let unlocked = in_order(app.unlocked_apps());
    let all = app.library_games(present@);
    finite_set_has_an_order(games.dom());
    finite_set_has_an_order(app.unlocked_apps());
    runtimes_are_no_games(app_id, name@);
    listed_games_have_manifests(app.steam.manifests@, paths);
    drydock_games_are_added(steam, ids, games, paths, present@);
    available_games_are_added(installed, unlocked, app.catalog.apps@, paths);
    sorting_moves_entries(all, listed(entries@));
    assert(app.unlocked_apps().contains(app_id));
    assert(unlocked.to_set().contains(app_id));
    let n = choose|n: int| 0 <= n < unlocked.len() && unlocked[n] == app_id;
    assert(lists_app(all, unlocked[n]));
    let i = choose|i: int| 0 <= i < all.len() && (#[trigger] all[i]).app_id == app_id;
    if i < installed.len() {
        assert(all[i] == installed[i]);
        if i < steam.len() {
            assert(installed[i] == steam[i]);
            let m = choose|m: int|
                0 <= m < app.steam.manifests@.len() && steam_entry(
                    steam[i],
                    #[trigger] app.steam.manifests@[m],
                ) && is_game(app.steam.manifests@[m].app_id, app.steam.manifests@[m].name@);
            assert(false);
        }
        assert(ids.contains(installed[i].app_id));
        assert(ids.to_set().contains(app_id));
        assert(false);
    }
    assert(available_entry(all[i], app_id, name@));
    assert(listed(entries@).contains(all[i]));
    let k = choose|k: int| 0 <= k < listed(entries@).len() && listed(entries@)[k] == all[i];
    assert(entries@[k]@ == all[i]);
}

/// Nothing is in the library without a reason: a Steam game has a manifest that is no runtime's, a
/// game of Drydock is recorded as installed, and one that is available is unlocked, no runtime and
/// not installed.
pub proof fn every_entry_has_a_reason(
    app: &DrydockApp,
    present: &HashSet<u32>,
    entries: Vec<LibraryEntry>,
    i: int,
)
    requires
        call_ensures(DrydockApp::library_entries, (app, present), entries),
        app.library_games(present@).len() <= usize::MAX,
        app.settings.installed_games@.dom().finite(),
        app.unlocked_apps().finite(),
        0 <= i < entries@.len(),
    ensures
        match entries@[i].source {
            LibrarySource::SteamInstalled => exists|k: int|
                0 <= k < app.steam.manifests@.len() && steam_entry(
                    entries@[i]@,
                    #[trigger] app.steam.manifests@[k],
                ) && !is_runtime(app.steam.manifests@[k].app_id, app.steam.manifests@[k].name@),
            LibrarySource::DrydockInstalled => {
                &&& app.settings.installed_games@.contains_key(entries@[i].app_id)
                &&& drydock_entry(
                    entries@[i]@,
                    entries@[i].app_id,
                    app.settings.installed_games@[entries@[i].app_id],
                    present@.contains(entries@[i].app_id),
                )
            },
            LibrarySource::Available => {
                &&& app.steam.plugin_luas@.contains(entries@[i].app_id)
                    || app.settings.added_apps@.contains_key(entries@[i].app_id)
                &&& !app.settings.installed_games@.contains_key(entries@[i].app_id)
                &&& !entries@[i].installed
                &&& entries@[i].install_dir is None
                &&& !is_runtime(entries@[i].app_id, entries@[i].name@)
            },
        },
{
    let paths = app.settings.launch_paths@;
    let games = app.settings.installed_games@;
    let manifests = app.steam.manifests@;
    let steam = steam_games(manifests, paths);
    let ids = in_order(games.dom());
    let installed = with_drydock_games(steam, ids, games, paths, present@);
    let unlocked = in_order(app.unlocked_apps());
    let all = app.library_games(present@);
    finite_set_has_an_order(games.dom());
    finite_set_has_an_order(app.unlocked_apps());
    listed_games_have_manifests(manifests, paths);
    drydock_games_are_added(steam, ids, games, paths, present@);
    available_games_are_added(installed, unlocked, app.catalog.apps@, paths);
    sorting_moves_entries(all, listed(entries@));
    assert(listed(entries@)[i] == entries@[i]@);
    assert(all.contains(entries@[i]@));
    let n = choose|n: int| 0 <= n < all.len() && all[n] == entries@[i]@;
    if n < steam.len() {
        assert(all[n] == installed[n] && installed[n] == steam[n]);
        let k = choose|k: int|
            0 <= k < manifests.len() && steam_entry(steam[n], #[trigger] manifests[k]) && is_game(
                manifests[k].app_id,
                manifests[k].name@,
            );
        runtimes_are_no_games(manifests[k].app_id, manifests[k].name@);
    } else if n < installed.len() {
        assert(all[n] == installed[n]);
        assert(ids.to_set().contains(installed[n].app_id));
    } else {
        let id = all[n].app_id;
        runtimes_are_no_games(id, all[n].name);
        assert(unlocked.to_set().contains(id));
        if games.contains_key(id) {
            assert(ids.to_set().contains(id));
            let k = choose|k: int| 0 <= k < ids.len() && ids[k] == id;
            assert(lists_app(installed, ids[k]));
        }
    }
}

/// The library is in the order of its lowercased names, and no app stands in it twice.
pub proof fn the_library_is_in_order(
    app: &DrydockApp,
    present: &HashSet<u32>,
    entries: Vec<LibraryEntry>,
    i: int,
    j: int,
)
    requires
        call_ensures(DrydockApp::library_entries, (app, present), entries),
        app.library_games(present@).len() <= usize::MAX,
        0 <= i < j < entries@.len(),
    ensures
        !precedes(lowercase(entries@[j].name@), lowercase(entries@[i].name@)),
        entries@[i].app_id != entries@[j].app_id,
{
    let all = app.library_games(present@);
    let sorted = listed(entries@);
    library_lists_each_game_once(*app, present@);
    crate::library::sorting_keeps_the_games(all, sorted);
    assert(sorted[i].app_id != sorted[j].app_id);
    let order = choose|order: Seq<usize>| #[trigger]
        orders(sort_keys(all), order, 0, all.len() as int) && sorted == order.map_values(
            |at: usize| all[at as int],
        );
    let keys = sort_keys(all);
    let a = order[i] as int;
    let b = order[j] as int;
    assert(crate::order::comes_before(keys, a, b));
    assert(keys[a] == lowercase(sorted[i].name) && keys[b] == lowercase(sorted[j].name));
    if precedes(keys[b], keys[a]) {
        if precedes(keys[a], keys[b]) {
            crate::order::precedes_is_transitive(keys[a], keys[b], keys[a]);
        }
        crate::order::precedes_is_irreflexive(keys[a]);
    }
}

/// The search finds a game by any part of its name, in any case and with white space around it,
/// and the filter leaves exactly the games of its kind.
pub proof fn the_search_finds_any_part(
    state: &LibraryState,
    entries: &Vec<LibraryEntry>,
    places: Vec<usize>,
    before: Seq<char>,
    core: Seq<char>,
    after: Seq<char>,
    at: int,
)
    requires
        call_ensures(LibraryState::shown_entries, (state, entries), places),
        entries@.len() <= usize::MAX,
        state.search@ == before + core + after,
        is_padding(before),
        is_padding(after),
        is_tight(core),
        lowercase(core).len() > 0,
        0 <= at < entries@.len(),
    ensures
        places@.contains(at as usize) <==> (match state.filter {
            LibraryFilter::All => true,
            LibraryFilter::Installed => entries@[at].installed,
            LibraryFilter::Available => !entries@[at].installed,
        }) && exists|a: Seq<char>, b: Seq<char>|
            lowercase(entries@[at].name@) == #[trigger] (a + lowercase(core) + b),
{
    core_is_left(before, core, after);
    a_part_is_found_wherever_it_stands(lowercase(entries@[at].name@), lowercase(core));
    let keep = |i: int| is_shown(entries@[i]@, state.filter, lowercase(trimmed(state.search@)));
    shown_exactly_where_kept(entries@.len(), keep, at);
    assert(keep(at) == is_shown(entries@[at]@, state.filter, lowercase(core)));
}

/// Without a search the filter alone decides which games are shown.
pub proof fn the_filter_decides(
    state: &LibraryState,
    entries: &Vec<LibraryEntry>,
    places: Vec<usize>,
    at: int,
)
    requires
        call_ensures(LibraryState::shown_entries, (state, entries), places),
        entries@.len() <= usize::MAX,
        lowercase(trimmed(state.search@)).len() == 0,
        0 <= at < entries@.len(),
    ensures
        places@.contains(at as usize) <==> (match state.filter {
            LibraryFilter::All => true,
            LibraryFilter::Installed => entries@[at].installed,
            LibraryFilter::Available => !entries@[at].installed,
        }),
{
    let keep = |i: int| is_shown(entries@[i]@, state.filter, lowercase(trimmed(state.search@)));
    shown_exactly_where_kept(entries@.len(), keep, at);
    assert(keep(at) == is_shown(entries@[at]@, state.filter, lowercase(trimmed(state.search@))));
}

proof fn shown_exactly_where_kept(n: nat, keep: spec_fn(int) -> bool, at: int)
    requires
        n <= usize::MAX,
        0 <= at < n,
    ensures
        first_kept(n, keep, n).contains(at as usize) <==> keep(at),
{
    kept_places_ascend(n, keep, n);
    let list = first_kept(n, keep, n);
    if keep(at) {
        kept_places_are_listed(n, keep, n, at);
    }
    if list.contains(at as usize) {
        let i = choose|i: int| 0 <= i < list.len() && list[i] == at as usize;
        assert(keep(list[i] as int));
    }
}

/// The shown games stand in the order of the library, none of them twice.
pub proof fn shown_games_keep_their_order(
    state: &LibraryState,
    entries: &Vec<LibraryEntry>,
    places: Vec<usize>,
    i: int,
    j: int,
)
    requires
        call_ensures(LibraryState::shown_entries, (state, entries), places),
        entries@.len() <= usize::MAX,
        0 <= i < j < places@.len(),
    ensures
        places@[i] < places@[j] < entries@.len(),
{
    let keep = |at: int| is_shown(entries@[at]@, state.filter, lowercase(trimmed(state.search@)));
    kept_places_ascend(entries@.len(), keep, entries@.len());
}

proof fn counting_goes_by_what_is_installed(entries: Seq<Listed>)
    ensures
        installed_count(entries) == entries.filter(|entry: Listed| entry.installed).len(),
    decreases entries.len(),
{
    reveal(Seq::filter);
    if entries.len() > 0 {
        counting_goes_by_what_is_installed(entries.drop_last());
    }
}

/// The counts are those of the installed games, of the others, and of all.
pub proof fn every_game_is_counted(entries: &Vec<LibraryEntry>, counts: LibraryCounts)
    requires
        call_ensures(count_entries, (entries,), counts),
    ensures
        counts.total == entries@.len(),
        counts.installed == listed(entries@).filter(|entry: Listed| entry.installed).len(),
        counts.available == entries@.len() - counts.installed,
{
    counting_goes_by_what_is_installed(listed(entries@));
}

/// The page shows the library as it is: its games, the counts of them, and those that the filter
/// and the search leave. While a folder waits to be told apart there is no such page.
pub proof fn the_page_shows_the_library(
    app: &DrydockApp,
    present: &HashSet<u32>,
    view: Option<LibraryView>,
)
    requires
        call_ensures(DrydockApp::library_page, (app, present), view),
    ensures
        view is None <==> app.library.add_game_folder is Some,
        view matches Some(view) ==> {
            &&& view.counts.total == view.entries@.len()
            &&& view.counts.installed == listed(view.entries@).filter(
                |entry: Listed| entry.installed,
            ).len()
            &&& view.counts.available == view.counts.total - view.counts.installed
            &&& view.body == LibraryBody::Empty <==> view.entries@.len() == 0
            &&& view.body == LibraryBody::NoMatch <==> view.entries@.len() > 0 && view.shown@.len()
                == 0
        },
{
    if let Some(view) = view {
        counting_goes_by_what_is_installed(listed(view.entries@));
    }
}

/// Whether a window offers an action.
pub open spec fn offers(buttons: Seq<OverviewButton>, action: LibraryAction) -> bool {
    exists|i: int| 0 <= i < buttons.len() && (#[trigger] buttons[i]).action == action
}

/// The window of a game offers what fits it: a game that is only unlocked can be installed and not
/// played or uninstalled, a game of Steam can be played and uninstalled through Steam, and a game
/// of Drydock can be verified, updated and uninstalled, and played once it has an executable.
pub proof fn the_window_offers_what_fits(entry: &LibraryEntry, buttons: Vec<OverviewButton>)
    requires
        call_ensures(LibraryEntry::library_overview, (entry,), buttons),
    ensures
        offers(buttons@, LibraryAction::InstallSteam(entry.app_id)) <==> entry.source
            == LibrarySource::Available,
        offers(buttons@, LibraryAction::UninstallSteam(entry.app_id)) <==> entry.source
            == LibrarySource::SteamInstalled,
        offers(buttons@, LibraryAction::UninstallDrydock(entry.app_id)) <==> entry.source
            == LibrarySource::DrydockInstalled,
        offers(buttons@, LibraryAction::VerifyDrydock(entry.app_id)) <==> entry.source
            == LibrarySource::DrydockInstalled,
        offers(buttons@, LibraryAction::UpdateDrydock(entry.app_id)) <==> entry.source
            == LibrarySource::DrydockInstalled,
        offers(buttons@, LibraryAction::CrackDrydock(entry.app_id)) <==> entry.source
            == LibrarySource::DrydockInstalled,
        offers(buttons@, LibraryAction::SetExe(entry.app_id)) <==> entry.source
            == LibrarySource::DrydockInstalled,
        offers(buttons@, LibraryAction::RemoveLua(entry.app_id)) <==> entry.source
            != LibrarySource::DrydockInstalled,
        offers(buttons@, LibraryAction::UpdateLua(entry.app_id)) <==> entry.source
            != LibrarySource::DrydockInstalled,
        offers(buttons@, LibraryAction::Details(entry.app_id)),
        offers(buttons@, LibraryAction::Launch(entry.app_id)) <==> entry.source
            == LibrarySource::SteamInstalled || entry.source == LibrarySource::DrydockInstalled
            && entry.launch_path is Some,
        offers(buttons@, LibraryAction::OpenFolder(entry.app_id)) <==> entry.source
            != LibrarySource::Available && entry.install_dir is Some,
{
    let models = crate::library_page::buttons_of(buttons@);
    assert(models.len() == buttons@.len());
    assert forall|i: int| 0 <= i < buttons@.len() implies (#[trigger] buttons@[i]).action
        == models[i].0 by {}
    let wanted = crate::library_page::overview_buttons(*entry);
    assert(models == wanted);
    let n = buttons@.len();
    assert(n <= 8);
    assert(n > 0 ==> buttons@[0].action == wanted[0].0);
    assert(n > 1 ==> buttons@[1].action == wanted[1].0);
    assert(n > 2 ==> buttons@[2].action == wanted[2].0);
    assert(n > 3 ==> buttons@[3].action == wanted[3].0);
    assert(n > 4 ==> buttons@[4].action == wanted[4].0);
    assert(n > 5 ==> buttons@[5].action == wanted[5].0);
    assert(n > 6 ==> buttons@[6].action == wanted[6].0);
    assert(n > 7 ==> buttons@[7].action == wanted[7].0);
}

} // verus!
