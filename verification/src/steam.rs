//! What the shell knows of Steam and does about it: installed games, unlock files, update sweeps
//! and the repair of depot manifests.
use crate::catalog::{display_name, first_at, Catalog};
use crate::ids::{in_order, table_ids};
use crate::state::{
    AddedAppState, ActivationState, DrydockApp, Part, Settings, StatusLine, SteamJobs,
    SteamServiceState, SteamState, UnlockSource, fields_are_empty,
};
use crate::text::{cat2, cat3, cat4, cat5, decimal, decimal_text, join, joined, texts};
use crate::timing::{due, is_due, SERVICE_RECHECK_COOLDOWN, UNLOCK_UPDATE_POLL};
use crate::types::{Reply, SteamManifest};
use crate::unlocks::UnlockUpdateSweep;
use std::collections::{BTreeMap, BTreeSet, HashSet};
use vstd::prelude::*;

verus! {

broadcast use vstd::std_specs::hash::group_hash_axioms;

/// The App IDs of a list of installed games.
pub open spec fn manifest_ids(manifests: Seq<SteamManifest>) -> Seq<u32> {
    manifests.map_values(|manifest: SteamManifest| manifest.app_id)
}

/// The place of an app among the installed games.
pub fn manifest_at(manifests: &Vec<SteamManifest>, app_id: u32) -> (at: Option<usize>)
    ensures
        at is None <==> !manifest_ids(manifests@).contains(app_id),
        at matches Some(i) ==> first_at(manifest_ids(manifests@), app_id, i as int),
{
    let ghost ids = manifest_ids(manifests@);
    let mut i: usize = 0;
    while i < manifests.len()
        invariant
            i <= manifests@.len(),
            ids == manifest_ids(manifests@),
            forall|k: int| 0 <= k < i ==> ids[k] != app_id,
        decreases manifests@.len() - i,
    {
        if manifests[i].app_id == app_id {
            assert(ids[i as int] == app_id);
            return Some(i);
        }
        i += 1;
    }
    None
}

/// A list of names, copied.
pub fn copy_names(names: &Vec<String>) -> (copy: Vec<String>)
    ensures
        copy@ == names@,
{
    let mut copy: Vec<String> = Vec::new();
    let mut i: usize = 0;
    while i < names.len()
        invariant
            i <= names@.len(),
            copy@ =~= names@.take(i as int),
        decreases names@.len() - i,
    {
        copy.push(names[i].clone());
        assert(names@.take(i + 1) =~= names@.take(i as int).push(names@[i as int]));
        i += 1;
    }
    assert(names@.take(i as int) =~= names@);
    copy
}

/// Whether a selected game is no longer among the installed ones.
pub open spec fn selection_is_stale(selected: Option<u32>, manifests: Seq<SteamManifest>) -> bool {
    selected matches Some(app_id) && !manifest_ids(manifests).contains(app_id)
}

impl ActivationState {
    /// Whether `after` is this activation without its request and response codes.
    pub open spec fn codes_cleared(&self, after: ActivationState) -> bool {
        &&& after == (ActivationState {
            request_code: after.request_code,
            response_code: after.response_code,
            ..*self
        })
        &&& after.request_code@ == Seq::<char>::empty()
        &&& fields_are_empty(after.response_code)
    }

    /// Drops the request and response codes.
    pub fn clear_codes(&mut self)
        ensures
            old(self).codes_cleared(*final(self)),
    {
        self.request_code = String::new();
        self.response_code = crate::state::empty_response_code();
    }
}

/// Whether a recorded app follows the provider's latest version. Of one recorded without a source
/// that holds once the fixes are known and the app's fix is not applied.
pub open spec fn follows_latest(
    source: Option<UnlockSource>,
    fixes_loaded: bool,
    fix_applied: bool,
) -> bool {
    match source {
        Some(UnlockSource::Latest) => true,
        Some(UnlockSource::Cracked) | Some(UnlockSource::Own) => false,
        None => fixes_loaded && !fix_applied,
    }
}

/// The recorded apps that follow the latest version, in order: those added that way, and of those
/// recorded without a source the ones whose build-locked fix is known not to be applied.
pub open spec fn latest_apps(
    ids: Seq<u32>,
    added: Map<u32, AddedAppState>,
    fixes_loaded: bool,
    fix_applied: Set<u32>,
) -> Seq<u32>
    decreases ids.len(),
{
    if ids.len() == 0 {
        Seq::empty()
    } else {
        let before = latest_apps(ids.drop_last(), added, fixes_loaded, fix_applied);
        let id = ids.last();
        if follows_latest(added[id].source, fixes_loaded, fix_applied.contains(id)) {
            before.push(id)
        } else {
            before
        }
    }
}

/// The recorded apps that follow the latest version.
pub fn latest_of(
    added: &BTreeMap<u32, AddedAppState>,
    fixes_loaded: bool,
    fix_applied: &HashSet<u32>,
) -> (apps: Vec<u32>)
    ensures
        apps@ == latest_apps(in_order(added@.dom()), added@, fixes_loaded, fix_applied@),
{
    let ids = table_ids(added);
    let mut apps: Vec<u32> = Vec::new();
    let mut i: usize = 0;
    while i < ids.len()
        invariant
            i <= ids@.len(),
            ids@.to_set() == added@.dom(),
            apps@ == latest_apps(ids@.take(i as int), added@, fixes_loaded, fix_applied@),
        decreases ids@.len() - i,
    {
        let id: u32 = ids[i];
        assert(ids@.to_set().contains(id));
        proof {
            let now = ids@.take(i + 1);
            assert(now.drop_last() =~= ids@.take(i as int));
            assert(now.last() == id);
        }
        let source = source_of(added, id);
        let follows = match source {
            Some(UnlockSource::Latest) => true,
            Some(_) => false,
            None => fixes_loaded && !fix_applied.contains(&id),
        };
        if follows {
            apps.push(id);
        }
        i += 1;
    }
    assert(ids@.take(i as int) =~= ids@);
    apps
}

/// The recorded source of an app's unlock.
pub fn source_of(added: &BTreeMap<u32, AddedAppState>, app_id: u32) -> (source: Option<
    UnlockSource,
>)
    ensures
        source == (if added@.contains_key(app_id) {
            added@[app_id].source
        } else {
            None
        }),
{
    broadcast use vstd::std_specs::btree::group_btree_axioms;
    broadcast use vstd::laws_cmp::group_laws_cmp;

    assert(vstd::laws_cmp::obeys_cmp::<u32>());
    match added.get(&app_id) {
        Some(state) => state.source,
        None => None,
    }
}

/// The apps to look after, each with whether its manifests may come from the provider: files that
/// the user supplied are never mixed with the provider's.
pub open spec fn guarded(ids: Seq<u32>, added: Map<u32, AddedAppState>) -> Seq<(u32, bool)> {
    ids.map_values(|id: u32| (id, added[id].source != Some(UnlockSource::Own)))
}

/// Whether `apps` is what there is to look after: every recorded app, by App ID, or `None` where
/// none is recorded.
pub open spec fn is_guard_list(
    added: Map<u32, AddedAppState>,
    apps: Option<Vec<(u32, bool)>>,
) -> bool {
    let ids = in_order(added.dom());
    &&& apps is Some <==> ids.len() > 0
    &&& apps is Some ==> apps->0@ == guarded(ids, added)
}

fn guard_list(added: &BTreeMap<u32, AddedAppState>) -> (list: Option<Vec<(u32, bool)>>)
    ensures
        is_guard_list(added@, list),
{
    let ids = table_ids(added);
    let mut apps: Vec<(u32, bool)> = Vec::new();
    let mut i: usize = 0;
    while i < ids.len()
        invariant
            i <= ids@.len(),
            ids@.to_set() == added@.dom(),
            apps@ =~= guarded(ids@.take(i as int), added@),
        decreases ids@.len() - i,
    {
        let id: u32 = ids[i];
        assert(ids@.to_set().contains(id));
        let own = match source_of(added, id) {
            Some(UnlockSource::Own) => true,
            _ => false,
        };
        apps.push((id, !own));
        assert(ids@.take(i + 1) =~= ids@.take(i as int).push(id));
        i += 1;
    }
    assert(ids@.take(i as int) =~= ids@);
    if apps.len() == 0 {
        return None;
    }
    Some(apps)
}

/// Whether every app of a list has been fetched for.
pub open spec fn all_attempted(apps: Seq<u32>, attempted: Set<u32>) -> bool {
    forall|i: int| 0 <= i < apps.len() ==> attempted.contains(#[trigger] apps[i])
}

/// The first app without stored manifests that has not been fetched for in this session. One fetch
/// per sweep, and each app only once, keeps the provider from being asked for a whole backlog.
pub fn app_to_fetch(never_stored: &Vec<u32>, attempted: &HashSet<u32>) -> (app: Option<u32>)
    ensures
        app is None <==> all_attempted(never_stored@, attempted@),
        app matches Some(id) ==> !attempted@.contains(id) && exists|i: int|
            0 <= i < never_stored@.len() && #[trigger] never_stored@[i] == id && forall|j: int|
                0 <= j < i ==> attempted@.contains(#[trigger] never_stored@[j]),
{
    let mut i: usize = 0;
    while i < never_stored.len()
        invariant
            i <= never_stored@.len(),
            forall|j: int| 0 <= j < i ==> attempted@.contains(#[trigger] never_stored@[j]),
        decreases never_stored@.len() - i,
    {
        if !attempted.contains(&never_stored[i]) {
            assert(never_stored@[i as int] == never_stored@[i as int]);
            return Some(never_stored[i]);
        }
        i += 1;
    }
    None
}

/// The names shown for the first of a list of apps.
pub open spec fn names_of(catalog: Catalog, apps: Seq<u32>) -> Seq<Seq<char>> {
    apps.map_values(|id: u32| display_name(catalog.apps@, id))
}

/// What the status bar says after a sweep that updated `updated`.
pub open spec fn sweep_text(catalog: Catalog, updated: Seq<u32>) -> Seq<char> {
    let shown = if updated.len() <= 3 {
        updated
    } else {
        updated.take(3)
    };
    "Updated the Lua and manifests of "@ + joined(names_of(catalog, shown), ", "@) + (
    if updated.len() > 3 {
        " and "@ + decimal_text((updated.len() - 3) as nat) + " more"@
    } else {
        Seq::<char>::empty()
    }) + " to the latest version."@
}

fn sweep_message(catalog: &Catalog, updated: &Vec<u32>) -> (text: String)
    ensures
        text@ == sweep_text(*catalog, updated@),
{
    let count: usize = if updated.len() < 3 {
        updated.len()
    } else {
        3
    };
    let mut names: Vec<String> = Vec::new();
    let mut i: usize = 0;
    while i < count
        invariant
            i <= count <= updated@.len(),
            texts(names@) =~= names_of(*catalog, updated@.take(i as int)),
        decreases count - i,
    {
        let ghost before = texts(names@);
        let name = catalog.app_display_name(updated[i]);
        names.push(name);
        proof {
            let more = updated@.take(i + 1);
            assert(more =~= updated@.take(i as int).push(updated@[i as int]));
            assert(texts(names@) =~= before.push(name@));
            assert(names_of(*catalog, more) =~= names_of(*catalog, updated@.take(i as int)).push(
                display_name(catalog.apps@, updated@[i as int]),
            ));
        }
        i += 1;
    }
    proof {
        if updated@.len() <= 3 {
            assert(updated@.take(i as int) =~= updated@);
        }
    }
    let list = join(&names, ", ");
    let more: usize = updated.len() - count;
    let rest = if more > 0 {
        let number = decimal(more as u64);
        cat3(" and ", number.as_str(), " more")
    } else {
        String::new()
    };
    cat4(
        "Updated the Lua and manifests of ",
        list.as_str(),
        rest.as_str(),
        " to the latest version.",
    )
}

/// The recorded apps after a sweep: an updated app that was recorded without a source now follows
/// the latest version.
pub open spec fn sources_recorded(
    before: Map<u32, AddedAppState>,
    updated: Seq<u32>,
    after: Map<u32, AddedAppState>,
) -> bool {
    &&& after.dom() == before.dom()
    &&& forall|id: u32| #[trigger]
        before.contains_key(id) ==> after[id] == (if before[id].source is None && updated.contains(
            id,
        ) {
            AddedAppState { source: Some(UnlockSource::Latest), ..before[id] }
        } else {
            before[id]
        })
}

/// Records the source of one updated app. Tells whether something changed.
fn record_latest(added: &mut BTreeMap<u32, AddedAppState>, app_id: u32) -> (recorded: bool)
    ensures
        recorded == (old(added)@.contains_key(app_id) && old(added)@[app_id].source is None),
        !recorded ==> final(added)@ == old(added)@,
        recorded ==> final(added)@ == old(added)@.insert(
            app_id,
            AddedAppState { source: Some(UnlockSource::Latest), ..old(added)@[app_id] },
        ),
{
    broadcast use vstd::std_specs::btree::group_btree_axioms;
    broadcast use vstd::laws_cmp::group_laws_cmp;

    assert(vstd::laws_cmp::obeys_cmp::<u32>());
    let open = match added.get(&app_id) {
        Some(state) => state.source.is_none(),
        None => false,
    };
    if !open {
        return false;
    }
    let ghost before = added@;
    if let Some(state) = added.remove(&app_id) {
        added.insert(
            app_id,
            AddedAppState { files: state.files, source: Some(UnlockSource::Latest) },
        );
        assert(added@ =~= before.insert(
            app_id,
            AddedAppState { source: Some(UnlockSource::Latest), ..before[app_id] },
        ));
    }
    true
}

/// Whether a sweep that updated `updated` names an app recorded without a source.
pub open spec fn some_unrecorded(added: Map<u32, AddedAppState>, updated: Seq<u32>) -> bool {
    exists|i: int|
        0 <= i < updated.len() && added.contains_key(#[trigger] updated[i])
            && added[updated[i]].source is None
}

fn record_all_latest(added: &mut BTreeMap<u32, AddedAppState>, updated: &Vec<u32>) -> (recorded:
    bool)
    ensures
        recorded == some_unrecorded(old(added)@, updated@),
        sources_recorded(old(added)@, updated@, final(added)@),
{
    let ghost before = added@;
    let mut recorded = false;
    let mut i: usize = 0;
    assert(updated@.take(0) =~= Seq::<u32>::empty());
    while i < updated.len()
        invariant
            i <= updated@.len(),
            before == old(added)@,
            recorded == some_unrecorded(before, updated@.take(i as int)),
            sources_recorded(before, updated@.take(i as int), added@),
        decreases updated@.len() - i,
    {
        let ghost current = added@;
        let id: u32 = updated[i];
        let fresh = record_latest(added, id);
        proof {
            let taken = updated@.take(i as int);
            let more = updated@.take(i + 1);
            assert(more =~= taken.push(id));
            assert(more[i as int] == id);
            assert forall|x: u32| more.contains(x) <==> taken.contains(x) || x == id by {
                if taken.contains(x) {
                    let k = choose|k: int| 0 <= k < taken.len() && taken[k] == x;
                    assert(more[k] == x);
                }
            }
            if some_unrecorded(before, taken) {
                let k = choose|k: int|
                    0 <= k < taken.len() && before.contains_key(#[trigger] taken[k])
                        && before[taken[k]].source is None;
                assert(more[k] == taken[k]);
                assert(some_unrecorded(before, more));
            }
            if fresh {
                assert(before.contains_key(id) && before[id].source is None);
                assert(some_unrecorded(before, more));
            }
            if some_unrecorded(before, more) && !some_unrecorded(before, taken) {
                let k = choose|k: int|
                    0 <= k < more.len() && before.contains_key(#[trigger] more[k])
                        && before[more[k]].source is None;
                if k < taken.len() {
                    assert(taken[k] == more[k]);
                }
                assert(more[k] == id);
                assert(!taken.contains(id)) by {
                    if taken.contains(id) {
                        let m = choose|m: int| 0 <= m < taken.len() && taken[m] == id;
                        assert(some_unrecorded(before, taken));
                    }
                }
            }
            assert(added@.dom() =~= before.dom());
        }
        if fresh {
            recorded = true;
        }
        i += 1;
    }
    assert(updated@.take(i as int) =~= updated@);
    recorded
}

impl SteamState {
    /// Whether the depot manifests are to be looked after now: Steam was started or stopped since
    /// the last look, or the last one was long enough ago.
    pub open spec fn look_is_due(&self, running: bool, now: u128, cooldown: u128) -> bool {
        &&& self.root is Some
        &&& running != self.was_running || is_due(self.last_manifest_check, now, cooldown)
    }

    /// This state after a look at whether Steam runs.
    pub open spec fn looked(&self, running: bool, now: u128, cooldown: u128) -> SteamState {
        if self.root is None {
            *self
        } else if self.look_is_due(running, now, cooldown) {
            SteamState { was_running: running, last_manifest_check: Some(now), ..*self }
        } else {
            SteamState { was_running: running, ..*self }
        }
    }

    fn look(&mut self, running: bool, now: u128, cooldown: u128) -> (is_time: bool)
        ensures
            is_time == old(self).look_is_due(running, now, cooldown),
            *final(self) == old(self).looked(running, now, cooldown),
    {
        if self.root.is_none() {
            return false;
        }
        let flipped = running != self.was_running;
        self.was_running = running;
        if !flipped && !due(self.last_manifest_check, now, cooldown) {
            return false;
        }
        self.last_manifest_check = Some(now);
        true
    }
}

impl DrydockApp {
    /// Whether an app has an unlock Lua installed: on disk, or recorded by this installation. The
    /// disk comes first; the record recognises an app added since the last scan.
    pub open spec fn app_is_added(&self, app_id: u32) -> bool {
        self.steam.plugin_luas@.contains(app_id) || self.settings.added_apps@.contains_key(app_id)
    }

    /// Whether an app has an unlock Lua installed.
    pub fn is_app_added(&self, app_id: u32) -> (added: bool)
        ensures
            added == self.app_is_added(app_id),
    {
        broadcast use vstd::std_specs::btree::group_btree_axioms;
        broadcast use vstd::laws_cmp::group_laws_cmp;

        assert(vstd::laws_cmp::obeys_cmp::<u32>());
        self.steam.plugin_luas.contains(&app_id) || self.settings.added_apps.contains_key(&app_id)
    }

    /// Takes a fresh scan of the plug-in folder: nothing is unlocked without a Steam folder.
    pub fn refresh_plugin_luas(&mut self, found: BTreeSet<u32>)
        ensures
            old(self).keeps_all_but(set![Part::Steam], *final(self)),
            final(self).steam == (SteamState {
                plugin_luas: final(self).steam.plugin_luas,
                ..old(self).steam
            }),
            final(self).steam.plugin_luas@ == (if old(self).steam.root is Some {
                found@
            } else {
                Set::empty()
            }),
    {
        if self.steam.root.is_some() {
            self.steam.plugin_luas = found;
        } else {
            self.steam.plugin_luas = BTreeSet::new();
        }
    }

    /// Takes a fresh scan of the installed games on a page switch. A failed scan changes nothing.
    /// A selected game that is gone is dropped together with its codes.
    pub fn refresh_manifests(&mut self, scanned: Result<Vec<SteamManifest>, String>)
        ensures
            old(self).keeps_all_but(
                set![Part::Steam, Part::SelectedApp, Part::Activation],
                *final(self),
            ),
            old(self).steam.root is None || scanned is Err ==> {
                &&& final(self).steam == old(self).steam
                &&& final(self).selected_app == old(self).selected_app
                &&& final(self).activation == old(self).activation
            },
            old(self).steam.root is Some && scanned is Ok ==> {
                let manifests = scanned->Ok_0;
                let stale = selection_is_stale(old(self).selected_app, manifests@);
                &&& final(self).steam == (SteamState { manifests, ..old(self).steam })
                &&& final(self).selected_app == (if stale {
                    None
                } else {
                    old(self).selected_app
                })
                &&& stale ==> old(self).activation.codes_cleared(final(self).activation)
                &&& !stale ==> final(self).activation == old(self).activation
            },
    {
        if self.steam.root.is_none() {
            return;
        }
        if let Ok(manifests) = scanned {
            self.steam.manifests = manifests;
            self.drop_stale_selection();
        }
    }

    fn drop_stale_selection(&mut self)
        ensures
            old(self).keeps_all_but(set![Part::SelectedApp, Part::Activation], *final(self)),
            ({
                let stale = selection_is_stale(old(self).selected_app, old(self).steam.manifests@);
                &&& final(self).selected_app == (if stale {
                    None
                } else {
                    old(self).selected_app
                })
                &&& stale ==> old(self).activation.codes_cleared(final(self).activation)
                &&& !stale ==> final(self).activation == old(self).activation
            }),
    {
        let stale = match self.selected_app {
            Some(app_id) => manifest_at(&self.steam.manifests, app_id).is_none(),
            None => false,
        };
        if stale {
            self.selected_app = None;
            self.activation.clear_codes();
        }
    }

    /// Whether the Steam Service's status is to be asked for after a page switch: not without a
    /// Steam folder, not while other service work runs, and not again within the cooldown.
    pub fn recheck_service(&mut self, now: u128) -> (root: Option<String>)
        ensures
            root is Some <==> old(self).steam.root is Some && !old(self).steam_jobs.service
                && is_due(old(self).steam.last_service_check, now, SERVICE_RECHECK_COOLDOWN),
            root is None ==> *final(self) == *old(self),
            root is Some ==> {
                &&& root == old(self).steam.root
                &&& old(self).keeps_all_but(set![Part::Steam, Part::SteamJobs], *final(self))
                &&& final(self).steam == (SteamState {
                    last_service_check: Some(now),
                    ..old(self).steam
                })
                &&& final(self).steam_jobs == (SteamJobs { service: true, ..old(self).steam_jobs })
            },
    {
        if self.steam.root.is_none() || self.steam_jobs.service || !due(
            self.steam.last_service_check,
            now,
            SERVICE_RECHECK_COOLDOWN,
        ) {
            return None;
        }
        self.steam.last_service_check = Some(now);
        self.steam_jobs.service = true;
        self.steam.root.clone()
    }

    /// Whether the Steam Service's status is to be asked for now.
    pub fn refresh_service_status(&mut self) -> (root: Option<String>)
        ensures
            root == (if old(self).steam_jobs.service {
                None
            } else {
                old(self).steam.root
            }),
            old(self).keeps_all_but(set![Part::SteamJobs], *final(self)),
            final(self).steam_jobs == (SteamJobs {
                service: old(self).steam_jobs.service || root is Some,
                ..old(self).steam_jobs
            }),
    {
        if self.steam.root.is_none() || self.steam_jobs.service {
            return None;
        }
        self.steam_jobs.service = true;
        self.steam.root.clone()
    }

    /// Reports how lifting the update blocks of older versions went: the first failure, else how
    /// many were lifted unless an error is already shown.
    pub fn release_old_update_blocks(&mut self, failed: &Vec<(u32, String)>, released: usize)
        ensures
            old(self).keeps_all_but(set![Part::Line], *final(self)),
            failed@.len() > 0 ==> final(self).line.says(
                "The old Steam update block of "@ + decimal_text(failed@.len())
                    + " game(s) could not be lifted (App "@ + decimal_text(failed@[0].0 as nat)
                    + ": "@ + failed@[0].1@ + "). Drydock tries again at the next start."@,
                true,
                old(self).line.busy,
            ),
            failed@.len() == 0 && released > 0 && !old(self).line.error ==> final(self).line.says(
                "Steam can update "@ + decimal_text(released as nat)
                    + " game(s) again: the update block older Drydock versions set was lifted."@,
                false,
                old(self).line.busy,
            ),
            failed@.len() == 0 && (released == 0 || old(self).line.error) ==> final(self).line
                == old(self).line,
    {
        if failed.len() > 0 {
            let count = decimal(failed.len() as u64);
            let app = decimal(failed[0].0 as u64);
            let mut text = cat5(
                "The old Steam update block of ",
                count.as_str(),
                " game(s) could not be lifted (App ",
                app.as_str(),
                ": ",
            );
            text.append(failed[0].1.as_str());
            text.append("). Drydock tries again at the next start.");
            self.report(text, true);
        } else if released > 0 && !self.line.error {
            let count = decimal(released as u64);
            let text = cat3(
                "Steam can update ",
                count.as_str(),
                " game(s) again: the update block older Drydock versions set was lifted.",
            );
            self.report(text, false);
        }
    }

    /// Takes a new Steam folder with what was found there. The installed games are replaced, or
    /// dropped with everything that rested on them where they could not be read. The status of the
    /// Steam Service is forgotten; `refresh_service_status` asks for it anew.
    pub fn refresh_steam(
        &mut self,
        root: Option<String>,
        conflicts: Vec<String>,
        scanned: Result<Vec<SteamManifest>, String>,
    )
        ensures
            old(self).keeps_all_but(
                set![Part::Steam, Part::Line, Part::SelectedApp, Part::Activation],
                *final(self),
            ),
            final(self).steam == (SteamState {
                root,
                conflicts,
                manifests: final(self).steam.manifests,
                service_status: None,
                ..old(self).steam
            }),
            scanned matches Ok(manifests) ==> {
                let stale = selection_is_stale(old(self).selected_app, manifests@);
                &&& final(self).steam.manifests == manifests
                &&& root is Some ==> final(self).line.says(
                    "Loaded "@ + decimal_text(manifests@.len()) + " installed Steam games"@,
                    false,
                    old(self).line.busy,
                )
                &&& root is None ==> final(self).line.says(
                    "Steam was not found. Select its folder in Settings."@,
                    true,
                    old(self).line.busy,
                )
                &&& final(self).selected_app == (if stale {
                    None
                } else {
                    old(self).selected_app
                })
                &&& stale ==> old(self).activation.codes_cleared(final(self).activation)
                &&& !stale ==> final(self).activation == old(self).activation
            },
            scanned matches Err(error) ==> {
                &&& final(self).steam.manifests@.len() == 0
                &&& final(self).selected_app is None
                &&& final(self).line.says(
                    "Steam library could not be read: "@ + error@,
                    true,
                    old(self).line.busy,
                )
                &&& final(self).activation.request_code@ == Seq::<char>::empty()
                &&& fields_are_empty(final(self).activation.response_code)
                &&& final(self).activation == (ActivationState {
                    request_code: final(self).activation.request_code,
                    response_code: final(self).activation.response_code,
                    verified_entitlement: None,
                    success_app: None,
                    ..old(self).activation
                })
            },
    {
        let found = root.is_some();
        self.steam.root = root;
        self.steam.conflicts = conflicts;
        self.steam.service_status = None;
        match scanned {
            Ok(manifests) => {
                let count = decimal(manifests.len() as u64);
                self.steam.manifests = manifests;
                if found {
                    let text = cat3("Loaded ", count.as_str(), " installed Steam games");
                    self.report(text, false);
                } else {
                    self.report(
                        "Steam was not found. Select its folder in Settings.".to_owned(),
                        true,
                    );
                }
                self.drop_stale_selection();
            },
            Err(error) => {
                self.steam.manifests = Vec::new();
                self.selected_app = None;
                self.activation.clear_codes();
                self.activation.verified_entitlement = None;
                self.activation.success_app = None;
                let text = cat2("Steam library could not be read: ", error.as_str());
                self.report(text, true);
            },
        }
    }

    /// The recorded apps whose unlock follows the latest version.
    pub open spec fn following_latest(&self, fix_applied: Set<u32>) -> Seq<u32> {
        latest_apps(
            in_order(self.settings.added_apps@.dom()),
            self.settings.added_apps@,
            self.catalog.fixes_loaded,
            fix_applied,
        )
    }

    /// The recorded apps whose unlock follows the latest version. `fix_applied` holds the apps
    /// whose build-locked fix is in place.
    pub fn apps_following_latest(&self, fix_applied: &HashSet<u32>) -> (apps: Vec<u32>)
        ensures
            apps@ == self.following_latest(fix_applied@),
    {
        latest_of(&self.settings.added_apps, self.catalog.fixes_loaded, fix_applied)
    }

    /// Whether it is time to look for unlock updates: automatic updates are on, no sweep runs, and
    /// the last look was long enough ago.
    pub open spec fn may_look_for_updates(&self, now: u128) -> bool {
        &&& self.settings.auto_update_unlocks
        &&& !self.steam_jobs.unlock_update
        &&& is_due(self.last_unlock_update_check, now, UNLOCK_UPDATE_POLL)
    }

    /// Whether the Steam Service is current.
    pub open spec fn service_is_current(&self) -> bool {
        self.steam.service_status matches Some(status) && status.state
            == SteamServiceState::Current
    }

    /// The first half of the periodic look for unlock updates: notes the time, and returns the apps
    /// to sweep, if any, where Steam and its Service allow it. The caller then asks the marker of
    /// the last sweep, and calls `begin_unlock_updates` unless that one still stands.
    pub fn maybe_update_unlocks(&mut self, now: u128, fix_applied: &HashSet<u32>) -> (apps: Option<
        Vec<u32>,
    >)
        ensures
            !old(self).may_look_for_updates(now) ==> apps is None && *final(self) == *old(self),
            old(self).may_look_for_updates(now) ==> {
                &&& old(self).keeps_all_but(set![Part::LastUnlockUpdateCheck], *final(self))
                &&& final(self).last_unlock_update_check == Some(now)
            },
            apps is Some <==> {
                &&& old(self).may_look_for_updates(now)
                &&& old(self).steam.root is Some
                &&& old(self).service_is_current()
                &&& old(self).following_latest(fix_applied@).len() > 0
            },
            apps matches Some(list) ==> list@ == old(self).following_latest(fix_applied@),
    {
        if !self.settings.auto_update_unlocks || self.steam_jobs.unlock_update {
            return None;
        }
        if !due(self.last_unlock_update_check, now, UNLOCK_UPDATE_POLL) {
            return None;
        }
        self.last_unlock_update_check = Some(now);
        if self.steam.root.is_none() {
            return None;
        }
        let current = match &self.steam.service_status {
            Some(status) => status.state == SteamServiceState::Current,
            None => false,
        };
        if !current {
            return None;
        }
        let apps = self.apps_following_latest(fix_applied);
        if apps.len() == 0 {
            return None;
        }
        Some(apps)
    }

    /// Marks the sweep as running.
    pub fn begin_unlock_updates(&mut self)
        ensures
            old(self).keeps_all_but(set![Part::SteamJobs], *final(self)),
            final(self).steam_jobs == (SteamJobs { unlock_update: true, ..old(self).steam_jobs }),
    {
        self.steam_jobs.unlock_update = true;
    }

    /// Takes the end of a sweep. Apps recorded without a source that were updated are recorded as
    /// following the latest version: `true` tells that the settings are to be saved. The summary
    /// goes to the status bar with `report_unlock_updates`.
    pub fn poll_unlock_updates(&mut self, reply: &Reply<UnlockUpdateSweep>) -> (save: bool)
        ensures
            old(self).keeps_all_but(set![Part::SteamJobs, Part::Settings], *final(self)),
            final(self).steam_jobs == (SteamJobs {
                unlock_update: old(self).steam_jobs.unlock_update && *reply is Waiting,
                ..old(self).steam_jobs
            }),
            !(old(self).steam_jobs.unlock_update && *reply is Done) ==> {
                &&& final(self).settings == old(self).settings
                &&& !save
            },
            old(self).steam_jobs.unlock_update && *reply is Done ==> {
                &&& final(self).settings == (Settings {
                    added_apps: final(self).settings.added_apps,
                    ..old(self).settings
                })
                &&& sources_recorded(
                    old(self).settings.added_apps@,
                    reply->Done_0.updated@,
                    final(self).settings.added_apps@,
                )
                &&& save == some_unrecorded(
                    old(self).settings.added_apps@,
                    reply->Done_0.updated@,
                )
            },
    {
        if !self.steam_jobs.unlock_update {
            return false;
        }
        match reply {
            Reply::Waiting => false,
            Reply::Lost => {
                self.steam_jobs.unlock_update = false;
                false
            },
            Reply::Done(sweep) => {
                self.steam_jobs.unlock_update = false;
                let save = record_all_latest(&mut self.settings.added_apps, &sweep.updated);
                save
            },
        }
    }

    /// Reports a sweep that updated something; one that did not stays silent.
    pub fn report_unlock_updates(&mut self, sweep: &UnlockUpdateSweep)
        ensures
            old(self).keeps_all_but(set![Part::Line], *final(self)),
            sweep.updated@.len() == 0 ==> final(self).line == old(self).line,
            sweep.updated@.len() > 0 ==> final(self).line.says(
                sweep_text(old(self).catalog, sweep.updated@),
                false,
                old(self).line.busy,
            ),
    {
        if sweep.updated.len() > 0 {
            let text = sweep_message(&self.catalog, &sweep.updated);
            self.report(text, false);
        }
    }

    /// The apps whose depot manifests to look after now, each with whether they may be fetched from
    /// the provider, or `None` where it is not time or there is no app.
    pub fn guard_depot_manifests(&mut self, running: bool, now: u128, cooldown: u128) -> (apps:
        Option<Vec<(u32, bool)>>)
        ensures
            old(self).keeps_all_but(set![Part::Steam, Part::SteamJobs], *final(self)),
            final(self).steam_jobs == (SteamJobs {
                manifest_guard: old(self).steam_jobs.manifest_guard || apps is Some,
                ..old(self).steam_jobs
            }),
            final(self).steam == (if old(self).steam_jobs.manifest_guard {
                old(self).steam
            } else {
                old(self).steam.looked(running, now, cooldown)
            }),
            apps is Some ==> !old(self).steam_jobs.manifest_guard && old(self).steam.look_is_due(
                running,
                now,
                cooldown,
            ),
            !old(self).steam_jobs.manifest_guard && old(self).steam.look_is_due(
                running,
                now,
                cooldown,
            ) ==> is_guard_list(old(self).settings.added_apps@, apps),
    {
        if self.steam_jobs.manifest_guard {
            return None;
        }
        let is_time = self.steam.look(running, now, cooldown);
        if !is_time {
            return None;
        }
        let apps = guard_list(&self.settings.added_apps);
        if apps.is_some() {
            self.steam_jobs.manifest_guard = true;
        }
        apps
    }

    /// Takes the end of a look after the depot manifests: how many were restored for how many
    /// games, and which app was fetched for, if any.
    pub fn poll_manifest_guard(&mut self, reply: Reply<(usize, usize, Option<u32>)>)
        ensures
            old(self).keeps_all_but(
                set![Part::Steam, Part::SteamJobs, Part::Line],
                *final(self),
            ),
            final(self).steam_jobs == (SteamJobs {
                manifest_guard: old(self).steam_jobs.manifest_guard && reply is Waiting,
                ..old(self).steam_jobs
            }),
            !(old(self).steam_jobs.manifest_guard && reply is Done) ==> {
                &&& final(self).steam == old(self).steam
                &&& final(self).line == old(self).line
            },
            old(self).steam_jobs.manifest_guard && reply is Done ==> {
                let restored = reply->Done_0.0;
                let repaired = reply->Done_0.1;
                let attempted = reply->Done_0.2;
                &&& final(self).steam == (SteamState {
                    manifest_fetch_attempted: final(self).steam.manifest_fetch_attempted,
                    ..old(self).steam
                })
                &&& final(self).steam.manifest_fetch_attempted@ == (match attempted {
                    Some(id) => old(self).steam.manifest_fetch_attempted@.insert(id),
                    None => old(self).steam.manifest_fetch_attempted@,
                })
                &&& restored == 0 ==> final(self).line == old(self).line
                &&& restored > 0 ==> final(self).line.says(
                    "Steam had dropped "@ + decimal_text(restored as nat)
                        + " depot manifest(s) for "@ + decimal_text(repaired as nat)
                        + " game(s) — restored from Drydock's copy."@,
                    false,
                    old(self).line.busy,
                )
            },
    {
        if !self.steam_jobs.manifest_guard {
            return;
        }
        match reply {
            Reply::Waiting => {},
            Reply::Lost => {
                self.steam_jobs.manifest_guard = false;
            },
            Reply::Done((restored, repaired, attempted)) => {
                self.steam_jobs.manifest_guard = false;
                if let Some(app_id) = attempted {
                    self.steam.manifest_fetch_attempted.insert(app_id);
                }
                if restored > 0 {
                    let number = decimal(restored as u64);
                    let games = decimal(repaired as u64);
                    let text = cat5(
                        "Steam had dropped ",
                        number.as_str(),
                        " depot manifest(s) for ",
                        games.as_str(),
                        " game(s) — restored from Drydock's copy.",
                    );
                    self.report(text, false);
                }
            },
        }
    }

    /// The Steam folder to restart Steam from, where nothing else runs in the background.
    pub fn restart_steam_in_background(&mut self) -> (root: Option<String>)
        ensures
            root == (if old(self).steam_jobs.background {
                None
            } else {
                old(self).steam.root
            }),
            old(self).keeps_all_but(set![Part::Line, Part::SteamJobs], *final(self)),
            final(self).steam_jobs == (SteamJobs {
                background: old(self).steam_jobs.background || root is Some,
                ..old(self).steam_jobs
            }),
            old(self).steam.root is None ==> final(self).line.says(
                "Steam was not found. Select its folder in Settings."@,
                true,
                old(self).line.busy,
            ),
            old(self).steam.root is Some && root is None ==> final(self).line == old(self).line,
            root is Some ==> {
                &&& final(self).line.text == old(self).line.text
                &&& final(self).line.error == old(self).line.error
                &&& final(self).line.is_busy_with("Restarting Steam…"@)
            },
    {
        let root = self.steam_root_or_error("Steam was not found. Select its folder in Settings.");
        if root.is_none() || self.steam_jobs.background {
            return None;
        }
        self.steam_jobs.background = true;
        self.line.busy = Some("Restarting Steam…".to_owned());
        root
    }

    /// Takes the end of a background action, its message or its error.
    pub fn poll_background_action(&mut self, reply: Reply<Result<String, String>>)
        ensures
            old(self).keeps_all_but(
                set![Part::SteamJobs, Part::Line, Part::PendingFixBlock],
                *final(self),
            ),
            final(self).steam_jobs == (SteamJobs {
                background: old(self).steam_jobs.background && reply is Waiting,
                ..old(self).steam_jobs
            }),
            !old(self).steam_jobs.background || reply is Waiting ==> {
                &&& final(self).line == old(self).line
                &&& final(self).pending_fix_block == old(self).pending_fix_block
            },
            old(self).steam_jobs.background && !(reply is Waiting) ==> {
                &&& final(self).pending_fix_block is None
                &&& match reply {
                    Reply::Done(Ok(text)) => final(self).line.says(text@, false, None),
                    Reply::Done(Err(error)) => final(self).line.says(error@, true, None),
                    _ => final(self).line.says(
                        "The background action ended unexpectedly"@,
                        true,
                        None,
                    ),
                }
            },
    {
        if !self.steam_jobs.background {
            return;
        }
        match reply {
            Reply::Waiting => {},
            Reply::Done(Ok(text)) => {
                self.end_background_action(text, false);
            },
            Reply::Done(Err(error)) => {
                self.end_background_action(error, true);
            },
            Reply::Lost => {
                self.end_background_action(
                    "The background action ended unexpectedly".to_owned(),
                    true,
                );
            },
        }
    }

    fn end_background_action(&mut self, text: String, error: bool)
        ensures
            old(self).keeps_all_but(
                set![Part::SteamJobs, Part::Line, Part::PendingFixBlock],
                *final(self),
            ),
            final(self).steam_jobs == (SteamJobs { background: false, ..old(self).steam_jobs }),
            final(self).pending_fix_block is None,
            final(self).line.says(text@, error, None),
    {
        self.steam_jobs.background = false;
        self.pending_fix_block = None;
        self.line = StatusLine { text, error, busy: None };
    }

    /// What the application of a build-locked fix needs: the Steam folder and the game's folder.
    /// `None` where another action runs, Steam or the game is missing, or there is no such fix.
    pub fn apply_denuvo_fix_for(&mut self, app_id: u32) -> (order: Option<(String, String)>)
        ensures
            old(self).keeps_all_but(
                set![Part::SteamJobs, Part::Line, Part::PendingFixBlock],
                *final(self),
            ),
            order is Some <==> {
                &&& !old(self).steam_jobs.background
                &&& old(self).steam.root is Some
                &&& manifest_ids(old(self).steam.manifests@).contains(app_id)
                &&& old(self).catalog.offers_denuvo_fix(app_id)
            },
            final(self).steam_jobs == (SteamJobs {
                background: old(self).steam_jobs.background || order is Some,
                ..old(self).steam_jobs
            }),
            order is None ==> final(self).pending_fix_block == old(self).pending_fix_block,
            old(self).steam_jobs.background ==> final(self).line == old(self).line,
            !old(self).steam_jobs.background && old(self).steam.root is None ==> final(self).line.says(
                "Steam was not found. Select its folder in Settings."@,
                true,
                old(self).line.busy,
            ),
            !old(self).steam_jobs.background && old(self).steam.root is Some && !manifest_ids(
                old(self).steam.manifests@,
            ).contains(app_id) ==> final(self).line.says(
                "Install the game through Steam before applying its fix."@,
                true,
                old(self).line.busy,
            ),
            !old(self).steam_jobs.background && old(self).steam.root is Some && manifest_ids(
                old(self).steam.manifests@,
            ).contains(app_id) && order is None ==> final(self).line == old(self).line,
            order matches Some((root, install_dir)) ==> {
                &&& Some(root) == old(self).steam.root
                &&& exists|i: int| #[trigger]
                    first_at(manifest_ids(old(self).steam.manifests@), app_id, i) && install_dir
                        == old(self).steam.manifests@[i].install_dir
                &&& final(self).pending_fix_block == Some(app_id)
                &&& final(self).line.text@ == "Downloading and applying the Denuvo fix…"@
                &&& !final(self).line.error
                &&& final(self).line.is_busy_with(
                    "Applying the fix (this can take a while for large fixes)…"@,
                )
            },
    {
        if self.steam_jobs.background {
            return None;
        }
        let root = match self.steam_root_or_error(
            "Steam was not found. Select its folder in Settings.",
        ) {
            Some(root) => root,
            None => {
                return None;
            },
        };
        let at: usize = match manifest_at(&self.steam.manifests, app_id) {
            Some(at) => at,
            None => {
                self.report(
                    "Install the game through Steam before applying its fix.".to_owned(),
                    true,
                );
                return None;
            },
        };
        if !self.catalog.has_denuvo_fix(app_id) {
            return None;
        }
        let install_dir = self.steam.manifests[at].install_dir.clone();
        self.pending_fix_block = Some(app_id);
        self.steam_jobs.background = true;
        self.line = StatusLine {
            text: "Downloading and applying the Denuvo fix…".to_owned(),
            error: false,
            busy: Some("Applying the fix (this can take a while for large fixes)…".to_owned()),
        };
        Some((root, install_dir))
    }
}

/// Apps with the user's own files and apps pinned to the build-locked version are never swept.
pub proof fn chosen_versions_are_not_swept(
    ids: Seq<u32>,
    added: Map<u32, AddedAppState>,
    fixes_loaded: bool,
    fix_applied: Set<u32>,
    app_id: u32,
)
    requires
        added[app_id].source == Some(UnlockSource::Cracked) || added[app_id].source == Some(
            UnlockSource::Own,
        ),
    ensures
        !latest_apps(ids, added, fixes_loaded, fix_applied).contains(app_id),
    decreases ids.len(),
{
    if ids.len() > 0 {
        chosen_versions_are_not_swept(
            ids.drop_last(),
            added,
            fixes_loaded,
            fix_applied,
            app_id,
        );
        let before = latest_apps(ids.drop_last(), added, fixes_loaded, fix_applied);
        let all = latest_apps(ids, added, fixes_loaded, fix_applied);
        if all.contains(app_id) {
            let i = choose|i: int| 0 <= i < all.len() && all[i] == app_id;
            if i < before.len() {
                assert(before[i] == app_id);
            }
        }
    }
}

} // verus!
