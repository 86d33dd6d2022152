//! Keeping the shell's lists current: the game list, the Denuvo watch list, fixes, repacks and the
//! live storefront, each fetched in the background.
use crate::catalog::{denuvo_fixed, fix_ids, repackers_of, table_is, Catalog};
use crate::helpers::{human_bytes, size_text};
use crate::ids::{id_set, increasing, sorted_distinct};
use crate::rate_limiter::{in_window, retry_after};
use crate::state::{DrydockApp, ListJobs, Part, StoreState};
use crate::text::{cat2, cat3, decimal, decimal_text, decimal_wide, texts};
use crate::timing::{AMBIENT_FRAME, IDLE_FRAME, INTERACTIVE_FRAME, SECOND};
use crate::types::{CatalogApp, FixEntry, RepackApp, RepackFilter, Reply, StoreFeatured};
use vstd::prelude::*;

verus! {

/// What a refresh marker of the game list holds. Its suffix makes older lists count as stale.
pub fn catalog_marker(version: &str) -> (marker: String)
    ensures
        marker@ == version@ + ":catalog-v2"@,
{
    cat2(version, ":catalog-v2")
}

/// What two lists of games are compared by.
pub open spec fn app_model(app: CatalogApp) -> (u32, Seq<char>, bool, Seq<Seq<char>>) {
    (app.app_id, app.name@, app.drm, texts(app.tags@))
}

/// Whether two lists hold the same games.
pub open spec fn same_games(a: Seq<CatalogApp>, b: Seq<CatalogApp>) -> bool {
    a.len() == b.len() && forall|i: int|
        0 <= i < a.len() ==> app_model(#[trigger] a[i]) == app_model(b[i])
}

fn same_names(a: &Vec<String>, b: &Vec<String>) -> (same: bool)
    ensures
        same == (texts(a@) == texts(b@)),
{
    if a.len() != b.len() {
        assert(texts(a@).len() != texts(b@).len());
        return false;
    }
    let mut i: usize = 0;
    while i < a.len()
        invariant
            i <= a@.len() == b@.len(),
            forall|k: int| 0 <= k < i ==> (#[trigger] a@[k])@ == b@[k]@,
        decreases a@.len() - i,
    {
        if a[i] != b[i] {
            assert(texts(a@)[i as int] != texts(b@)[i as int]);
            return false;
        }
        i += 1;
    }
    assert(texts(a@) =~= texts(b@));
    true
}

/// Whether two lists hold the same games.
pub fn lists_agree(a: &Vec<CatalogApp>, b: &Vec<CatalogApp>) -> (same: bool)
    ensures
        same == same_games(a@, b@),
{
    if a.len() != b.len() {
        return false;
    }
    let mut i: usize = 0;
    while i < a.len()
        invariant
            i <= a@.len() == b@.len(),
            forall|k: int| 0 <= k < i ==> app_model(#[trigger] a@[k]) == app_model(b@[k]),
        decreases a@.len() - i,
    {
        let x = &a[i];
        let y = &b[i];
        if x.app_id != y.app_id || x.drm != y.drm || x.name != y.name || !same_names(
            &x.tags,
            &y.tags,
        ) {
            assert(app_model(a@[i as int]) != app_model(b@[i as int]));
            return false;
        }
        i += 1;
    }
    true
}

/// The fix list as the provider's table of build-locked fixes gives it: one entry for each app, by
/// App ID.
pub fn fix_entries(ids: &Vec<u32>) -> (fixes: Vec<FixEntry>)
    ensures
        increasing(fix_ids(fixes@)),
        fix_ids(fixes@).to_set() == ids@.to_set(),
        forall|i: int| 0 <= i < fixes@.len() ==> (#[trigger] fixes@[i]).denuvo,
{
    let sorted = sorted_distinct(ids);
    let mut fixes: Vec<FixEntry> = Vec::new();
    let mut i: usize = 0;
    while i < sorted.len()
        invariant
            i <= sorted@.len(),
            fix_ids(fixes@) =~= sorted@.take(i as int),
            forall|k: int| 0 <= k < fixes@.len() ==> (#[trigger] fixes@[k]).denuvo,
        decreases sorted@.len() - i,
    {
        fixes.push(FixEntry { app_id: sorted[i], denuvo: true });
        assert(sorted@.take(i + 1) =~= sorted@.take(i as int).push(sorted@[i as int]));
        i += 1;
    }
    assert(fix_ids(fixes@) =~= sorted@);
    fixes
}

/// How many seconds a refused request is told to wait.
pub open spec fn wait_seconds(wait: int) -> nat {
    if wait < SECOND {
        1
    } else {
        (wait / (SECOND as int)) as nat
    }
}

/// How many seconds a refused request is told to wait: at least one.
pub fn seconds_to_wait(wait: u128) -> (seconds: u128)
    ensures
        seconds == wait_seconds(wait as int),
{
    if wait < SECOND {
        1
    } else {
        wait / SECOND
    }
}

impl StoreState {
    /// Whether `after` is this storefront once a fetch of the feed has ended with `reply`.
    #[verifier::opaque]
    pub open spec fn fed(
        &self,
        reply: Reply<Result<StoreFeatured, String>>,
        after: StoreState,
    ) -> bool {
        &&& after == (StoreState {
            featured: after.featured,
            featured_error: after.featured_error,
            featured_loading: false,
            ..*self
        })
        &&& match reply {
            Reply::Done(Ok(featured)) => after.featured == Some(featured) && after.featured_error
                == None::<String>,
            Reply::Done(Err(error)) => after.featured == self.featured && after.featured_error
                == Some(error),
            _ => after.featured == self.featured && (after.featured_error matches Some(error)
                && error@ == "The store feed request ended unexpectedly"@),
        }
    }

    /// Takes the end of a fetch of the feed.
    fn take_feed(&mut self, reply: Reply<Result<StoreFeatured, String>>)
        requires
            !(reply is Waiting),
        ensures
            old(self).fed(reply, *final(self)),
    {
        proof {
            reveal(StoreState::fed);
        }
        self.featured_loading = false;
        match reply {
            Reply::Done(Ok(featured)) => {
                self.featured = Some(featured);
                self.featured_error = None;
            },
            Reply::Done(Err(error)) => {
                self.featured_error = Some(error);
            },
            _ => {
                self.featured_error =
                Some("The store feed request ended unexpectedly".to_owned());
            },
        }
    }
}

impl Catalog {
    /// Whether `after` is this catalog with its games replaced by `apps`.
    #[verifier::opaque]
    pub open spec fn replaced(&self, apps: Vec<CatalogApp>, after: Catalog) -> bool {
        &&& after.wf()
        &&& after == (Catalog {
            apps,
            ids: after.ids,
            available_tags: after.available_tags,
            selected_tag: after.selected_tag,
            ..*self
        })
        &&& after.selected_tag == (match self.selected_tag {
            Some(tag) if texts(after.available_tags@).contains(tag@) => Some(tag),
            _ => None,
        })
    }

    /// Whether `after` is this catalog with the watch list `ids` loaded.
    #[verifier::opaque]
    pub open spec fn denuvo_loads(&self, ids: Vec<u32>, after: Catalog) -> bool {
        &&& after == (Catalog {
            denuvo_appids: after.denuvo_appids,
            denuvo_loaded: true,
            ..*self
        })
        &&& after.denuvo_appids@ == ids@.to_set()
    }

    fn load_denuvo(&mut self, ids: Vec<u32>)
        ensures
            old(self).denuvo_loads(ids, *final(self)),
            old(self).wf() ==> final(self).wf(),
    {
        proof {
            reveal(Catalog::wf);
            reveal(Catalog::denuvo_loads);
        }
        self.denuvo_appids = id_set(&ids);
        self.denuvo_loaded = true;
    }

    fn give_up_denuvo(&mut self)
        ensures
            *final(self) == (Catalog { denuvo_loaded: true, ..*old(self) }),
            old(self).wf() ==> final(self).wf(),
    {
        proof {
            reveal(Catalog::wf);
        }
        self.denuvo_loaded = true;
    }

    fn give_up_fixes(&mut self)
        ensures
            *final(self) == (Catalog { fixes_loaded: true, ..*old(self) }),
            old(self).wf() ==> final(self).wf(),
    {
        proof {
            reveal(Catalog::wf);
        }
        self.fixes_loaded = true;
    }

    fn give_up_repacks(&mut self)
        ensures
            *final(self) == (Catalog { repacks_loaded: true, ..*old(self) }),
            old(self).wf() ==> final(self).wf(),
    {
        proof {
            reveal(Catalog::wf);
        }
        self.repacks_loaded = true;
    }

    /// Whether `after` is this catalog with the fix list `fixes` loaded and indexed.
    #[verifier::opaque]
    pub open spec fn fixes_load(&self, fixes: Vec<FixEntry>, after: Catalog) -> bool {
        &&& after == (Catalog {
            fixes,
            fixes_loaded: true,
            fix_flags_by_app: after.fix_flags_by_app,
            ..*self
        })
        &&& after.fix_flags_by_app@ == denuvo_fixed(fixes@)
    }

    fn load_fixes(&mut self, fixes: Vec<FixEntry>)
        ensures
            old(self).fixes_load(fixes, *final(self)),
            old(self).wf() ==> final(self).wf(),
    {
        proof {
            reveal(Catalog::wf);
            reveal(Catalog::fixes_load);
        }
        self.fixes = fixes;
        self.fixes_loaded = true;
        self.rebuild_fix_index();
    }

    /// Whether `after` is this catalog with the repack list `repacks` loaded and indexed. A filter
    /// on a repacker that is gone is dropped.
    #[verifier::opaque]
    pub open spec fn repacks_load(&self, repacks: Vec<RepackApp>, after: Catalog) -> bool {
        &&& after == (Catalog {
            repacks,
            repacks_loaded: true,
            repackers_by_app: after.repackers_by_app,
            available_repackers: after.available_repackers,
            repack_filter: after.repack_filter,
            ..*self
        })
        &&& table_is(after.repackers_by_app@, repackers_of(repacks@))
        &&& after.repack_filter == (match self.repack_filter {
            RepackFilter::Repacker(name) => if texts(after.available_repackers@).contains(name@) {
                RepackFilter::Repacker(name)
            } else {
                RepackFilter::Any
            },
            other => other,
        })
    }

    fn load_repacks(&mut self, repacks: Vec<RepackApp>)
        ensures
            old(self).repacks_load(repacks, *final(self)),
            old(self).wf() ==> final(self).wf(),
    {
        proof {
            reveal(Catalog::wf);
            reveal(Catalog::repacks_load);
        }
        self.repacks = repacks;
        self.repacks_loaded = true;
        self.rebuild_repack_index();
    }

    /// Replaces the games, and tells whether the new ones differ.
    pub fn replace_apps(&mut self, apps: Vec<CatalogApp>) -> (changed: bool)
        requires
            old(self).wf(),
        ensures
            old(self).replaced(apps, *final(self)),
            final(self).wf(),
            changed == !same_games(apps@, old(self).apps@),
    {
        proof {
            reveal(Catalog::wf);
            reveal(Catalog::replaced);
        }
        let changed = !lists_agree(&apps, &self.apps);
        self.apps = apps;
        self.recompute_tags();
        changed
    }
}

/// How long the window may wait for its next frame.
pub open spec fn frame_wait(focused: bool, moving: bool, pending: bool) -> u128 {
    if focused && moving {
        INTERACTIVE_FRAME
    } else if focused || pending {
        AMBIENT_FRAME
    } else {
        IDLE_FRAME
    }
}

/// A fetch of the Denuvo watch list.
#[derive(Clone, Copy, Debug, PartialEq, Eq, Structural)]
pub struct DenuvoOrder {
    /// Whether the list is fetched even where a fresh copy of it is at hand.
    pub force: bool,
}

/// What a forced refresh has to fetch.
#[derive(Clone, Copy, Debug, PartialEq, Eq, Structural)]
pub struct RefreshOrder {
    pub catalog: bool,
    pub denuvo: Option<DenuvoOrder>,
}

/// The order for a fetch of the Denuvo watch list, unless one is in flight.
pub open spec fn denuvo_order(in_flight: bool, force: bool) -> Option<DenuvoOrder> {
    if in_flight {
        None
    } else {
        Some(DenuvoOrder { force })
    }
}

impl DrydockApp {
    /// Whether the game list is to be fetched now. It is kept for a day; only a forced refresh
    /// bypasses that. `marker_current` tells whether the marker of the last refresh still stands.
    pub fn start_catalog_refresh(&mut self, force: bool, marker_current: bool) -> (fetch: bool)
        ensures
            fetch == (!old(self).list_jobs.catalog && (force || !marker_current)),
            old(self).keeps_all_but(set![Part::ListJobs], *final(self)),
            final(self).list_jobs == (ListJobs { catalog: old(self).list_jobs.catalog || fetch, ..old(self).list_jobs }),
    {
        if self.list_jobs.catalog {
            return false;
        }
        if !force && marker_current {
            return false;
        }
        self.list_jobs.catalog = true;
        true
    }

    /// The fetch of the Denuvo watch list that is to run now, where none is in flight.
    pub fn start_denuvo_refresh(&mut self, force: bool) -> (order: Option<DenuvoOrder>)
        ensures
            order == denuvo_order(old(self).list_jobs.denuvo, force),
            old(self).keeps_all_but(set![Part::ListJobs], *final(self)),
            final(self).list_jobs == (ListJobs { denuvo: true, ..old(self).list_jobs }),
    {
        if self.list_jobs.denuvo {
            return None;
        }
        self.list_jobs.denuvo = true;
        Some(DenuvoOrder { force })
    }

    /// Whether the fix list is to be fetched now.
    pub fn start_fixes_refresh(&mut self) -> (fetch: bool)
        ensures
            fetch == !old(self).list_jobs.fixes,
            old(self).keeps_all_but(set![Part::ListJobs], *final(self)),
            final(self).list_jobs == (ListJobs { fixes: true, ..old(self).list_jobs }),
    {
        if self.list_jobs.fixes {
            return false;
        }
        self.list_jobs.fixes = true;
        true
    }

    /// Whether the repack list is to be fetched now.
    pub fn start_repacks_refresh(&mut self) -> (fetch: bool)
        ensures
            fetch == !old(self).list_jobs.repacks,
            old(self).keeps_all_but(set![Part::ListJobs], *final(self)),
            final(self).list_jobs == (ListJobs { repacks: true, ..old(self).list_jobs }),
    {
        if self.list_jobs.repacks {
            return false;
        }
        self.list_jobs.repacks = true;
        true
    }

    /// Whether the live storefront is to be fetched now: not while a fetch is in flight, nor once
    /// a result is in hand.
    pub fn start_featured(&mut self) -> (fetch: bool)
        ensures
            fetch == (!old(self).list_jobs.featured && old(self).store.featured is None),
            !fetch ==> *final(self) == *old(self),
            fetch ==> {
                &&& old(self).keeps_all_but(set![Part::ListJobs, Part::Store], *final(self))
                &&& final(self).list_jobs == (ListJobs { featured: true, ..old(self).list_jobs })
                &&& final(self).store == (StoreState {
                    featured_loading: true,
                    featured_error: None,
                    ..old(self).store
                })
            },
    {
        if self.list_jobs.featured || self.store.featured.is_some() {
            return false;
        }
        self.store.featured_loading = true;
        self.store.featured_error = None;
        self.list_jobs.featured = true;
        true
    }

    /// Forces a refresh of the game list and the Denuvo watch list, subject to the rate limiter,
    /// and returns what to fetch.
    pub fn force_catalog_refresh(&mut self, now: u128) -> (order: RefreshOrder)
        ensures
            old(self).keeps_all_but(set![Part::Line, Part::CatalogLimiter, Part::ListJobs, Part::Catalog], *final(self)),
            final(self).catalog_limiter.window == old(self).catalog_limiter.window,
            final(self).catalog_limiter.max == old(self).catalog_limiter.max,
            ({
                let before = *old(self);
                let after = *final(self);
                let hits = in_window(before.catalog_limiter.hits@, now, before.catalog_limiter.window);
                let limited = hits.len() >= before.catalog_limiter.max;
                if before.list_jobs.catalog {
                    &&& order == (RefreshOrder { catalog: false, denuvo: None })
                    &&& after.list_jobs == before.list_jobs
                    &&& after.catalog == before.catalog
                    &&& after.catalog_limiter == before.catalog_limiter
                    &&& after.line.says(
                        "A game-list refresh is already running."@,
                        false,
                        before.line.busy,
                    )
                } else if limited {
                    &&& order == (RefreshOrder { catalog: false, denuvo: None })
                    &&& after.list_jobs == before.list_jobs
                    &&& after.catalog == before.catalog
                    &&& after.catalog_limiter.hits@ == hits
                    &&& after.line.says(
                        "Too many refreshes. Please wait "@ + decimal_text(
                            wait_seconds(retry_after(hits, now, before.catalog_limiter.window)),
                        ) + "s before trying again."@,
                        true,
                        before.line.busy,
                    )
                } else {
                    &&& order == (RefreshOrder {
                        catalog: true,
                        denuvo: denuvo_order(before.list_jobs.denuvo, true),
                    })
                    &&& after.list_jobs == (ListJobs {
                        catalog: true,
                        denuvo: true,
                        ..before.list_jobs
                    })
                    &&& after.catalog == (Catalog { denuvo_loaded: false, ..before.catalog })
                    &&& after.catalog_limiter.hits@ == hits.push(now)
                    &&& after.line.says("Refreshing the game list…"@, false, before.line.busy)
                }
            }),
    {
        if self.list_jobs.catalog {
            self.report("A game-list refresh is already running.".to_owned(), false);
            return RefreshOrder { catalog: false, denuvo: None };
        }
        match self.catalog_limiter.check(now) {
            Ok(_) => {
                let catalog = self.start_catalog_refresh(true, false);
                self.catalog.denuvo_loaded = false;
                let denuvo = self.start_denuvo_refresh(true);
                self.report("Refreshing the game list…".to_owned(), false);
                RefreshOrder { catalog, denuvo }
            },
            Err(wait) => {
                let seconds = decimal_wide(seconds_to_wait(wait));
                let text = cat3(
                    "Too many refreshes. Please wait ",
                    seconds.as_str(),
                    "s before trying again.",
                );
                self.report(text, true);
                RefreshOrder { catalog: false, denuvo: None }
            },
        }
    }

    /// Takes the answer of the game list fetch. A non-empty list replaces the one in hand, and is
    /// then to be saved: `Some` tells whether it differs from the old one, and the outcome of the
    /// save goes to `catalog_saved`.
    pub fn poll_catalog_refresh(&mut self, reply: Reply<Result<Vec<CatalogApp>, String>>) -> (save:
        Option<bool>)
        requires
            old(self).catalog.wf(),
        ensures
            final(self).catalog.wf(),
            old(self).keeps_all_but(set![Part::ListJobs, Part::Catalog], *final(self)),
            final(self).list_jobs == (ListJobs {
                catalog: old(self).list_jobs.catalog && reply is Waiting,
                ..old(self).list_jobs
            }),
            save is Some <==> old(self).list_jobs.catalog && reply is Done && reply->Done_0 is Ok
                && reply->Done_0->Ok_0@.len() > 0,
            save is None ==> final(self).catalog == old(self).catalog,
            save matches Some(changed) ==> {
                &&& old(self).catalog.replaced(reply->Done_0->Ok_0, final(self).catalog)
                &&& changed == !same_games(reply->Done_0->Ok_0@, old(self).catalog.apps@)
            },
    {
        if !self.list_jobs.catalog {
            return None;
        }
        match reply {
            Reply::Waiting => {
                return None;
            },
            Reply::Done(Ok(apps)) => {
                self.list_jobs.catalog = false;
                if apps.len() > 0 {
                    let changed = self.catalog.replace_apps(apps);
                    return Some(changed);
                }
            },
            _ => {
                self.list_jobs.catalog = false;
            },
        }
        None
    }

    /// Takes the outcome of saving a refreshed game list.
    pub fn catalog_saved(&mut self, changed: bool, saved: Result<(), String>)
        ensures
            old(self).keeps_all_but(set![Part::Line], *final(self)),
            saved matches Err(error) ==> final(self).line.says(
                "The refreshed game list could not be cached: "@ + error@,
                true,
                old(self).line.busy,
            ),
            saved is Ok && changed ==> final(self).line.says(
                "Game list updated: "@ + decimal_text(old(self).catalog.apps@.len()) + " games"@,
                false,
                old(self).line.busy,
            ),
            saved is Ok && !changed ==> final(self).line == old(self).line,
    {
        match saved {
            Err(error) => {
                let text = cat2("The refreshed game list could not be cached: ", error.as_str());
                self.report(text, true);
            },
            Ok(_) => {
                if changed {
                    let count = decimal(self.catalog.apps.len() as u64);
                    let text = cat3("Game list updated: ", count.as_str(), " games");
                    self.report(text, false);
                }
            },
        }
    }

    /// Takes the answer of the Denuvo watch list fetch. A failure still counts as loaded, so that
    /// the filter is usable rather than stuck on loading.
    pub fn poll_denuvo_refresh(&mut self, reply: Reply<Result<Vec<u32>, String>>)
        ensures
            old(self).catalog.wf() ==> final(self).catalog.wf(),
            old(self).keeps_all_but(set![Part::ListJobs, Part::Catalog, Part::Line], *final(self)),
            final(self).list_jobs == (ListJobs {
                denuvo: old(self).list_jobs.denuvo && reply is Waiting,
                ..old(self).list_jobs
            }),
            !(old(self).list_jobs.denuvo && reply is Done) ==> {
                &&& final(self).catalog == old(self).catalog
                &&& final(self).line == old(self).line
            },
            old(self).list_jobs.denuvo && reply is Done && reply->Done_0 is Ok ==> {
                &&& old(self).catalog.denuvo_loads(reply->Done_0->Ok_0, final(self).catalog)
                &&& final(self).line == old(self).line
            },
            old(self).list_jobs.denuvo && reply is Done && reply->Done_0 is Err ==> {
                &&& final(self).catalog == (Catalog { denuvo_loaded: true, ..old(self).catalog })
                &&& final(self).line.says(
                    "Denuvo list unavailable: "@ + reply->Done_0->Err_0@,
                    true,
                    old(self).line.busy,
                )
            },
    {
        if !self.list_jobs.denuvo {
            return;
        }
        match reply {
            Reply::Waiting => {},
            Reply::Lost => {
                self.list_jobs.denuvo = false;
            },
            Reply::Done(Ok(list)) => {
                self.list_jobs.denuvo = false;
                self.catalog.load_denuvo(list);
            },
            Reply::Done(Err(error)) => {
                self.list_jobs.denuvo = false;
                self.catalog.give_up_denuvo();
                let text = cat2("Denuvo list unavailable: ", error.as_str());
                self.report(text, true);
            },
        }
    }

    /// Takes the answer of the fix list fetch.
    pub fn poll_fixes_refresh(&mut self, reply: Reply<Result<Vec<FixEntry>, String>>)
        ensures
            old(self).catalog.wf() ==> final(self).catalog.wf(),
            old(self).keeps_all_but(set![Part::ListJobs, Part::Catalog, Part::Line], *final(self)),
            final(self).list_jobs == (ListJobs {
                fixes: old(self).list_jobs.fixes && reply is Waiting,
                ..old(self).list_jobs
            }),
            !(old(self).list_jobs.fixes && reply is Done) ==> {
                &&& final(self).catalog == old(self).catalog
                &&& final(self).line == old(self).line
            },
            old(self).list_jobs.fixes && reply is Done && reply->Done_0 is Ok ==> {
                &&& old(self).catalog.fixes_load(reply->Done_0->Ok_0, final(self).catalog)
                &&& final(self).line == old(self).line
            },
            old(self).list_jobs.fixes && reply is Done && reply->Done_0 is Err ==> {
                &&& final(self).catalog == (Catalog { fixes_loaded: true, ..old(self).catalog })
                &&& final(self).line.says(
                    "Fix list unavailable: "@ + reply->Done_0->Err_0@,
                    true,
                    old(self).line.busy,
                )
            },
    {
        if !self.list_jobs.fixes {
            return;
        }
        match reply {
            Reply::Waiting => {},
            Reply::Lost => {
                self.list_jobs.fixes = false;
            },
            Reply::Done(Ok(list)) => {
                self.list_jobs.fixes = false;
                self.catalog.load_fixes(list);
            },
            Reply::Done(Err(error)) => {
                self.list_jobs.fixes = false;
                self.catalog.give_up_fixes();
                let text = cat2("Fix list unavailable: ", error.as_str());
                self.report(text, true);
            },
        }
    }

    /// Takes the answer of the repack list fetch.
    pub fn poll_repacks_refresh(&mut self, reply: Reply<Result<Vec<RepackApp>, String>>)
        ensures
            old(self).catalog.wf() ==> final(self).catalog.wf(),
            old(self).keeps_all_but(set![Part::ListJobs, Part::Catalog, Part::Line], *final(self)),
            final(self).list_jobs == (ListJobs {
                repacks: old(self).list_jobs.repacks && reply is Waiting,
                ..old(self).list_jobs
            }),
            !(old(self).list_jobs.repacks && reply is Done) ==> {
                &&& final(self).catalog == old(self).catalog
                &&& final(self).line == old(self).line
            },
            old(self).list_jobs.repacks && reply is Done && reply->Done_0 is Ok ==> {
                &&& old(self).catalog.repacks_load(reply->Done_0->Ok_0, final(self).catalog)
                &&& final(self).line == old(self).line
            },
            old(self).list_jobs.repacks && reply is Done && reply->Done_0 is Err ==> {
                &&& final(self).catalog == (Catalog { repacks_loaded: true, ..old(self).catalog })
                &&& final(self).line.says(
                    "Repack list unavailable: "@ + reply->Done_0->Err_0@,
                    true,
                    old(self).line.busy,
                )
            },
    {
        if !self.list_jobs.repacks {
            return;
        }
        match reply {
            Reply::Waiting => {},
            Reply::Lost => {
                self.list_jobs.repacks = false;
            },
            Reply::Done(Ok(list)) => {
                self.list_jobs.repacks = false;
                self.catalog.load_repacks(list);
            },
            Reply::Done(Err(error)) => {
                self.list_jobs.repacks = false;
                self.catalog.give_up_repacks();
                let text = cat2("Repack list unavailable: ", error.as_str());
                self.report(text, true);
            },
        }
    }

    /// Takes the answer of the storefront fetch.
    pub fn poll_featured(&mut self, reply: Reply<Result<StoreFeatured, String>>)
        ensures
            old(self).keeps_all_but(set![Part::ListJobs, Part::Store], *final(self)),
            final(self).list_jobs == (ListJobs {
                featured: old(self).list_jobs.featured && reply is Waiting,
                ..old(self).list_jobs
            }),
            !old(self).list_jobs.featured || reply is Waiting ==> final(self).store
                == old(self).store,
            old(self).list_jobs.featured && !(reply is Waiting) ==> old(self).store.fed(
                reply,
                final(self).store,
            ),
    {
        if self.list_jobs.featured {
            let waiting = match &reply {
                Reply::Waiting => true,
                _ => false,
            };
            if !waiting {
                self.list_jobs.featured = false;
                self.store.take_feed(reply);
            }
        }
    }

    /// Takes the outcome of deleting the cache on disk: the lists derived from it are dropped so
    /// that they refill. The Denuvo watch list is then to be fetched anew.
    pub fn clear_drydock_cache(&mut self, cleared: Result<u64, String>) -> (order: Option<
        DenuvoOrder,
    >)
        ensures
            ({
                let before = *old(self);
                let after = *final(self);
                match cleared {
                    Ok(freed) => {
                        &&& order == denuvo_order(before.list_jobs.denuvo, true)
                        &&& before.keeps_all_but(
                            set![Part::ListJobs, Part::Catalog, Part::Line],
                            after,
                        )
                        &&& after.list_jobs == (ListJobs { denuvo: true, ..before.list_jobs })
                        &&& after.catalog == (Catalog {
                            denuvo_appids: after.catalog.denuvo_appids,
                            denuvo_loaded: false,
                            ..before.catalog
                        })
                        &&& after.catalog.denuvo_appids@ == Set::<u32>::empty()
                        &&& after.line.says(
                            "Cache cleared — "@ + size_text(freed as nat) + " freed."@,
                            false,
                            before.line.busy,
                        )
                    },
                    Err(error) => {
                        &&& order is None
                        &&& before.keeps_all_but(set![Part::Line], after)
                        &&& after.line.says(
                            "Cache could not be cleared: "@ + error@,
                            true,
                            before.line.busy,
                        )
                    },
                }
            }),
    {
        match cleared {
            Ok(freed) => {
                self.catalog.denuvo_appids.clear();
                self.catalog.denuvo_loaded = false;
                let order = self.start_denuvo_refresh(true);
                let size = human_bytes(freed);
                let text = cat3("Cache cleared — ", size.as_str(), " freed.");
                self.report(text, false);
                order
            },
            Err(error) => {
                let text = cat2("Cache could not be cleared: ", error.as_str());
                self.report(text, true);
                None
            },
        }
    }

    /// Whether background work is pending, so that the window has to be painted again soon.
    pub fn has_pending_background(&self) -> (pending: bool)
        ensures
            pending == (self.any_job() || self.downloads.is_running()),
    {
        let lists = self.list_jobs;
        let steam = self.steam_jobs;
        let activation = self.activation_jobs;
        let side = self.side_jobs;
        let downloading = self.downloads.running();
        downloading || lists.catalog || lists.denuvo || lists.fixes || lists.repacks || lists.store
            || lists.featured || steam.background || steam.service || steam.unlock_update
            || steam.manifest_guard || steam.update || steam.emu || activation.check
            || activation.remove || activation.request || activation.verify
            || activation.ubisoft_prepare || side.add_game || side.download_install
            || side.cloud_download || side.cloud_oauth
    }

    /// How long the window may wait for its next frame: a sixtieth of a second while the user
    /// interacts or something moves, a thirtieth while the window is focused or work is pending,
    /// and half a second otherwise.
    pub fn next_frame(&self, focused: bool, interacting: bool, animating: bool) -> (wait: u128)
        ensures
            wait == frame_wait(
                focused,
                interacting || animating,
                self.any_job() || self.downloads.is_running(),
            ),
    {
        if focused && (interacting || animating) {
            INTERACTIVE_FRAME
        } else if focused || self.has_pending_background() {
            AMBIENT_FRAME
        } else {
            IDLE_FRAME
        }
    }
}

/// Background work keeps the window at thirty frames a second or more, focused or not, so that
/// progress still moves; a window that is neither focused nor waiting for work idles.
pub proof fn pending_work_keeps_painting(focused: bool, moving: bool, pending: bool)
    ensures
        pending ==> frame_wait(focused, moving, pending) <= AMBIENT_FRAME,
        !focused && !pending ==> frame_wait(focused, moving, pending) == IDLE_FRAME,
{
}

} // verus!
