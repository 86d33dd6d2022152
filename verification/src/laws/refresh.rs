//! What keeping the lists current promises: one fetch at a time, answers that are taken whole, and a
//! user who is told what went wrong.
use crate::catalog::Catalog;
use crate::refresh::{
    catalog_marker, fix_entries, lists_agree, seconds_to_wait, DenuvoOrder, RefreshOrder,
};
use crate::state::{DrydockApp, StoreState};
use crate::text::decimal_text;
use crate::types::{CatalogApp, FixEntry, RepackApp, RepackFilter, Reply, StoreFeatured};
use vstd::prelude::*;

verus! {

broadcast use vstd::std_specs::hash::group_hash_axioms;

/// Each list is fetched once at a time: a second fetch is not begun before the first was answered.
pub proof fn one_fetch_of_a_list_at_a_time(
    a: &mut DrydockApp,
    force: bool,
    current: bool,
    catalog: bool,
    b: &mut DrydockApp,
    force_again: bool,
    current_again: bool,
    catalog_again: bool,
)
    requires
        call_ensures(DrydockApp::start_catalog_refresh, (a, force, current), catalog),
        *old(b) == *final(a),
        call_ensures(
            DrydockApp::start_catalog_refresh,
            (b, force_again, current_again),
            catalog_again,
        ),
    ensures
        catalog ==> final(a).list_jobs.catalog && !catalog_again,
        catalog ==> !old(a).list_jobs.catalog,
        !old(a).list_jobs.catalog && force ==> catalog,
        !old(a).list_jobs.catalog && !current ==> catalog,
        !force && current ==> !catalog && final(a).list_jobs == old(a).list_jobs,
        final(a).list_jobs.fixes == old(a).list_jobs.fixes,
        final(a).catalog == old(a).catalog,
{
}

/// The same of the watch list, the fixes and the repacks.
pub proof fn one_fetch_of_the_others_at_a_time(
    a: &mut DrydockApp,
    force: bool,
    watch: Option<DenuvoOrder>,
    b: &mut DrydockApp,
    force_again: bool,
    watch_again: Option<DenuvoOrder>,
    c: &mut DrydockApp,
    fixes: bool,
    d: &mut DrydockApp,
    fixes_again: bool,
    e: &mut DrydockApp,
    repacks: bool,
    f: &mut DrydockApp,
    repacks_again: bool,
)
    requires
        call_ensures(DrydockApp::start_denuvo_refresh, (a, force), watch),
        *old(b) == *final(a),
        call_ensures(DrydockApp::start_denuvo_refresh, (b, force_again), watch_again),
        call_ensures(DrydockApp::start_fixes_refresh, (c,), fixes),
        *old(d) == *final(c),
        call_ensures(DrydockApp::start_fixes_refresh, (d,), fixes_again),
        call_ensures(DrydockApp::start_repacks_refresh, (e,), repacks),
        *old(f) == *final(e),
        call_ensures(DrydockApp::start_repacks_refresh, (f,), repacks_again),
    ensures
        watch is Some <==> !old(a).list_jobs.denuvo,
        watch matches Some(order) ==> order.force == force,
        watch_again is None,
        fixes <==> !old(c).list_jobs.fixes,
        !fixes_again,
        repacks <==> !old(e).list_jobs.repacks,
        !repacks_again,
        final(a).list_jobs.catalog == old(a).list_jobs.catalog,
        final(c).list_jobs.denuvo == old(c).list_jobs.denuvo,
        final(e).list_jobs.fixes == old(e).list_jobs.fixes,
{
}

/// A fetched game list takes the place of the old one, whole. An empty one, a failure or a lost job
/// leaves the old one.
pub proof fn a_fetched_list_is_taken_whole(
    app: &mut DrydockApp,
    reply: Reply<Result<Vec<CatalogApp>, String>>,
    save: Option<bool>,
)
    requires
        old(app).catalog.wf(),
        call_ensures(DrydockApp::poll_catalog_refresh, (app, reply), save),
    ensures
        old(app).list_jobs.catalog && (reply matches Reply::Done(Ok(apps)) && apps@.len() > 0)
            ==> save is Some && final(app).catalog.apps == reply->Done_0->Ok_0,
        !(old(app).list_jobs.catalog && (reply matches Reply::Done(Ok(apps)) && apps@.len() > 0))
            ==> save is None && final(app).catalog == old(app).catalog,
        final(app).catalog.denuvo_appids == old(app).catalog.denuvo_appids,
        final(app).catalog.fixes == old(app).catalog.fixes,
        final(app).catalog.repacks == old(app).catalog.repacks,
        final(app).list_jobs.catalog <==> old(app).list_jobs.catalog && reply is Waiting,
        final(app).line == old(app).line,
        final(app).settings == old(app).settings,
{
    reveal(Catalog::replaced);
}

/// A fetched list is new exactly where it differs from the old one in an app, a name, a mark or a
/// tag, or in their order.
pub proof fn equal_lists_agree(a: &Vec<CatalogApp>, b: &Vec<CatalogApp>, same: bool, i: int)
    requires
        call_ensures(lists_agree, (a, b), same),
    ensures
        a@ == b@ ==> same,
        same ==> a@.len() == b@.len(),
        same && 0 <= i < a@.len() ==> a@[i].app_id == b@[i].app_id && a@[i].name@ == b@[i].name@
            && a@[i].drm == b@[i].drm && a@[i].tags@.len() == b@[i].tags@.len(),
        same && 0 <= i < a@.len() ==> forall|k: int|
            0 <= k < a@[i].tags@.len() ==> (#[trigger] a@[i].tags@[k])@ == b@[i].tags@[k]@,
{
    if same && 0 <= i < a@.len() {
        assert(crate::refresh::app_model(a@[i]) == crate::refresh::app_model(b@[i]));
        let one = crate::text::texts(a@[i].tags@);
        let two = crate::text::texts(b@[i].tags@);
        assert(one == two);
        assert(one.len() == a@[i].tags@.len());
        assert(two.len() == b@[i].tags@.len());
        assert forall|k: int| 0 <= k < a@[i].tags@.len() implies (#[trigger] a@[i].tags@[k])@
            == b@[i].tags@[k]@ by {
            assert(one[k] == a@[i].tags@[k]@);
            assert(two[k] == b@[i].tags@[k]@);
        }
    }
}

/// The filter of a new list stays where the list still has its tag.
pub proof fn a_tag_stays_selected_while_it_lasts(
    app: &mut DrydockApp,
    apps: Vec<CatalogApp>,
    save: Option<bool>,
    tag: String,
)
    requires
        old(app).catalog.wf(),
        old(app).list_jobs.catalog,
        apps@.len() > 0,
        call_ensures(DrydockApp::poll_catalog_refresh, (app, Reply::Done(Ok(apps))), save),
        old(app).catalog.selected_tag == Some(tag),
    ensures
        final(app).catalog.selected_tag is None || final(app).catalog.selected_tag == Some(tag),
        (exists|i: int|
            0 <= i < final(app).catalog.available_tags@.len() && (
            #[trigger] final(app).catalog.available_tags@[i])@ == tag@)
            <==> final(app).catalog.selected_tag == Some(tag),
{
    reveal(Catalog::replaced);
    let tags = final(app).catalog.available_tags@;
    if exists|i: int| 0 <= i < tags.len() && (#[trigger] tags[i])@ == tag@ {
        let i = choose|i: int| 0 <= i < tags.len() && (#[trigger] tags[i])@ == tag@;
        assert(crate::text::texts(tags)[i] == tag@);
    }
    if crate::text::texts(tags).contains(tag@) {
        let i = choose|i: int|
            0 <= i < crate::text::texts(tags).len() && crate::text::texts(tags)[i] == tag@;
        assert(tags[i]@ == tag@);
    }
}

/// A list that could not be kept is an error; one that changed is announced with its number of
/// games; one that did not is not mentioned.
pub proof fn a_changed_list_is_announced(
    app: &mut DrydockApp,
    changed: bool,
    saved: Result<(), String>,
)
    requires
        call_ensures(DrydockApp::catalog_saved, (app, changed, saved), ()),
    ensures
        saved matches Err(error) ==> final(app).line.error && exists|start: Seq<char>|
            final(app).line.text@ == #[trigger] (start + error@),
        saved is Ok && changed ==> !final(app).line.error && exists|a: Seq<char>, b: Seq<char>|
            final(app).line.text@ == #[trigger] (a + decimal_text(old(app).catalog.apps@.len()) + b),
        saved is Ok && !changed ==> final(app).line == old(app).line,
        final(app).catalog == old(app).catalog,
{
    if let Err(error) = saved {
        assert(final(app).line.text@ == "The refreshed game list could not be cached: "@ + error@);
    } else if changed {
        assert(final(app).line.text@ == "Game list updated: "@ + decimal_text(
            old(app).catalog.apps@.len(),
        ) + " games"@);
    }
}

/// The watch list is what was fetched, no more and no less. A failure leaves the old one, and is
/// told of; the list counts as loaded either way.
pub proof fn the_fetched_watch_list_is_used(
    app: &mut DrydockApp,
    reply: Reply<Result<Vec<u32>, String>>,
    app_id: u32,
)
    requires
        call_ensures(DrydockApp::poll_denuvo_refresh, (app, reply), ()),
        old(app).list_jobs.denuvo,
    ensures
        reply matches Reply::Done(Ok(ids)) ==> {
            &&& final(app).catalog.denuvo_appids@.contains(app_id) <==> ids@.contains(app_id)
            &&& final(app).catalog.denuvo_loaded
            &&& final(app).line == old(app).line
        },
        reply matches Reply::Done(Err(error)) ==> {
            &&& final(app).catalog.denuvo_appids == old(app).catalog.denuvo_appids
            &&& final(app).catalog.denuvo_loaded
            &&& final(app).line.error
            &&& exists|start: Seq<char>| final(app).line.text@ == #[trigger] (start + error@)
        },
        !(reply is Done) ==> final(app).catalog == old(app).catalog && final(app).line
            == old(app).line,
        final(app).list_jobs.denuvo <==> reply is Waiting,
        final(app).catalog.apps == old(app).catalog.apps,
        final(app).catalog.fixes == old(app).catalog.fixes,
        final(app).catalog.repacks == old(app).catalog.repacks,
{
    reveal(Catalog::denuvo_loads);
    if let Reply::Done(Err(error)) = reply {
        assert(final(app).line.text@ == "Denuvo list unavailable: "@ + error@);
    }
    if let Reply::Done(Ok(ids)) = reply {
        assert(ids@.to_set().contains(app_id) <==> ids@.contains(app_id));
    }
}

/// The fixes are those that were fetched, in their order. A failure leaves the old ones, and is told
/// of.
pub proof fn the_fetched_fixes_are_used(
    app: &mut DrydockApp,
    reply: Reply<Result<Vec<FixEntry>, String>>,
)
    requires
        call_ensures(DrydockApp::poll_fixes_refresh, (app, reply), ()),
        old(app).list_jobs.fixes,
    ensures
        reply matches Reply::Done(Ok(fixes)) ==> final(app).catalog.fixes == fixes
            && final(app).catalog.fixes_loaded && final(app).line == old(app).line,
        reply matches Reply::Done(Err(error)) ==> final(app).catalog.fixes
            == old(app).catalog.fixes && final(app).catalog.fix_flags_by_app
            == old(app).catalog.fix_flags_by_app && final(app).catalog.fixes_loaded
            && final(app).line.error && exists|start: Seq<char>|
            final(app).line.text@ == #[trigger] (start + error@),
        !(reply is Done) ==> final(app).catalog == old(app).catalog && final(app).line
            == old(app).line,
        final(app).list_jobs.fixes <==> reply is Waiting,
        final(app).catalog.apps == old(app).catalog.apps,
        final(app).catalog.repacks == old(app).catalog.repacks,
        final(app).catalog.denuvo_appids == old(app).catalog.denuvo_appids,
{
    reveal(Catalog::fixes_load);
    if let Reply::Done(Err(error)) = reply {
        assert(final(app).line.text@ == "Fix list unavailable: "@ + error@);
    }
}

/// The repacks are those that were fetched, in their order. A filter by a repacker who is gone is
/// dropped, and no other is.
pub proof fn the_fetched_repacks_are_used(
    app: &mut DrydockApp,
    reply: Reply<Result<Vec<RepackApp>, String>>,
)
    requires
        call_ensures(DrydockApp::poll_repacks_refresh, (app, reply), ()),
        old(app).list_jobs.repacks,
    ensures
        reply matches Reply::Done(Ok(repacks)) ==> {
            &&& final(app).catalog.repacks == repacks
            &&& final(app).catalog.repacks_loaded
            &&& final(app).line == old(app).line
            &&& !(old(app).catalog.repack_filter is Repacker) ==> final(app).catalog.repack_filter
                == old(app).catalog.repack_filter
            &&& old(app).catalog.repack_filter matches RepackFilter::Repacker(name) ==> {
                &&& final(app).catalog.repack_filter == old(app).catalog.repack_filter
                    || final(app).catalog.repack_filter == RepackFilter::Any
                &&& final(app).catalog.repack_filter == old(app).catalog.repack_filter <==> exists|
                    i: int,
                |
                    0 <= i < final(app).catalog.available_repackers@.len() && (
                    #[trigger] final(app).catalog.available_repackers@[i])@ == name@
            }
        },
        reply matches Reply::Done(Err(error)) ==> final(app).catalog.repacks
            == old(app).catalog.repacks && final(app).catalog.repack_filter
            == old(app).catalog.repack_filter && final(app).catalog.repacks_loaded
            && final(app).line.error && exists|start: Seq<char>|
            final(app).line.text@ == #[trigger] (start + error@),
        !(reply is Done) ==> final(app).catalog == old(app).catalog && final(app).line
            == old(app).line,
        final(app).list_jobs.repacks <==> reply is Waiting,
        final(app).catalog.apps == old(app).catalog.apps,
        final(app).catalog.fixes == old(app).catalog.fixes,
{
    reveal(Catalog::repacks_load);
    if let Reply::Done(Err(error)) = reply {
        assert(final(app).line.text@ == "Repack list unavailable: "@ + error@);
    }
    if let RepackFilter::Repacker(name) = old(app).catalog.repack_filter {
        let names = final(app).catalog.available_repackers@;
        if exists|i: int| 0 <= i < names.len() && (#[trigger] names[i])@ == name@ {
            let i = choose|i: int| 0 <= i < names.len() && (#[trigger] names[i])@ == name@;
            assert(crate::text::texts(names)[i] == name@);
        }
        if crate::text::texts(names).contains(name@) {
            let i = choose|i: int|
                0 <= i < crate::text::texts(names).len() && crate::text::texts(names)[i] == name@;
            assert(names[i]@ == name@);
        }
    }
}

/// The feed is fetched once, until it is there. What comes is shown, a failure is kept beside what
/// was there, and a job that was lost counts as a failure.
pub proof fn the_fetched_feed_is_used(
    app: &mut DrydockApp,
    reply: Reply<Result<StoreFeatured, String>>,
    again: &mut DrydockApp,
    fetch: bool,
)
    requires
        old(app).list_jobs.featured,
        call_ensures(DrydockApp::poll_featured, (app, reply), ()),
        *old(again) == *final(app),
        call_ensures(DrydockApp::start_featured, (again,), fetch),
    ensures
        reply matches Reply::Done(Ok(featured)) ==> final(app).store.featured == Some(featured)
            && final(app).store.featured_error is None && !fetch,
        reply matches Reply::Done(Err(error)) ==> final(app).store.featured
            == old(app).store.featured && final(app).store.featured_error == Some(error),
        reply is Lost ==> final(app).store.featured == old(app).store.featured
            && final(app).store.featured_error is Some,
        reply is Waiting ==> final(app).store == old(app).store && !fetch,
        !(reply is Waiting) ==> !final(app).store.featured_loading
            && !final(app).list_jobs.featured,
        !(reply is Waiting) && final(app).store.featured is None ==> fetch
            && final(again).store.featured_loading && final(again).store.featured_error is None,
        final(app).store.search == old(app).store.search,
        final(app).store.hero_carousel_index == old(app).store.hero_carousel_index,
{
    reveal(StoreState::fed);
}

/// A refresh that the user asks for runs at once where nothing runs and the limiter has room; the
/// watch list is fetched anew with it. A second one is refused, whether the first still runs or was
/// just made.
pub proof fn a_forced_refresh_is_limited(
    app: &mut DrydockApp,
    now: u128,
    order: RefreshOrder,
    again: &mut DrydockApp,
    later: u128,
    second: RefreshOrder,
)
    requires
        call_ensures(DrydockApp::force_catalog_refresh, (app, now), order),
        order.catalog,
        old(again).catalog_limiter == final(app).catalog_limiter,
        call_ensures(DrydockApp::force_catalog_refresh, (again, later), second),
        old(app).catalog_limiter.max == 1,
        now <= later,
    ensures
        !old(app).list_jobs.catalog,
        final(app).list_jobs.catalog,
        final(app).list_jobs.denuvo,
        !final(app).catalog.denuvo_loaded,
        order.denuvo is Some <==> !old(app).list_jobs.denuvo,
        order.denuvo matches Some(watch) ==> watch.force,
        later < now + old(app).catalog_limiter.window ==> !second.catalog && second.denuvo is None
            && final(again).list_jobs == old(again).list_jobs && final(again).catalog
            == old(again).catalog,
        later < now + old(app).catalog_limiter.window && !old(again).list_jobs.catalog ==> final(
            again).line.error,
        old(again).list_jobs.catalog ==> !second.catalog && !final(again).line.error,
        later >= now + old(app).catalog_limiter.window && !old(again).list_jobs.catalog
            ==> second.catalog,
{
    let window = old(app).catalog_limiter.window;
    let hits = final(app).catalog_limiter.hits@;
    let counted = crate::rate_limiter::in_window(old(app).catalog_limiter.hits@, now, window);
    assert(counted.len() == 0);
    assert(hits =~= seq![now]);
    reveal(Seq::filter);
    let keep = |hit: u128| crate::rate_limiter::elapsed(later, hit) < window;
    assert(hits.drop_last() =~= Seq::<u128>::empty());
    assert(hits.drop_last().filter(keep) =~= Seq::<u128>::empty());
    assert(hits.filter(keep).len() == if keep(now) {
        1nat
    } else {
        0nat
    });
    assert(crate::rate_limiter::in_window(hits, later, window) == hits.filter(keep));
}

/// The wait that the user is told of is in whole seconds, and never none.
pub proof fn a_wait_is_told_in_seconds(wait: u128, seconds: u128)
    requires
        call_ensures(seconds_to_wait, (wait,), seconds),
    ensures
        seconds >= 1,
        wait >= 1_000_000_000 ==> seconds * 1_000_000_000 <= wait < (seconds + 1) * 1_000_000_000,
        wait < 1_000_000_000 ==> seconds == 1,
{
}

/// Clearing the cache empties the watch list, has it fetched anew, and leaves everything else; a
/// cache that could not be cleared leaves the list too.
pub proof fn a_cleared_cache_is_fetched_anew(
    app: &mut DrydockApp,
    cleared: Result<u64, String>,
    order: Option<DenuvoOrder>,
    app_id: u32,
)
    requires
        call_ensures(DrydockApp::clear_drydock_cache, (app, cleared), order),
    ensures
        cleared is Ok ==> !final(app).catalog.denuvo_appids@.contains(app_id)
            && !final(app).catalog.denuvo_loaded && final(app).list_jobs.denuvo
            && !final(app).line.error,
        cleared is Ok ==> (order is Some <==> !old(app).list_jobs.denuvo),
        order matches Some(order) ==> order.force,
        cleared matches Err(error) ==> order is None && final(app).catalog == old(app).catalog
            && final(app).line.error && exists|start: Seq<char>|
            final(app).line.text@ == #[trigger] (start + error@),
        final(app).catalog.apps == old(app).catalog.apps,
        final(app).catalog.fixes == old(app).catalog.fixes,
        final(app).catalog.repacks == old(app).catalog.repacks,
        final(app).settings == old(app).settings,
{
    if let Err(error) = cleared {
        assert(final(app).line.text@ == "Cache could not be cleared: "@ + error@);
    }
}

/// A fix is listed for each app of the answer and for no other, once and in rising order.
pub proof fn every_answered_app_has_a_fix(ids: &Vec<u32>, fixes: Vec<FixEntry>, app_id: u32, i: int)
    requires
        call_ensures(fix_entries, (ids,), fixes),
    ensures
        ids@.contains(app_id) <==> exists|k: int|
            0 <= k < fixes@.len() && (#[trigger] fixes@[k]).app_id == app_id,
        0 <= i < fixes@.len() ==> fixes@[i].denuvo,
        0 < i < fixes@.len() ==> fixes@[i - 1].app_id < fixes@[i].app_id,
{
    let listed = crate::catalog::fix_ids(fixes@);
    assert(listed.to_set().contains(app_id) <==> ids@.to_set().contains(app_id));
    if listed.contains(app_id) {
        let k = choose|k: int| 0 <= k < listed.len() && listed[k] == app_id;
        assert(fixes@[k].app_id == app_id);
    }
    if exists|k: int| 0 <= k < fixes@.len() && (#[trigger] fixes@[k]).app_id == app_id {
        let k = choose|k: int| 0 <= k < fixes@.len() && (#[trigger] fixes@[k]).app_id == app_id;
        assert(listed[k] == app_id);
    }
    if 0 < i < fixes@.len() {
        assert(listed[i - 1] < listed[i]);
        assert(fixes@[i].denuvo);
    }
    if i == 0 && fixes@.len() > 0 {
        assert(fixes@[0].denuvo);
    }
}

/// Two versions have two markers.
pub proof fn every_version_has_a_marker(one: &str, other: &str, marker: String, second: String)
    requires
        call_ensures(catalog_marker, (one,), marker),
        call_ensures(catalog_marker, (other,), second),
    ensures
        marker@ == second@ <==> one@ == other@,
        exists|rest: Seq<char>| marker@ == #[trigger] (one@ + rest),
{
    assert(marker@ == one@ + ":catalog-v2"@);
    if marker@ == second@ {
        assert(marker@.len() == one@.len() + ":catalog-v2"@.len());
        assert(second@.len() == other@.len() + ":catalog-v2"@.len());
        assert(one@ =~= marker@.take(one@.len() as int));
        assert(other@ =~= second@.take(other@.len() as int));
    }
}

/// The shell paints sixty times a second while something moves in front of the user, thirty times
/// while it is in front or something runs, and twice a second otherwise.
pub proof fn the_shell_paints_as_often_as_needed(
    app: &DrydockApp,
    focused: bool,
    interacting: bool,
    animating: bool,
    pending: bool,
    wait: u128,
)
    requires
        call_ensures(DrydockApp::has_pending_background, (app,), pending),
        call_ensures(DrydockApp::next_frame, (app, focused, interacting, animating), wait),
    ensures
        focused && (interacting || animating) ==> wait == 16_667_000,
        focused && !interacting && !animating ==> wait == 33_333_000,
        !focused && pending ==> wait == 33_333_000,
        !focused && !pending ==> wait == 500_000_000,
        app.list_jobs.catalog || app.list_jobs.denuvo || app.list_jobs.fixes
            || app.list_jobs.repacks || app.list_jobs.featured || app.list_jobs.store ==> pending,
        app.side_jobs.add_game || app.side_jobs.download_install ==> pending,
        app.steam_jobs.service || app.steam_jobs.update || app.steam_jobs.background ==> pending,
        (app.downloads.job matches Some(job) && job.finished is None) ==> pending,
{
}

} // verus!
