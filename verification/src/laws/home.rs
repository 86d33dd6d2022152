//! What the storefront promises beside its search: the hero that goes round, the feed and its
//! shelves, and the buttons of a capsule.
use crate::catalog::{first_kept, kept_places_are_listed, kept_places_ascend};
use crate::home::{
    pager_pill, pager_window, picture_is_usable, FeedStatus, PagerPill, SearchKeys, SearchStep,
    SeeAll, Shelf, StoreColumn,
};
use crate::laws::text::is_padding;
use crate::state::{DrydockApp, StoreState};
use crate::text::{decimal, decimal_text};
use crate::types::{Page, SeeAllSection, StoreAction, StoreCapsule, StoreFeatured};
use vstd::prelude::*;

verus! {

broadcast use vstd::std_specs::hash::group_hash_axioms;

/// The hero after the last is the first, and every other is followed by the one after it. Going back
/// undoes going on, in both directions.
pub proof fn the_hero_goes_round(
    store: &mut StoreState,
    count: usize,
    now: u128,
    back: &mut StoreState,
    later: u128,
    other: &mut StoreState,
    forth: &mut StoreState,
)
    requires
        old(store).hero_carousel_index < count,
        call_ensures(StoreState::show_next_hero, (store, count, now), ()),
        *old(back) == *final(store),
        call_ensures(StoreState::show_previous_hero, (back, count, later), ()),
        *old(other) == *old(store),
        call_ensures(StoreState::show_previous_hero, (other, count, now), ()),
        *old(forth) == *final(other),
        call_ensures(StoreState::show_next_hero, (forth, count, later), ()),
    ensures
        old(store).hero_carousel_index + 1 == count ==> final(store).hero_carousel_index == 0,
        old(store).hero_carousel_index + 1 < count ==> final(store).hero_carousel_index
            == old(store).hero_carousel_index + 1,
        final(back).hero_carousel_index == old(store).hero_carousel_index,
        final(forth).hero_carousel_index == old(store).hero_carousel_index,
        final(store).hero_last_scroll == Some(now),
        final(store).search == old(store).search,
        final(store).featured == old(store).featured,
{
    let at = old(store).hero_carousel_index as int;
    if at + 1 < count {
        vstd::arithmetic::div_mod::lemma_small_mod((at + 1) as nat, count as nat);
    } else {
        vstd::arithmetic::div_mod::lemma_mod_self_0(count as int);
    }
    let before = final(other).hero_carousel_index as int;
    if before + 1 < count {
        vstd::arithmetic::div_mod::lemma_small_mod((before + 1) as nat, count as nat);
    } else {
        vstd::arithmetic::div_mod::lemma_mod_self_0(count as int);
    }
}

/// A hero that was chosen is shown, and stays for five seconds unless another is chosen.
pub proof fn a_chosen_hero_stays(
    store: &mut StoreState,
    index: usize,
    now: u128,
    later: u128,
    next: &mut StoreState,
    count: usize,
    current: usize,
)
    requires
        index < count,
        call_ensures(StoreState::show_hero, (store, index, now), ()),
        *old(next) == *final(store),
        call_ensures(StoreState::advance_hero, (next, count, later), current),
        now <= later,
    ensures
        final(store).hero_carousel_index == index,
        final(store).hero_last_scroll == Some(now),
        later < now + 5_000_000_000 ==> current == index && *final(next)
            == *final(store),
        later >= now + 5_000_000_000 && index + 1 < count ==> current == index + 1
            && final(next).hero_last_scroll == Some(later),
        later >= now + 5_000_000_000 && index + 1 == count ==> current == 0,
        current < count,
{
    vstd::arithmetic::div_mod::lemma_small_mod(index as nat, count as nat);
    if index + 1 < count {
        vstd::arithmetic::div_mod::lemma_small_mod((index + 1) as nat, count as nat);
    } else {
        vstd::arithmetic::div_mod::lemma_mod_self_0(count as int);
        vstd::arithmetic::div_mod::lemma_small_mod(0, count as nat);
    }
}

/// The pager shows the current hero, nine at most, and as many as there are where they fit.
pub proof fn the_pager_shows_the_current_hero(
    total: usize,
    current: usize,
    window: (usize, usize),
    pill: PagerPill,
)
    requires
        current < total,
        call_ensures(pager_window, (total, current), window),
        call_ensures(pager_pill, (total, current, current), pill),
    ensures
        window.0 <= current < window.1 <= total,
        window.1 - window.0 <= 9,
        total <= 9 ==> window.0 == 0 && window.1 == total,
        total >= 9 ==> window.1 - window.0 == 9,
        pill == PagerPill::Current,
{
    crate::home::pager_follows_the_hero(total as int, current as int);
}

/// Only the current place is marked as it; an edge is marked where more lies beyond it.
pub proof fn one_pill_is_current(
    total: usize,
    current: usize,
    window: (usize, usize),
    at: usize,
    pill: PagerPill,
)
    requires
        current < total,
        call_ensures(pager_window, (total, current), window),
        window.0 <= at < window.1,
        call_ensures(pager_pill, (total, current, at), pill),
    ensures
        pill == PagerPill::Current <==> at == current,
        pill == PagerPill::Edge ==> at == window.0 && window.0 > 0 || at + 1 == window.1
            && window.1 < total,
        at != current && at == window.0 && window.0 > 0 ==> pill == PagerPill::Edge,
        at != current && at + 1 == window.1 && window.1 < total ==> pill == PagerPill::Edge,
{
    crate::home::pager_follows_the_hero(total as int, current as int);
}

/// Escape empties the search and leaves it; the shortcut always leads to it, a slash only where
/// nothing is typed yet. No key changes anything else.
pub proof fn keys_lead_to_the_search_and_away(
    store: &mut StoreState,
    focused: bool,
    keys: SearchKeys,
    step: SearchStep,
    after: &StoreState,
    results: bool,
    before: bool,
)
    requires
        call_ensures(StoreState::home_search_bar, (store, focused, keys), step),
        *after == *final(store),
        call_ensures(StoreState::home_page, (after,), results),
        call_ensures(StoreState::home_page, (&*old(store),), before),
    ensures
        keys.shortcut ==> step.focus,
        !keys.shortcut && !keys.slash ==> !step.focus,
        before && !keys.shortcut ==> !step.focus,
        focused && !keys.shortcut ==> !step.focus,
        keys.slash && !focused && !before ==> step.focus,
        keys.escape ==> !results,
        !keys.escape ==> *final(store) == *old(store) && !step.unfocus,
        keys.escape && (focused || before) ==> step.unfocus,
        final(store).featured == old(store).featured,
        final(store).hero_carousel_index == old(store).hero_carousel_index,
{
    crate::text::blank_means_trimmed_away(Seq::<char>::empty());
    assert(crate::text::blank(Seq::<char>::empty()));
}

/// Results are shown as soon as something but white space is typed, and no longer once the search
/// was cleared.
pub proof fn a_search_shows_results(
    store: &mut StoreState,
    before: bool,
    after: &StoreState,
    results: bool,
)
    requires
        call_ensures(StoreState::home_page, (&*old(store),), before),
        call_ensures(StoreState::clear_search, (store,), ()),
        *after == *final(store),
        call_ensures(StoreState::home_page, (after,), results),
    ensures
        before <==> !is_padding(old(store).search@),
        !results,
        final(store).search@.len() == 0,
        final(store).featured == old(store).featured,
{
    crate::text::blank_means_trimmed_away(old(store).search@);
    crate::text::blank_means_trimmed_away(Seq::<char>::empty());
}

/// The feed is ready once it is there, whatever came after it. Else it is loading, or the reason why
/// it is not there is given.
pub proof fn the_feed_tells_why_it_is_not_there(store: &StoreState, status: FeedStatus)
    requires
        call_ensures(StoreState::store_feed_status, (store,), status),
    ensures
        status is Ready <==> store.featured is Some,
        status is Loading <==> store.featured is None && store.featured_loading,
        status is Unavailable <==> store.featured is None && !store.featured_loading
            && store.featured_error is Some,
        status matches FeedStatus::Unavailable(text) ==> exists|start: Seq<char>|
            text@ == #[trigger] (start + store.featured_error->0@),
{
    if status is Unavailable {
        assert(status->Unavailable_0@ == "Steam storefront is unavailable: "@
            + store.featured_error->0@);
    }
}

/// Whether a list of places has exactly the capsules that the catalog has, in their order.
pub open spec fn offers(app: DrydockApp, capsules: Seq<StoreCapsule>, places: Seq<usize>) -> bool {
    &&& forall|at: int|
        0 <= at < capsules.len() && app.catalog.ids@.contains((#[trigger] capsules[at]).app_id)
            ==> places.contains(at as usize)
    &&& forall|i: int|
        0 <= i < places.len() ==> (#[trigger] places[i]) < capsules.len()
            && app.catalog.ids@.contains(capsules[places[i] as int].app_id)
    &&& forall|i: int, j: int| 0 <= i < j < places.len() ==> #[trigger] places[i] < #[trigger] places[j]
}

proof fn the_offered_are_offered(app: DrydockApp, capsules: Seq<StoreCapsule>)
    requires
        capsules.len() <= usize::MAX,
    ensures
        offers(app, capsules, app.catalog.offered(capsules)),
{
    let keep = |at: int| app.catalog.ids@.contains(capsules[at].app_id);
    let places = first_kept(capsules.len(), keep, capsules.len());
    kept_places_ascend(capsules.len(), keep, capsules.len());
    assert forall|at: int|
        0 <= at < capsules.len() && app.catalog.ids@.contains(
            (#[trigger] capsules[at]).app_id,
        ) implies places.contains(at as usize) by {
        assert(keep(at));
        kept_places_are_listed(capsules.len(), keep, capsules.len(), at);
    }
    assert forall|i: int| 0 <= i < places.len() implies (#[trigger] places[i]) < capsules.len()
        && app.catalog.ids@.contains(capsules[places[i] as int].app_id) by {
        assert(keep(places[i] as int));
    }
}

/// The column at the top has every top seller that the catalog has. Nothing else of the shell
/// changes but the hero, and only where it is due.
pub proof fn the_column_has_the_top_sellers(
    app: &mut DrydockApp,
    now: u128,
    column: StoreColumn,
    feed: StoreFeatured,
)
    requires
        call_ensures(DrydockApp::home_store_column, (app, now), column),
        old(app).store.featured == Some(feed),
        feed.top_sellers@.len() <= usize::MAX,
    ensures
        column matches StoreColumn::Games { available, current } ==> offers(
            *old(app),
            feed.top_sellers@,
            available@,
        ) && available@.len() > 0 && current < available@.len(),
        column is Games <==> old(app).catalog.apps@.len() > 0 && exists|at: int|
            0 <= at < feed.top_sellers@.len() && old(app).catalog.ids@.contains(
                (#[trigger] feed.top_sellers@[at]).app_id,
            ),
        !(column is Waiting),
        final(app).store.search == old(app).store.search,
        final(app).catalog == old(app).catalog,
        final(app).page == old(app).page,
{
    the_offered_are_offered(*old(app), feed.top_sellers@);
    let offered = old(app).catalog.offered(feed.top_sellers@);
    if offered.len() > 0 {
        let at = offered[0] as int;
        assert(old(app).catalog.ids@.contains(feed.top_sellers@[at].app_id));
    }
    if exists|at: int|
        0 <= at < feed.top_sellers@.len() && old(app).catalog.ids@.contains(
            (#[trigger] feed.top_sellers@[at]).app_id,
        ) {
        let at = choose|at: int|
            0 <= at < feed.top_sellers@.len() && old(app).catalog.ids@.contains(
                (#[trigger] feed.top_sellers@[at]).app_id,
            );
        assert(offered.contains(at as usize));
    }
}

/// A shelf has every capsule that the catalog has, in the shelf's order, once the feed is there.
pub proof fn a_shelf_has_what_the_catalog_has(
    app: &DrydockApp,
    capsules: &Vec<StoreCapsule>,
    shelf: Shelf,
)
    requires
        call_ensures(DrydockApp::store_shelf, (app, capsules), shelf),
        capsules@.len() <= usize::MAX,
    ensures
        shelf matches Shelf::Rows(places) ==> app.store.featured is Some && offers(
            *app,
            capsules@,
            places@,
        ),
        shelf is Waiting <==> app.store.featured is None,
        app.store.featured is Some && (exists|at: int|
            0 <= at < capsules@.len() && app.catalog.ids@.contains(
                (#[trigger] capsules@[at]).app_id,
            )) ==> shelf is Rows,
{
    the_offered_are_offered(*app, capsules@);
    if exists|at: int|
        0 <= at < capsules@.len() && app.catalog.ids@.contains((#[trigger] capsules@[at]).app_id) {
        let at = choose|at: int|
            0 <= at < capsules@.len() && app.catalog.ids@.contains(
                (#[trigger] capsules@[at]).app_id,
            );
        assert(app.catalog.offered(capsules@).contains(at as usize));
    }
}

/// The new releases are those of the feed that the catalog has.
pub proof fn the_new_releases_are_offered(app: &DrydockApp, places: Vec<usize>)
    requires
        call_ensures(DrydockApp::new_releases, (app,), places),
    ensures
        app.store.featured is None ==> places@.len() == 0,
        app.store.featured matches Some(feed) ==> feed.new_releases@.len() <= usize::MAX ==> offers(
            *app,
            feed.new_releases@,
            places@,
        ),
{
    if let Some(feed) = app.store.featured {
        if feed.new_releases@.len() <= usize::MAX {
            the_offered_are_offered(*app, feed.new_releases@);
        }
    }
}

/// The full list that was opened is the one that is shown: the new releases under their own section,
/// the top sellers under the others.
pub proof fn the_opened_section_is_shown(
    app: &mut DrydockApp,
    section: SeeAllSection,
    after: &DrydockApp,
    page: SeeAll,
    feed: StoreFeatured,
)
    requires
        call_ensures(DrydockApp::open_see_all, (app, section), ()),
        *after == *final(app),
        call_ensures(DrydockApp::home_see_all_page, (after,), page),
        old(app).store.featured == Some(feed),
        feed.new_releases@.len() <= usize::MAX,
        feed.top_sellers@.len() <= usize::MAX,
    ensures
        final(app).page == Page::SeeAll,
        final(app).store.search == old(app).store.search,
        page matches SeeAll::Games { title, headline, places } ==> {
            &&& offers(
                *old(app),
                if section == SeeAllSection::NewReleases {
                    feed.new_releases@
                } else {
                    feed.top_sellers@
                },
                places@,
            )
            &&& places@.len() > 0
            &&& headline@ == decimal_text(places@.len()) + " games available in Drydock"@
            &&& section == SeeAllSection::NewReleases ==> title@ == "New Releases"@
            &&& section == SeeAllSection::TopPicks ==> title@ == "Top Picks For You"@
            &&& section == SeeAllSection::Featured ==> title@ == "Featured Games"@
        },
        !(page is Waiting),
        page is Nothing ==> forall|at: int|
            0 <= at < feed.top_sellers@.len() && section != SeeAllSection::NewReleases
                ==> !old(app).catalog.ids@.contains((#[trigger] feed.top_sellers@[at]).app_id),
        page is Nothing ==> forall|at: int|
            0 <= at < feed.new_releases@.len() && section == SeeAllSection::NewReleases
                ==> !old(app).catalog.ids@.contains((#[trigger] feed.new_releases@[at]).app_id),
{
    the_offered_are_offered(*old(app), feed.top_sellers@);
    the_offered_are_offered(*old(app), feed.new_releases@);
}

/// A game that can be activated is activated from its capsule, any other is looked at: the same in
/// the banner as in a row, and always for the capsule's own app.
pub proof fn a_capsule_leads_to_its_app(
    capsule: &StoreCapsule,
    activatable: bool,
    banner: (&'static str, StoreAction),
    row: (&'static str, &'static str, StoreAction),
)
    requires
        call_ensures(StoreCapsule::store_banner, (capsule, activatable), banner),
        call_ensures(StoreCapsule::store_list_row, (capsule, activatable), row),
    ensures
        activatable ==> banner.1 == StoreAction::Activate(capsule.app_id),
        !activatable ==> banner.1 == StoreAction::Details(capsule.app_id),
        row.2 == banner.1,
{
}

/// A discount is shown where there is one, with its percentage.
pub proof fn a_discount_is_shown(capsule: &StoreCapsule, text: Option<String>, number: String)
    requires
        call_ensures(StoreCapsule::discount, (capsule,), text),
        call_ensures(decimal, (capsule.discount_percent as u64,), number),
    ensures
        text is Some <==> capsule.discount_percent > 0,
        text matches Some(text) ==> text@ == "-"@ + number@ + "%"@,
{
}

/// Only a picture with a secure address is loaded.
pub proof fn only_secure_pictures_are_loaded(url: &str, usable: bool)
    requires
        call_ensures(picture_is_usable, (url,), usable),
    ensures
        usable <==> exists|rest: Seq<char>| url@ == #[trigger] ("https://"@ + rest),
{
    if usable {
        assert(url@ =~= "https://"@ + url@.skip("https://"@.len() as int));
    }
    if exists|rest: Seq<char>| url@ == #[trigger] ("https://"@ + rest) {
        let rest = choose|rest: Seq<char>| url@ == #[trigger] ("https://"@ + rest);
        assert("https://"@.is_prefix_of("https://"@ + rest));
    }
}

} // verus!
