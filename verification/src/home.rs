//! The storefront: what it shows of the live feed and of the catalog, and how it is searched.
use crate::catalog::{first_kept, kept_places_ascend, Catalog};
use crate::helpers::{
    artwork, artwork_url, ellipsize, ellipsized, group_thousands, grouped_text,
};
use crate::order::{orders, sorted_order};
use crate::state::{DrydockApp, Part, StoreState};
use crate::text::{
    blank, cat2, cat3, cat4, decimal, decimal_text, is_blank, lowercase, starts_with, texts, trim,
    trimmed,
};
use crate::timing::{due, is_due, HERO_INTERVAL};
use crate::types::{
    CatalogApp, FixFilter, Page, RepackFilter, SeeAllSection, StoreAction, StoreCapsule,
};
use vstd::prelude::*;

verus! {

broadcast use vstd::std_specs::hash::group_hash_axioms;

/// How many games a long list shows at most.
pub const LIST_LIMIT: usize = 400;

/// How many search results are shown at most.
pub const RESULT_LIMIT: usize = 200;

/// How many games of the watch list the front page shows.
pub const WATCH_LIMIT: usize = 6;

/// How many pills the pager of the hero banner shows at most.
pub const PAGER_LIMIT: usize = 9;

/// The keys that concern the search bar.
#[derive(Clone, Copy, Debug, PartialEq, Eq, Structural)]
pub struct SearchKeys {
    /// Control or command, with K.
    pub shortcut: bool,
    pub slash: bool,
    pub escape: bool,
}

/// What the search bar does about a key.
#[derive(Clone, Copy, Debug, PartialEq, Eq, Structural)]
pub struct SearchStep {
    pub focus: bool,
    pub unfocus: bool,
}

/// How the live feed stands.
pub enum FeedStatus {
    Ready,
    Loading,
    /// It could not be had, in words.
    Unavailable(String),
    /// It has not been asked for.
    Silent,
}

/// What the front page shows in place of games.
pub enum StoreColumn {
    Waiting(FeedStatus),
    /// A sentence.
    Note(&'static str),
    /// The places of the top sellers in the feed that the catalog has, and which one is the hero.
    Games { available: Vec<usize>, current: usize },
}

/// A shelf of one category.
pub enum Shelf {
    Waiting(FeedStatus),
    Note(&'static str),
    /// The places of the capsules that the catalog has.
    Rows(Vec<usize>),
}

/// A list of games of the catalog.
pub enum GameList {
    /// Still loading, in words.
    Loading(&'static str),
    /// Nothing to list, in words.
    Nothing(&'static str),
    /// A sentence above, and the places of the games in the catalog.
    Games { headline: String, places: Vec<usize> },
}

/// The page of one section.
pub enum SeeAll {
    Waiting(FeedStatus),
    Nothing(&'static str),
    Games { title: &'static str, headline: String, places: Vec<usize> },
}

/// The pills of the pager.
#[derive(Clone, Copy, Debug, PartialEq, Eq, Structural)]
pub enum PagerPill {
    Current,
    /// There is more beyond it.
    Edge,
    Plain,
}

/// The first pill of the pager: a window that follows the current game.
pub open spec fn pager_start(total: int, current: int) -> int {
    let shown = if total < PAGER_LIMIT {
        total
    } else {
        PAGER_LIMIT as int
    };
    let half = shown / 2;
    if total <= shown || current <= half {
        0
    } else if current >= total - half {
        total - shown
    } else {
        current - half
    }
}

/// Where the pager ends.
pub open spec fn pager_end(total: int, current: int) -> int {
    let shown = if total < PAGER_LIMIT {
        total
    } else {
        PAGER_LIMIT as int
    };
    if pager_start(total, current) + shown < total {
        pager_start(total, current) + shown
    } else {
        total
    }
}

/// The window of the pager.
pub fn pager_window(total: usize, current: usize) -> (window: (usize, usize))
    requires
        current < total,
    ensures
        window.0 == pager_start(total as int, current as int),
        window.1 == pager_end(total as int, current as int),
{
    let shown: usize = if total < PAGER_LIMIT {
        total
    } else {
        PAGER_LIMIT
    };
    let half: usize = shown / 2;
    let start: usize = if total <= shown || current <= half {
        0
    } else if current >= total - half {
        total - shown
    } else {
        current - half
    };
    let end: usize = if start < total - shown {
        start + shown
    } else {
        total
    };
    (start, end)
}

/// The pager always shows the current game, stays within the games there are, and never has more
/// pills than it may.
pub proof fn pager_follows_the_hero(total: int, current: int)
    requires
        0 <= current < total,
    ensures
        0 <= pager_start(total, current) <= current < pager_end(total, current) <= total,
        pager_end(total, current) - pager_start(total, current) <= PAGER_LIMIT,
        total <= PAGER_LIMIT ==> pager_start(total, current) == 0 && pager_end(total, current)
            == total,
        total >= PAGER_LIMIT ==> pager_end(total, current) - pager_start(total, current)
            == PAGER_LIMIT,
{
}

/// What a pill of the pager looks like.
pub open spec fn pill_at(total: int, current: int, at: int) -> PagerPill {
    let start = pager_start(total, current);
    let end = pager_end(total, current);
    if at == current {
        PagerPill::Current
    } else if total > PAGER_LIMIT && ((at == start && start > 0) || (at == end - 1 && end < total)) {
        PagerPill::Edge
    } else {
        PagerPill::Plain
    }
}

/// What a pill of the pager looks like.
pub fn pager_pill(total: usize, current: usize, at: usize) -> (pill: PagerPill)
    requires
        current < total,
        pager_start(total as int, current as int) <= at < pager_end(total as int, current as int),
    ensures
        pill == pill_at(total as int, current as int, at as int),
{
    let (start, end) = pager_window(total, current);
    if at == current {
        PagerPill::Current
    } else if total > PAGER_LIMIT && ((at == start && start > 0) || (at == end - 1 && end < total)) {
        PagerPill::Edge
    } else {
        PagerPill::Plain
    }
}

/// The rows of posters, which show different ratings.
#[derive(Clone, Copy, Debug, PartialEq, Eq, Structural)]
pub enum PosterRow {
    Featured,
    TopPicks,
    NewReleases,
}

/// The ratings that a row of posters shows, one after the other.
pub open spec fn ratings(row: PosterRow) -> Seq<Seq<char>> {
    match row {
        PosterRow::Featured => seq![
            "9.8"@,
            "9.5"@,
            "9.2"@,
            "9.6"@,
            "9.0"@,
            "9.4"@,
            "8.9"@,
            "9.3"@,
            "8.7"@,
            "9.1"@,
        ],
        PosterRow::TopPicks => seq![
            "9.7"@,
            "9.1"@,
            "8.0"@,
            "7.7"@,
            "9.5"@,
            "9.3"@,
            "8.9"@,
            "9.2"@,
            "8.6"@,
            "9.4"@,
        ],
        PosterRow::NewReleases => seq![
            "8.8"@,
            "9.3"@,
            "9.0"@,
            "8.5"@,
            "9.2"@,
            "9.6"@,
            "8.7"@,
            "9.1"@,
            "8.4"@,
            "9.4"@,
        ],
    }
}

/// The rating that a poster shows.
pub fn poster_rating(row: PosterRow, at: usize) -> (rating: &'static str)
    ensures
        rating@ == ratings(row)[at as int % 10],
{
    let k: usize = at % 10;
    match row {
        PosterRow::Featured => match k {
            0 => "9.8",
            1 => "9.5",
            2 => "9.2",
            3 => "9.6",
            4 => "9.0",
            5 => "9.4",
            6 => "8.9",
            7 => "9.3",
            8 => "8.7",
            _ => "9.1",
        },
        PosterRow::TopPicks => match k {
            0 => "9.7",
            1 => "9.1",
            2 => "8.0",
            3 => "7.7",
            4 => "9.5",
            5 => "9.3",
            6 => "8.9",
            7 => "9.2",
            8 => "8.6",
            _ => "9.4",
        },
        PosterRow::NewReleases => match k {
            0 => "8.8",
            1 => "9.3",
            2 => "9.0",
            3 => "8.5",
            4 => "9.2",
            5 => "9.6",
            6 => "8.7",
            7 => "9.1",
            8 => "8.4",
            _ => "9.4",
        },
    }
}

/// The rating that a poster of a section's page shows, by its game and its column.
pub fn grid_rating(app_id: u32, column: usize) -> (rating: &'static str)
    ensures
        rating@ == ratings(PosterRow::Featured)[(app_id + column) % 10],
{
    let at: usize = (app_id % 10) as usize + column % 10;
    assert((app_id + column) % 10 == at as int % 10);
    poster_rating(PosterRow::Featured, at)
}

impl SeeAllSection {
    /// The section's name.
    pub fn title(self) -> (title: &'static str)
        ensures
            title@ == section_title(self),
    {
        match self {
            SeeAllSection::Featured => "Featured Games",
            SeeAllSection::TopPicks => "Top Picks For You",
            SeeAllSection::NewReleases => "New Releases",
        }
    }
}

/// The name of a section.
pub open spec fn section_title(section: SeeAllSection) -> Seq<char> {
    match section {
        SeeAllSection::Featured => "Featured Games"@,
        SeeAllSection::TopPicks => "Top Picks For You"@,
        SeeAllSection::NewReleases => "New Releases"@,
    }
}

impl StoreCapsule {
    /// The pictures to try for a poster, in order.
    pub fn poster_artwork(&self) -> (urls: [String; 3])
        ensures
            urls@[0]@ == artwork_url(self.app_id, "library_600x900.jpg"@),
            urls@[1]@ == artwork_url(self.app_id, "header.jpg"@),
            urls@[2] == self.header_image_url,
    {
        [
            artwork(self.app_id, "library_600x900.jpg"),
            artwork(self.app_id, "header.jpg"),
            self.header_image_url.clone(),
        ]
    }

    /// The pictures to try for a banner, in order.
    pub fn banner_artwork(&self) -> (urls: [String; 2])
        ensures
            urls@[0]@ == artwork_url(self.app_id, "library_hero.jpg"@),
            urls@[1] == self.header_image_url,
    {
        [artwork(self.app_id, "library_hero.jpg"), self.header_image_url.clone()]
    }

    /// The name as a poster shows it.
    pub fn poster_title(&self) -> (title: String)
        ensures
            title@ == ellipsized(self.name@, 20),
    {
        ellipsize(self.name.as_str(), 20)
    }

    /// The discount as the hero banner shows it, where there is one.
    pub fn discount(&self) -> (text: Option<String>)
        ensures
            text is Some <==> self.discount_percent > 0,
            text matches Some(text) ==> text@ == "-"@ + decimal_text(self.discount_percent as nat)
                + "%"@,
    {
        if self.discount_percent == 0 {
            return None;
        }
        let number = decimal(self.discount_percent as u64);
        Some(cat3("-", number.as_str(), "%"))
    }

    /// The main button of a banner: its label and what it asks for.
    pub fn store_banner(&self, activatable: bool) -> (button: (&'static str, StoreAction))
        ensures
            button.0@ == (if activatable {
                "▶ ACTIVATE IN DRYDOCK"@
            } else {
                "VIEW IN STORE"@
            }),
            button.1 == (if activatable {
                StoreAction::Activate(self.app_id)
            } else {
                StoreAction::Details(self.app_id)
            }),
    {
        if activatable {
            ("▶ ACTIVATE IN DRYDOCK", StoreAction::Activate(self.app_id))
        } else {
            ("VIEW IN STORE", StoreAction::Details(self.app_id))
        }
    }

    /// A row of a shelf: the line below the name, the label of its button and what that asks for.
    pub fn store_list_row(&self, activatable: bool) -> (row: (&'static str, &'static str, StoreAction))
        ensures
            activatable ==> row.0@ == "Activatable in Drydock"@ && row.1@ == "ACTIVATE"@ && row.2
                == StoreAction::Activate(self.app_id),
            !activatable ==> row.0@ == ""@ && row.1@ == "VIEW"@ && row.2 == StoreAction::Details(
                self.app_id,
            ),
    {
        if activatable {
            ("Activatable in Drydock", "ACTIVATE", StoreAction::Activate(self.app_id))
        } else {
            ("", "VIEW", StoreAction::Details(self.app_id))
        }
    }
}

/// Whether a given picture is tried before the usual ones: only where it is a web address.
pub fn picture_is_usable(url: &str) -> (usable: bool)
    ensures
        usable == "https://"@.is_prefix_of(url@),
{
    starts_with(url, "https://")
}

/// The rank of the hero banner's game.
pub fn rank_label(current: usize) -> (label: String)
    requires
        current < usize::MAX,
    ensures
        label@ == "#"@ + decimal_text((current + 1) as nat) + " TOP SELLER"@,
{
    let number = decimal((current + 1) as u64);
    cat3("#", number.as_str(), " TOP SELLER")
}

/// The next game after `index`, round and round.
pub open spec fn hero_after(index: nat, count: nat) -> nat {
    (index + 1) % count
}

fn next_hero(index: usize, count: usize) -> (next: usize)
    requires
        count > 0,
    ensures
        next == hero_after(index as nat, count as nat),
{
    let at: usize = index % count;
    proof {
        vstd::arithmetic::div_mod::lemma_mod_add_multiples_vanish(
            index as int % count as int + 1,
            count as int,
        );
        vstd::arithmetic::div_mod::lemma_add_mod_noop(index as int, 1, count as int);
        vstd::arithmetic::div_mod::lemma_add_mod_noop(at as int, 1, count as int);
        vstd::arithmetic::div_mod::lemma_mod_twice(index as int, count as int);
    }
    if at + 1 == count {
        proof {
            vstd::arithmetic::div_mod::lemma_mod_self_0(count as int);
        }
        0
    } else {
        proof {
            vstd::arithmetic::div_mod::lemma_small_mod((at + 1) as nat, count as nat);
        }
        at + 1
    }
}

impl StoreState {
    /// What the search bar does about a key: the shortcuts give it the focus, the slash only where
    /// nothing is being typed, and escape clears and leaves it.
    pub fn home_search_bar(&mut self, focused: bool, keys: SearchKeys) -> (step: SearchStep)
        ensures
            step.focus == (keys.shortcut || (keys.slash && !focused && blank(old(self).search@))),
            step.unfocus == (keys.escape && (focused || !blank(old(self).search@))),
            keys.escape && !blank(old(self).search@) ==> final(self).search@
                == Seq::<char>::empty() && *final(self) == (StoreState {
                search: final(self).search,
                ..*old(self)
            }),
            !(keys.escape && !blank(old(self).search@)) ==> *final(self) == *old(self),
    {
        let searching = !is_blank(self.search.as_str());
        let focus = keys.shortcut || (keys.slash && !focused && !searching);
        let unfocus = keys.escape && (focused || searching);
        if keys.escape && searching {
            self.search = String::new();
        }
        SearchStep { focus, unfocus }
    }

    /// Empties the search.
    pub fn clear_search(&mut self)
        ensures
            *final(self) == (StoreState { search: final(self).search, ..*old(self) }),
            final(self).search@ == Seq::<char>::empty(),
    {
        self.search = String::new();
    }

    /// Whether the front page shows search results rather than the storefront.
    pub fn home_page(&self) -> (results: bool)
        ensures
            results == !blank(self.search@),
    {
        !is_blank(self.search.as_str())
    }

    /// Whether `status` is how the feed stands.
    pub open spec fn feed_is(&self, status: FeedStatus) -> bool {
        if self.featured is Some {
            status is Ready
        } else if self.featured_loading {
            status is Loading
        } else {
            match self.featured_error {
                Some(error) => status matches FeedStatus::Unavailable(text) && text@
                    == "Steam storefront is unavailable: "@ + error@,
                None => status is Silent,
            }
        }
    }

    /// How the live feed stands.
    pub fn store_feed_status(&self) -> (status: FeedStatus)
        ensures
            self.feed_is(status),
    {
        if self.featured.is_some() {
            return FeedStatus::Ready;
        }
        if self.featured_loading {
            return FeedStatus::Loading;
        }
        match &self.featured_error {
            Some(error) => FeedStatus::Unavailable(
                cat2("Steam storefront is unavailable: ", error.as_str()),
            ),
            None => FeedStatus::Silent,
        }
    }

    /// This storefront with another hero, from now on.
    pub open spec fn with_hero(&self, index: nat, now: u128) -> StoreState {
        StoreState {
            hero_carousel_index: index as usize,
            hero_last_scroll: Some(now),
            ..*self
        }
    }

    /// Moves on to the next hero once the present one has been shown long enough, and tells which
    /// one it is.
    pub fn advance_hero(&mut self, count: usize, now: u128) -> (current: usize)
        requires
            count > 0,
        ensures
            ({
                let moved = is_due(old(self).hero_last_scroll, now, HERO_INTERVAL);
                &&& !moved ==> *final(self) == *old(self)
                &&& moved ==> *final(self) == old(self).with_hero(
                    hero_after(old(self).hero_carousel_index as nat, count as nat),
                    now,
                )
            }),
            current == final(self).hero_carousel_index as nat % count as nat,
            current < count,
    {
        if due(self.hero_last_scroll, now, HERO_INTERVAL) {
            self.hero_carousel_index = next_hero(self.hero_carousel_index, count);
            self.hero_last_scroll = Some(now);
        }
        self.hero_carousel_index % count
    }

    /// Moves on to the next hero.
    pub fn show_next_hero(&mut self, count: usize, now: u128)
        requires
            count > 0,
        ensures
            *final(self) == old(self).with_hero(
                hero_after(old(self).hero_carousel_index as nat, count as nat),
                now,
            ),
    {
        self.hero_carousel_index = next_hero(self.hero_carousel_index, count);
        self.hero_last_scroll = Some(now);
    }

    /// Goes back to the hero before.
    pub fn show_previous_hero(&mut self, count: usize, now: u128)
        requires
            count > 0,
        ensures
            *final(self) == old(self).with_hero(
                if old(self).hero_carousel_index == 0 {
                    (count - 1) as nat
                } else {
                    (old(self).hero_carousel_index - 1) as nat
                },
                now,
            ),
    {
        self.hero_carousel_index = if self.hero_carousel_index == 0 {
            count - 1
        } else {
            self.hero_carousel_index - 1
        };
        self.hero_last_scroll = Some(now);
    }

    /// Shows a given hero.
    pub fn show_hero(&mut self, index: usize, now: u128)
        ensures
            *final(self) == old(self).with_hero(index as nat, now),
    {
        self.hero_carousel_index = index;
        self.hero_last_scroll = Some(now);
    }
}

/// Going to the next hero and back again shows the same one.
pub proof fn next_and_previous_hero_undo_each_other(index: nat, count: nat)
    requires
        index < count,
    ensures
        (if hero_after(index, count) == 0 {
            (count - 1) as nat
        } else {
            (hero_after(index, count) - 1) as nat
        }) == index,
        hero_after(
            if index == 0 {
                (count - 1) as nat
            } else {
                (index - 1) as nat
            },
            count,
        ) == index,
{
    if index + 1 == count {
        vstd::arithmetic::div_mod::lemma_mod_self_0(count as int);
    } else {
        vstd::arithmetic::div_mod::lemma_small_mod(index + 1, count);
    }
    if index == 0 {
        vstd::arithmetic::div_mod::lemma_mod_self_0(count as int);
    } else {
        vstd::arithmetic::div_mod::lemma_small_mod(index, count);
    }
}

/// The lowercased names of the games at `places`.
pub open spec fn names_at(apps: Seq<CatalogApp>, places: Seq<usize>) -> Seq<Seq<char>> {
    places.map_values(|at: usize| lowercase(apps[at as int].name@))
}

/// Whether `list` is the first `limit` of `places`, by the lowercased names of their games.
pub open spec fn by_name(
    apps: Seq<CatalogApp>,
    places: Seq<usize>,
    limit: nat,
    list: Seq<usize>,
) -> bool {
    exists|order: Seq<usize>| #[trigger]
        orders(names_at(apps, places), order, 0, places.len() as int) && list == (if places.len()
            <= limit {
            order
        } else {
            order.take(limit as int)
        }).map_values(|k: usize| places[k as int])
}

impl Catalog {
    /// The first `limit` of some games, by name.
    fn sorted_by_name(&self, places: &Vec<usize>, limit: usize) -> (list: Vec<usize>)
        requires
            forall|i: int| 0 <= i < places@.len() ==> #[trigger] places@[i] < self.apps@.len(),
        ensures
            by_name(self.apps@, places@, limit as nat, list@),
    {
        let mut keys: Vec<String> = Vec::new();
        let mut i: usize = 0;
        while i < places.len()
            invariant
                i <= places@.len(),
                forall|k: int| 0 <= k < places@.len() ==> #[trigger] places@[k] < self.apps@.len(),
                keys@.len() == i,
                forall|k: int|
                    0 <= k < i ==> (#[trigger] keys@[k])@ == lowercase(
                        self.apps@[places@[k] as int].name@,
                    ),
            decreases places@.len() - i,
        {
            let key = self.apps[places[i]].name.as_str().to_lowercase();
            keys.push(key);
            i += 1;
        }
        assert(texts(keys@) =~= names_at(self.apps@, places@));
        let order = sorted_order(&keys);
        let mut list: Vec<usize> = Vec::new();
        let mut k: usize = 0;
        while k < order.len() && k < limit
            invariant
                k <= order@.len(),
                k <= limit,
                orders(names_at(self.apps@, places@), order@, 0, places@.len() as int),
                list@.len() == k,
                forall|m: int| 0 <= m < k ==> #[trigger] list@[m] == places@[order@[m] as int],
            decreases order@.len() - k,
        {
            list.push(places[order[k]]);
            k += 1;
        }
        assert(list@ =~= (if places@.len() <= limit {
            order@
        } else {
            order@.take(limit as int)
        }).map_values(|k: usize| places@[k as int]));
        list
    }

    /// The places of the games that the watch list has.
    pub open spec fn watched(&self, limit: nat) -> Seq<usize> {
        first_kept(
            self.apps@.len(),
            |at: int| self.denuvo_appids@.contains(self.apps@[at].app_id),
            limit,
        )
    }

    /// The places of the games that the repack table has an entry for.
    pub open spec fn repacked(&self) -> Seq<usize> {
        first_kept(
            self.apps@.len(),
            |at: int| self.repackers_by_app@.contains_key(self.apps@[at].app_id),
            self.apps@.len(),
        )
    }

    fn games_with_repacks(&self) -> (places: Vec<usize>)
        ensures
            places@ == self.repacked(),
    {
        let ghost keep = |at: int| self.repackers_by_app@.contains_key(self.apps@[at].app_id);
        let mut places: Vec<usize> = Vec::new();
        let mut i: usize = 0;
        while i < self.apps.len()
            invariant
                i <= self.apps@.len(),
                keep == (|at: int| self.repackers_by_app@.contains_key(self.apps@[at].app_id)),
                places@ == first_kept(i as nat, keep, self.apps@.len()),
                places@.len() <= i,
            decreases self.apps@.len() - i,
        {
            let kept = self.repackers_by_app.contains_key(&self.apps[i].app_id);
            assert(kept == keep(i as int));
            if kept {
                places.push(i);
            }
            i += 1;
        }
        places
    }

    /// The watch list as a page of its own: every game of the catalog on it, by name.
    pub fn store_denuvo_watch(&self) -> (list: GameList)
        ensures
            !self.denuvo_loaded ==> (list matches GameList::Loading(text) && text@
                == "Loading the Denuvo watch list…"@),
            self.denuvo_loaded ==> (list matches GameList::Games { headline, places } && {
                &&& headline@ == grouped_text(self.denuvo_appids@.len())
                    + " games currently ship with Denuvo — these are the titles Drydock activates."@
                &&& by_name(self.apps@, self.watched(self.apps@.len()), LIST_LIMIT as nat, places@)
            }),
    {
        if !self.denuvo_loaded {
            return GameList::Loading("Loading the Denuvo watch list…");
        }
        let count = group_thousands(self.denuvo_appids.len());
        let headline = cat2(
            count.as_str(),
            " games currently ship with Denuvo — these are the titles Drydock activates.",
        );
        let games = self.games_among(&self.denuvo_appids, self.apps.len());
        proof {
            kept_places_ascend(
                self.apps@.len(),
                |at: int| self.denuvo_appids@.contains(self.apps@[at].app_id),
                self.apps@.len(),
            );
        }
        let places = self.sorted_by_name(&games, LIST_LIMIT);
        GameList::Games { headline, places }
    }

    /// The games of the repack table as a page of its own, by name.
    pub fn store_repacks(&self) -> (list: GameList)
        ensures
            !self.repacks_loaded ==> (list matches GameList::Loading(text) && text@
                == "Loading the repack list…"@),
            self.repacks_loaded && self.repacked().len() == 0 ==> (list matches GameList::Nothing(
                text,
            ) && text@ == "No repacks available right now."@),
            self.repacks_loaded && self.repacked().len() > 0 ==> (list matches GameList::Games {
                headline,
                places,
            } && {
                &&& headline@ == grouped_text(self.repacked().len())
                    + " games have a repack download available."@
                &&& by_name(self.apps@, self.repacked(), LIST_LIMIT as nat, places@)
            }),
    {
        if !self.repacks_loaded {
            return GameList::Loading("Loading the repack list…");
        }
        let games = self.games_with_repacks();
        if games.len() == 0 {
            return GameList::Nothing("No repacks available right now.");
        }
        let total: usize = self.apps.len();
        proof {
            kept_places_ascend(
                total as nat,
                |at: int| self.repackers_by_app@.contains_key(self.apps@[at].app_id),
                self.apps@.len(),
            );
        }
        let count = group_thousands(games.len());
        let headline = cat2(count.as_str(), " games have a repack download available.");
        let places = self.sorted_by_name(&games, LIST_LIMIT);
        GameList::Games { headline, places }
    }

    /// The line above the watch list on the front page.
    pub fn watch_line(&self) -> (line: String)
        ensures
            line@ == decimal_text(self.repackers_by_app@.len()) + " repacks · "@ + decimal_text(
                self.denuvo_appids@.len(),
            ) + " with Denuvo"@,
    {
        let repacks = decimal(self.repackers_by_app.len() as u64);
        let watched = decimal(self.denuvo_appids.len() as u64);
        cat4(repacks.as_str(), " repacks · ", watched.as_str(), " with Denuvo")
    }

    /// The games of the watch list that the front page shows.
    pub fn watched_games(&self) -> (places: Vec<usize>)
        ensures
            places@ == self.watched(WATCH_LIMIT as nat),
    {
        self.games_among(&self.denuvo_appids, WATCH_LIMIT)
    }

    /// Whether a filter is on.
    pub fn filters_active(&self) -> (active: bool)
        ensures
            active == !(self.repack_filter is Any && self.fix_filter == FixFilter::Any),
    {
        let any_repack = match &self.repack_filter {
            RepackFilter::Any => true,
            _ => false,
        };
        !(any_repack && self.fix_filter == FixFilter::Any)
    }

    /// Switches the filters off.
    pub fn clear_filters(&mut self)
        ensures
            *final(self) == (Catalog {
                repack_filter: RepackFilter::Any,
                fix_filter: FixFilter::Any,
                ..*old(self)
            }),
            old(self).wf() ==> final(self).wf(),
    {
        proof {
            reveal(Catalog::wf);
        }
        self.repack_filter = RepackFilter::Any;
        self.fix_filter = FixFilter::Any;
    }

    /// Restricts the results to games with a repack, or to those of one repacker.
    pub fn filter_repacks(&mut self, filter: RepackFilter)
        ensures
            *final(self) == (Catalog { repack_filter: filter, ..*old(self) }),
            old(self).wf() && (filter matches RepackFilter::Repacker(name) ==> texts(
                old(self).available_repackers@,
            ).contains(name@)) ==> final(self).wf(),
    {
        proof {
            reveal(Catalog::wf);
        }
        self.repack_filter = filter;
    }

    /// Restricts the results to games with a fix.
    pub fn filter_fixes(&mut self, filter: FixFilter)
        ensures
            *final(self) == (Catalog { fix_filter: filter, ..*old(self) }),
            old(self).wf() ==> final(self).wf(),
    {
        proof {
            reveal(Catalog::wf);
        }
        self.fix_filter = filter;
    }

    /// The places of the capsules whose game is in the catalog.
    pub open spec fn offered(&self, capsules: Seq<StoreCapsule>) -> Seq<usize> {
        first_kept(
            capsules.len(),
            |at: int| self.ids@.contains(capsules[at].app_id),
            capsules.len(),
        )
    }
}

impl DrydockApp {
    /// What the front page shows below its search bar. The hero moves on as time goes by.
    pub fn home_store_column(&mut self, now: u128) -> (column: StoreColumn)
        ensures
            old(self).keeps_all_but(set![Part::Store], *final(self)),
            old(self).store.featured is None ==> {
                &&& final(self).store == old(self).store
                &&& column matches StoreColumn::Waiting(status) && old(self).store.feed_is(status)
            },
            old(self).store.featured matches Some(feed) ==> {
                let offered = old(self).catalog.offered(feed.top_sellers@);
                if old(self).catalog.apps@.len() == 0 {
                    &&& final(self).store == old(self).store
                    &&& column matches StoreColumn::Note(text) && text@ == "Loading the game list…"@
                } else if offered.len() == 0 {
                    &&& final(self).store == old(self).store
                    &&& column matches StoreColumn::Note(text) && text@
                        == "None of Steam's top sellers are available in Drydock right now."@
                } else {
                    &&& column matches StoreColumn::Games { available, current }
                    &&& available@ == offered
                    &&& current == final(self).store.hero_carousel_index as nat % offered.len()
                    &&& current < offered.len()
                    &&& final(self).store == if is_due(
                        old(self).store.hero_last_scroll,
                        now,
                        HERO_INTERVAL,
                    ) {
                        old(self).store.with_hero(
                            hero_after(
                                old(self).store.hero_carousel_index as nat,
                                offered.len(),
                            ),
                            now,
                        )
                    } else {
                        old(self).store
                    }
                }
            },
    {
        let available = match &self.store.featured {
            None => {
                return StoreColumn::Waiting(self.store.store_feed_status());
            },
            Some(feed) => self.catalog.available(&feed.top_sellers),
        };
        if self.catalog.apps.len() == 0 {
            return StoreColumn::Note("Loading the game list…");
        }
        if available.len() == 0 {
            return StoreColumn::Note(
                "None of Steam's top sellers are available in Drydock right now.",
            );
        }
        let current = self.store.advance_hero(available.len(), now);
        StoreColumn::Games { available, current }
    }

    /// The new releases that the front page shows: those that the catalog has.
    pub fn new_releases(&self) -> (places: Vec<usize>)
        ensures
            places@ == (match self.store.featured {
                Some(feed) => self.catalog.offered(feed.new_releases@),
                None => Seq::empty(),
            }),
    {
        match &self.store.featured {
            Some(feed) => self.catalog.available(&feed.new_releases),
            None => Vec::new(),
        }
    }

    /// A shelf of one category.
    pub fn store_shelf(&self, capsules: &Vec<StoreCapsule>) -> (shelf: Shelf)
        ensures
            self.store.featured is None ==> (shelf matches Shelf::Waiting(status)
                && self.store.feed_is(status)),
            self.store.featured is Some && capsules@.len() == 0 ==> (shelf matches Shelf::Note(text)
                && text@ == "Nothing to show in this category right now."@),
            self.store.featured is Some && capsules@.len() > 0 && self.catalog.offered(
                capsules@,
            ).len() == 0 ==> (shelf matches Shelf::Note(text) && text@
                == "None of this category's games are available in Drydock right now."@),
            self.store.featured is Some && self.catalog.offered(capsules@).len() > 0 ==> (
            shelf matches Shelf::Rows(places) && places@ == self.catalog.offered(capsules@)),
    {
        if self.store.featured.is_none() {
            return Shelf::Waiting(self.store.store_feed_status());
        }
        let places = self.catalog.available(capsules);
        if capsules.len() == 0 {
            return Shelf::Note("Nothing to show in this category right now.");
        }
        if places.len() == 0 {
            return Shelf::Note(
                "None of this category's games are available in Drydock right now.",
            );
        }
        Shelf::Rows(places)
    }

    /// The places of the games that the search finds.
    pub open spec fn results(&self) -> Seq<usize> {
        let query = lowercase(trimmed(self.store.search@));
        first_kept(
            self.catalog.apps@.len(),
            |at: int| self.catalog.shows(at, query),
            RESULT_LIMIT as nat,
        )
    }

    /// The search results: a line above, and the places of the games in the catalog.
    pub fn store_search_results(&self) -> (results: (String, Vec<usize>))
        ensures
            results.1@ == self.results(),
            results.0@ == decimal_text(self.results().len()) + (if self.results().len() == 1 {
                " result"@
            } else {
                " results"@
            }),
    {
        let trimmed_search = trim(self.store.search.as_str());
        let query = trimmed_search.as_str().to_lowercase();
        let places = self.catalog.search(query.as_str(), RESULT_LIMIT);
        let count = decimal(places.len() as u64);
        let line = if places.len() == 1 {
            cat2(count.as_str(), " result")
        } else {
            cat2(count.as_str(), " results")
        };
        (line, places)
    }

    /// Opens the page of a section.
    pub fn open_see_all(&mut self, section: SeeAllSection)
        ensures
            old(self).keeps_all_but(set![Part::Store, Part::Page], *final(self)),
            final(self).page == Page::SeeAll,
            final(self).store == (StoreState {
                see_all_section: Some(section),
                ..old(self).store
            }),
    {
        self.store.see_all_section = Some(section);
        self.page = Page::SeeAll;
    }

    /// The section whose page is open.
    pub open spec fn open_section(&self) -> SeeAllSection {
        match self.store.see_all_section {
            Some(section) => section,
            None => SeeAllSection::Featured,
        }
    }

    /// The page of a section.
    pub fn home_see_all_page(&self) -> (page: SeeAll)
        ensures
            self.store.featured is None ==> (page matches SeeAll::Waiting(status)
                && self.store.feed_is(status)),
            self.store.featured matches Some(feed) ==> {
                let offered = self.catalog.offered(
                    if self.open_section() == SeeAllSection::NewReleases {
                        feed.new_releases@
                    } else {
                        feed.top_sellers@
                    },
                );
                if offered.len() == 0 {
                    page matches SeeAll::Nothing(text) && text@
                        == "No games available in this section right now."@
                } else {
                    page matches SeeAll::Games { title, headline, places } && {
                        &&& title@ == section_title(self.open_section())
                        &&& headline@ == decimal_text(offered.len())
                            + " games available in Drydock"@
                        &&& places@ == offered
                    }
                }
            },
    {
        let section = match self.store.see_all_section {
            Some(section) => section,
            None => SeeAllSection::Featured,
        };
        let places = match &self.store.featured {
            None => {
                return SeeAll::Waiting(self.store.store_feed_status());
            },
            Some(feed) => match section {
                SeeAllSection::NewReleases => self.catalog.available(&feed.new_releases),
                _ => self.catalog.available(&feed.top_sellers),
            },
        };
        if places.len() == 0 {
            return SeeAll::Nothing("No games available in this section right now.");
        }
        let count = decimal(places.len() as u64);
        let headline = cat2(count.as_str(), " games available in Drydock");
        SeeAll::Games { title: section.title(), headline, places }
    }
}

/// Every search result is a game of the catalog that passes the filters and is found by the query,
/// and there are never too many.
pub proof fn results_are_found_games(app: DrydockApp, i: int)
    requires
        app.catalog.apps@.len() <= usize::MAX,
        0 <= i < app.results().len(),
    ensures
        app.results().len() <= RESULT_LIMIT,
        app.results()[i] < app.catalog.apps@.len(),
        app.catalog.shows(app.results()[i] as int, lowercase(trimmed(app.store.search@))),
{
    let query = lowercase(trimmed(app.store.search@));
    kept_places_ascend(
        app.catalog.apps@.len(),
        |at: int| app.catalog.shows(at, query),
        RESULT_LIMIT as nat,
    );
    assert(app.results()[i] < app.catalog.apps@.len());
}

/// Everything that the storefront offers from the feed is a game of the catalog.
pub proof fn offered_games_are_in_the_catalog(
    catalog: Catalog,
    capsules: Seq<StoreCapsule>,
    i: int,
)
    requires
        capsules.len() <= usize::MAX,
        0 <= i < catalog.offered(capsules).len(),
    ensures
        catalog.offered(capsules)[i] < capsules.len(),
        catalog.ids@.contains(capsules[catalog.offered(capsules)[i] as int].app_id),
{
    kept_places_ascend(
        capsules.len(),
        |at: int| catalog.ids@.contains(capsules[at].app_id),
        capsules.len(),
    );
    assert(catalog.offered(capsules)[i] < capsules.len());
}

} // verus!
