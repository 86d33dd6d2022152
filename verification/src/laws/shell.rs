//! What the frame around the pages promises.
use crate::catalog::{first_kept, kept_places_ascend};
use crate::laws::store::{a_kept_place_is_listed_or_the_list_is_full, has_or_is_full};
use crate::laws::text::{
    a_part_is_found_wherever_it_stands, core_is_left, is_padding, is_tight, part_is_found,
};
use crate::shell::{
    game_search_box, is_match, note_page, picture_step, NotePill, PictureLoad, PictureStep, RemovalWindow,
    SidebarLink, SidebarSection, SEARCH_BOX_LIMIT,
};
use crate::state::{DrydockApp, SteamServiceState};
use crate::text::{decimal, decimal_text, lowercase, trimmed};
use crate::types::{CatalogApp, Notification, Page, Tone};
use std::collections::HashSet;
use vstd::prelude::*;

verus! {

broadcast use vstd::std_specs::hash::group_hash_axioms;

/// A notification of a list says a text in a tone.
pub open spec fn tells(notes: Seq<Notification>, tone: Tone, title: Seq<char>) -> bool {
    exists|i: int| 0 <= i < notes.len() && (#[trigger] notes[i]).accent == tone && notes[i].title@ == title
}

/// The models of a list of notifications, one by one.
proof fn notes_are_modelled(notes: Seq<Notification>)
    ensures
        crate::shell::note_models(notes).len() == notes.len(),
        forall|i: int|
            0 <= i < notes.len() ==> (#[trigger] crate::shell::note_models(notes)[i]).0
                == notes[i].accent && crate::shell::note_models(notes)[i].1 == notes[i].title@
                && crate::shell::note_models(notes)[i].2 == notes[i].detail@,
{
}

/// A Steam that is not found is the first thing that is told, and is told only then.
pub proof fn a_missing_steam_is_told_first(app: &DrydockApp, notes: Vec<Notification>)
    requires
        call_ensures(DrydockApp::collect_notifications, (app,), notes),
    ensures
        app.steam.root is None ==> notes@.len() > 0 && notes@[0].accent == Tone::Danger
            && notes@[0].title@ == "Steam not found"@,
{
    notes_are_modelled(notes@);
    assert(app.steam.root is None ==> app.notes()[0].1 == "Steam not found"@ && app.notes()[0].0
        == Tone::Danger);
}

/// Each program that conflicts with the service is told of as a danger, under its name.
pub proof fn every_conflict_is_told(app: &DrydockApp, notes: Vec<Notification>, i: int)
    requires
        call_ensures(DrydockApp::collect_notifications, (app,), notes),
        0 <= i < app.steam.conflicts@.len(),
    ensures
        tells(notes@, Tone::Danger, app.steam.conflicts@[i]@),
{
    notes_are_modelled(notes@);
    let before = crate::shell::steam_notes(app.steam.root) + crate::shell::service_problems(
        app.steam.service_status,
    );
    let at = before.len() + i;
    let told = crate::shell::conflict_notes(app.steam.conflicts@);
    assert(told[i] == crate::shell::conflict_note(app.steam.conflicts@[i]@));
    assert((before + told)[at] == told[i]);
    assert(app.notes()[at] == told[i]);
    assert(notes@[at].accent == Tone::Danger && notes@[at].title@ == app.steam.conflicts@[i]@);
}

/// What the status line says last is told without the space around it, as a danger where it is an
/// error. A blank line is not told.
pub proof fn the_last_activity_is_told(
    app: &DrydockApp,
    notes: Vec<Notification>,
    a: Seq<char>,
    core: Seq<char>,
    b: Seq<char>,
)
    requires
        call_ensures(DrydockApp::collect_notifications, (app,), notes),
        app.line.text@ == a + core + b,
        trimmed(a + core + b) == core,
        core.len() > 0,
    ensures
        tells(
            notes@,
            if app.line.error {
                Tone::Danger
            } else {
                Tone::Accent
            },
            core,
        ),
{
    notes_are_modelled(notes@);
    let before = crate::shell::steam_notes(app.steam.root) + crate::shell::service_problems(
        app.steam.service_status,
    ) + crate::shell::conflict_notes(app.steam.conflicts@);
    let at = before.len() as int;
    let told = crate::shell::activity_notes(app.line.text@, app.line.error);
    assert((before + told)[at] == told[0]);
    assert(app.notes()[at] == told[0]);
    assert(notes@[at].title@ == core);
}

/// A service that is ready is told last, and never beside a problem of it.
pub proof fn a_ready_service_is_told_last(app: &DrydockApp, notes: Vec<Notification>)
    requires
        call_ensures(DrydockApp::collect_notifications, (app,), notes),
        app.steam.service_status is Some,
    ensures
        app.steam.service_status->0.state == SteamServiceState::Current ==> notes@.len() > 0
            && notes@.last().title@ == "Steam Service ready"@ && notes@.last().accent
            == Tone::AccentSoft,
        app.steam.service_status->0.state == SteamServiceState::NotInstalled ==> tells(
            notes@,
            Tone::Amber,
            "Steam Service not installed"@,
        ),
        app.steam.service_status->0.state == SteamServiceState::UpdateAvailable ==> tells(
            notes@,
            Tone::Amber,
            "Steam Service out of date"@,
        ),
        app.steam.service_status->0.state == SteamServiceState::Error ==> exists|i: int|
            0 <= i < notes@.len() && (#[trigger] notes@[i]).title@ == "Steam Service problem"@
                && notes@[i].accent == Tone::Danger && notes@[i].detail@
                == app.steam.service_status->0.message@,
{
    notes_are_modelled(notes@);
    let first = crate::shell::steam_notes(app.steam.root);
    let problems = crate::shell::service_problems(app.steam.service_status);
    let at = first.len() as int;
    if problems.len() > 0 {
        assert((first + problems)[at] == problems[0]);
        assert(app.notes()[at] == problems[0]);
        assert(notes@[at].title@ == problems[0].1 && notes@[at].accent == problems[0].0);
    } else {
        let last = crate::shell::service_notes(app.steam.service_status, app.steam_jobs.service);
        assert(app.notes().last() == last[0]);
        assert(notes@.last().title@ == last[0].1);
    }
}

/// The pill of the status bar is there where something is told: it has the first notification's
/// tone, and counts the others.
pub proof fn the_pill_shows_the_first_notification(
    app: &DrydockApp,
    notes: Vec<Notification>,
    pill: Option<NotePill>,
    count: String,
)
    requires
        call_ensures(DrydockApp::collect_notifications, (app,), notes),
        call_ensures(DrydockApp::status_bar, (app,), pill),
        call_ensures(DrydockApp::notification_count, (app,), count),
    ensures
        pill is Some <==> notes@.len() > 0,
        pill matches Some(pill) ==> {
            &&& pill.accent == notes@[0].accent
            &&& notes@[0].title@.len() <= 45 ==> pill.title@ == notes@[0].title@
            &&& pill.title@.len() <= 45
            &&& notes@.len() == 1 ==> pill.more@.len() == 0
            &&& notes@.len() > 1 ==> pill.more@ == "  +"@ + decimal_text(
                (notes@.len() - 1) as nat,
            ) + " more"@
        },
        count@ == decimal_text(notes@.len()) + " active"@,
{
    notes_are_modelled(notes@);
    if notes@.len() > 0 {
        crate::helpers::ellipsized_text_fits(notes@[0].title@, 45);
    }
}

/// A click on a notification of the service, or of a Steam that is missing, leads to the settings;
/// on one of a download to the downloads.
pub proof fn notifications_lead_to_their_page(
    note: &Notification,
    a: Seq<char>,
    b: Seq<char>,
    page: Option<Page>,
)
    requires
        call_ensures(note_page, (note,), page),
    ensures
        note.title@ == a + "Steam Service"@ + b ==> page == Some(Page::Settings),
        note.title@ == a + "Steam not found"@ + b ==> page == Some(Page::Settings),
        page is None ==> note.title@ != a + "Download"@ + b,
{
    if note.title@ == a + "Steam Service"@ + b {
        part_is_found(a, "Steam Service"@, b);
    }
    if note.title@ == a + "Steam not found"@ + b {
        part_is_found(a, "Steam not found"@, b);
    }
    if note.title@ == a + "Download"@ + b {
        part_is_found(a, "Download"@, b);
    }
}

/// Opening a page from a notification closes the list; a second click on the bell undoes the first.
pub proof fn the_list_opens_and_closes(
    app: &mut DrydockApp,
    again: &mut DrydockApp,
    page: Page,
    opened: &mut DrydockApp,
)
    requires
        call_ensures(DrydockApp::toggle_notifications, (app,), ()),
        *old(again) == *final(app),
        call_ensures(DrydockApp::toggle_notifications, (again,), ()),
        *old(opened) == *final(app),
        call_ensures(DrydockApp::open_from_notification, (opened, page), ()),
    ensures
        final(app).notifications_open != old(app).notifications_open,
        final(again).notifications_open == old(app).notifications_open,
        final(app).page == old(app).page,
        final(opened).page == page,
        !final(opened).notifications_open,
        final(opened).settings == old(app).settings,
{
}

/// Each link of the sidebar is active on its own page and on no page of another link; the store's
/// link is active on the full list too.
pub proof fn one_link_is_active(
    app: &DrydockApp,
    section: SidebarSection,
    links: [SidebarLink; 3],
    i: int,
    j: int,
)
    requires
        call_ensures(DrydockApp::sidebar_nav, (app, section), links),
        0 <= i < 3,
        0 <= j < 3,
    ensures
        links@[i].page == app.page ==> links@[i].active,
        links@[i].active ==> links@[i].page == app.page || app.page == Page::SeeAll,
        app.page == Page::SeeAll && links@[i].active ==> links@[i].page == Page::Home,
        app.page == Page::SeeAll && links@[i].page == Page::Home ==> links@[i].active,
        links@[i].page == links@[j].page ==> i == j,
{
}

/// The sidebar tells of downloads that run, are paused or wait; a running one before the others.
pub proof fn the_sidebar_tells_of_downloads(
    app: &DrydockApp,
    running: bool,
    links: [SidebarLink; 3],
    label: (&'static str, Tone),
)
    requires
        running <==> (app.downloads.job matches Some(job) && job.finished is None),
        call_ensures(DrydockApp::sidebar_nav, (app, SidebarSection::Storefront), links),
        call_ensures(DrydockApp::download_status_label, (app,), label),
    ensures
        links@[2].page == Page::Downloads,
        links@[2].badge is None <==> !running && !app.downloads.paused
            && app.settings.download_queue@.len() == 0,
        running ==> (links@[2].badge->0).0@ == "ACTIVE"@ && label.0@
            == "Downloads active"@,
        !running && app.downloads.paused ==> (links@[2].badge->0).0@ == "PAUSED"@
            && label.0@ == "Downloads paused"@,
        !running && !app.downloads.paused && app.settings.download_queue@.len() > 0
            ==> (links@[2].badge->0).0@ == "QUEUED"@ && label.0@ == "Downloads queued"@,
        links@[2].badge is Some ==> label.1 == (links@[2].badge->0).1,
{
}

/// The card tells whether Steam was found.
pub proof fn the_card_tells_of_steam(app: &DrydockApp, card: (&'static str, Tone))
    requires
        call_ensures(DrydockApp::steam_card, (app,), card),
    ensures
        app.steam.root is Some <==> card.1 == Tone::Verdigris,
        app.steam.root is Some ==> card.0@ == "Steam Connected"@,
        app.steam.root is None ==> card.0@ == "Steam Offline"@ && card.1 == Tone::Danger,
{
}

/// The window of a removal counts every file: those that it lists and those that it does not.
pub proof fn the_removal_counts_every_file(app: &DrydockApp, window: Option<RemovalWindow>)
    requires
        call_ensures(DrydockApp::crack_removal_window, (app,), window),
    ensures
        window is Some <==> app.activation.pending_crack is Some,
        window matches Some(window) ==> {
            let count = app.activation.pending_crack->0.files@.len();
            &&& window.listed <= count
            &&& window.more is None ==> window.listed == count
            &&& window.more matches Some(text) ==> window.listed == 14 && text@ == "…and "@
                + decimal_text((count - window.listed) as nat) + " more"@
            &&& window.headline@ == decimal_text(count)
                + " file(s)/folder(s) will be deleted from the game folder:"@
        },
{
}

/// A cancelled removal is forgotten, nothing else of the activation is, and the user is told.
pub proof fn a_cancelled_removal_is_forgotten(
    app: &mut DrydockApp,
    after: &DrydockApp,
    window: Option<RemovalWindow>,
)
    requires
        call_ensures(DrydockApp::cancel_crack_removal, (app,), ()),
        *after == *final(app),
        call_ensures(DrydockApp::crack_removal_window, (after,), window),
    ensures
        window is None,
        final(app).activation.root == old(app).activation.root,
        final(app).activation.path == old(app).activation.path,
        final(app).activation.request_code == old(app).activation.request_code,
        final(app).activation.response_code == old(app).activation.response_code,
        final(app).selected_app == old(app).selected_app,
        !final(app).line.error,
        final(app).line.text@.len() > 0 || final(app).line.text@
            == "Activation cancelled — crack files were not removed."@,
{
}

/// The window of a success names the app, and is gone once it was closed.
pub proof fn a_success_is_shown_until_closed(
    app: &mut DrydockApp,
    shown: Option<String>,
    after: &DrydockApp,
    gone: Option<String>,
)
    requires
        call_ensures(DrydockApp::entitlement_success_window, (&*old(app),), shown),
        call_ensures(DrydockApp::close_success_window, (app,), ()),
        *after == *final(app),
        call_ensures(DrydockApp::entitlement_success_window, (after,), gone),
    ensures
        shown is Some <==> old(app).activation.success_app is Some,
        old(app).activation.success_app matches Some(name) ==> exists|rest: Seq<char>|
            shown->0@ == #[trigger] (name@ + rest),
        gone is None,
        final(app).activation.request_code == old(app).activation.request_code,
{
    if old(app).activation.success_app is Some {
        assert(shown->0@ == old(app).activation.success_app->0@ + " entitlement verified!"@);
    }
}

/// A page is entered once: a second look finds it entered already.
pub proof fn a_page_is_entered_once(
    app: &mut DrydockApp,
    first: bool,
    again: &mut DrydockApp,
    second: bool,
)
    requires
        call_ensures(DrydockApp::enter_page, (app,), first),
        *old(again) == *final(app),
        call_ensures(DrydockApp::enter_page, (again,), second),
    ensures
        first <==> old(app).page != old(app).last_page,
        !second,
        final(app).page == old(app).page,
{
}

/// What keeps the user waiting is shown over the page, and nothing else is.
pub proof fn the_overlay_shows_what_is_waited_for(app: &DrydockApp, label: Option<String>)
    requires
        call_ensures(DrydockApp::busy_overlay, (app,), label),
    ensures
        label == app.line.busy,
{
}

/// A picture that is there is painted; one that failed gives way to the next source, and only the
/// last source is given up.
pub proof fn every_source_is_tried(load: PictureLoad, is_last: bool, step: PictureStep)
    requires
        call_ensures(picture_step, (load, is_last), step),
    ensures
        step == PictureStep::Paint <==> load == PictureLoad::Ready,
        step == PictureStep::Wait <==> load == PictureLoad::Pending,
        step == PictureStep::GiveUp <==> load == PictureLoad::Failed && is_last,
        step == PictureStep::TryNext <==> load == PictureLoad::Failed && !is_last,
{
}

/// The box that a game is searched in finds every game that is allowed and whose lowercased name or
/// number holds the query anywhere, unless it is full before it.
pub proof fn the_box_finds_any_part(
    search: &str,
    selected: Option<u32>,
    apps: &Vec<CatalogApp>,
    allow_empty: bool,
    allowed: Option<&HashSet<u32>>,
    places: Option<Vec<usize>>,
    before: Seq<char>,
    core: Seq<char>,
    after: Seq<char>,
    at: int,
    number: String,
    a: Seq<char>,
    b: Seq<char>,
)
    requires
        call_ensures(game_search_box, (search, selected, apps, allow_empty, allowed), places),
        apps@.len() <= usize::MAX,
        search@ == before + core + after,
        is_padding(before),
        is_padding(after),
        is_tight(core),
        0 <= at < apps@.len(),
        call_ensures(decimal, (apps@[at].app_id as u64,), number),
        lowercase(apps@[at].name@) == a + lowercase(core) + b || number@ == a + lowercase(core) + b,
        allowed matches Some(ids) ==> ids@.contains(apps@[at].app_id),
    ensures
        places matches Some(places) ==> has_or_is_full(places@, at, 100),
        allow_empty ==> places is Some,
        selected is None && lowercase(core).len() > 0 ==> places is Some,
        !allow_empty && lowercase(core).len() == 0 ==> places is None,
{
    core_is_left(before, core, after);
    let query = lowercase(core);
    part_is_found(a, query, b);
    let ids = match allowed {
        Some(set) => Some(set@),
        None => None,
    };
    let keep = |i: int| is_match(apps@[i], query, ids);
    assert(keep(at));
    a_kept_place_is_listed_or_the_list_is_full(apps@.len(), keep, SEARCH_BOX_LIMIT as nat, at);
}

/// Every game that the box lists is allowed and holds the query in its name or its number.
pub proof fn every_game_in_the_box_fits(
    search: &str,
    selected: Option<u32>,
    apps: &Vec<CatalogApp>,
    allow_empty: bool,
    allowed: Option<&HashSet<u32>>,
    places: Vec<usize>,
    before: Seq<char>,
    core: Seq<char>,
    after: Seq<char>,
    i: int,
    number: String,
)
    requires
        call_ensures(game_search_box, (search, selected, apps, allow_empty, allowed), Some(places)),
        apps@.len() <= usize::MAX,
        search@ == before + core + after,
        is_padding(before),
        is_padding(after),
        is_tight(core),
        0 <= i < places@.len(),
        places@[i] < apps@.len() ==> call_ensures(
            decimal,
            (apps@[places@[i] as int].app_id as u64,),
            number,
        ),
    ensures
        places@.len() <= 100,
        places@[i] < apps@.len(),
        allowed matches Some(ids) ==> ids@.contains(apps@[places@[i] as int].app_id),
        lowercase(core).len() > 0 ==> (exists|a: Seq<char>, b: Seq<char>|
            lowercase(apps@[places@[i] as int].name@) == #[trigger] (a + lowercase(core) + b)) || (
        exists|a: Seq<char>, b: Seq<char>| number@ == #[trigger] (a + lowercase(core) + b)),
        forall|j: int| 0 <= j < i ==> #[trigger] places@[j] < places@[i],
{
    core_is_left(before, core, after);
    let query = lowercase(core);
    let ids = match allowed {
        Some(set) => Some(set@),
        None => None,
    };
    let keep = |at: int| is_match(apps@[at], query, ids);
    kept_places_ascend(apps@.len(), keep, SEARCH_BOX_LIMIT as nat);
    let at = places@[i] as int;
    assert(first_kept(apps@.len(), keep, SEARCH_BOX_LIMIT as nat)[i] < apps@.len());
    assert(keep(at));
    a_part_is_found_wherever_it_stands(lowercase(apps@[at].name@), query);
    a_part_is_found_wherever_it_stands(number@, query);
}

/// The box with the name of the chosen game in it shows no list; with any other query it does.
pub proof fn the_box_rests_on_the_chosen_game(
    search: &str,
    app_id: u32,
    apps: &Vec<CatalogApp>,
    allowed: Option<&HashSet<u32>>,
    places: Option<Vec<usize>>,
    before: Seq<char>,
    core: Seq<char>,
    after: Seq<char>,
    m: int,
)
    requires
        call_ensures(game_search_box, (search, Some(app_id), apps, false, allowed), places),
        search@ == before + core + after,
        is_padding(before),
        is_padding(after),
        is_tight(core),
        0 <= m < apps@.len(),
        apps@[m].app_id == app_id,
        forall|k: int| 0 <= k < m ==> (#[trigger] apps@[k]).app_id != app_id,
        lowercase(core).len() > 0,
    ensures
        places is None <==> lowercase(core) == lowercase(apps@[m].name@),
{
    core_is_left(before, core, after);
    the_first_name_is_selected(apps@, app_id, m);
}

proof fn the_first_name_is_selected(apps: Seq<CatalogApp>, app_id: u32, m: int)
    requires
        0 <= m < apps.len(),
        apps[m].app_id == app_id,
        forall|k: int| 0 <= k < m ==> (#[trigger] apps[k]).app_id != app_id,
    ensures
        crate::shell::selected_name(apps, Some(app_id)) == Some(lowercase(apps[m].name@)),
    decreases m,
{
    if m > 0 {
        let rest = apps.drop_first();
        assert(apps[0].app_id != app_id);
        assert(rest[m - 1] == apps[m]);
        assert forall|k: int| 0 <= k < m - 1 implies (#[trigger] rest[k]).app_id != app_id by {
            assert(rest[k] == apps[k + 1]);
        }
        the_first_name_is_selected(rest, app_id, m - 1);
    }
}

} // verus!
