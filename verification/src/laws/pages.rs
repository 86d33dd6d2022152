//! What the remaining pages promise: the library's posters and window, the guide, the tour, and the
//! words of the filters.
use crate::guide::{guide_stage, GuidePart, GuideStage, GuideView};
use crate::home::rank_label;
use crate::laws::messages::mentions;
use crate::library::{LibraryCounts, LibraryEntry, LibrarySource};
use crate::library_page::{genre_tags, AddGamePanel, InfoRow};
use crate::settings_page::{games_folder_note, steam_dir_note, verify_threads_label};
use crate::state::{DrydockApp, LibraryFilter, LibraryState, SteamDirValidation};
use crate::text::{decimal, decimal_text, texts};
use crate::types::{
    CatalogApp, FixFilter, GuideFlow, Notification, Page, RepackFilter, StoreTab, Tone,
};
use vstd::prelude::*;

verus! {

broadcast use vstd::std_specs::hash::group_hash_axioms;

/// A poster tells where its game comes from, the same in its mark and in its hint, and how large it
/// is where that is known.
pub proof fn a_poster_tells_where_its_game_is(
    entry: &LibraryEntry,
    status: (Tone, &'static str),
    hint: (String, Option<String>),
    size: String,
)
    requires
        call_ensures(LibraryEntry::poster_status, (entry,), status),
        call_ensures(LibraryEntry::poster_hint, (entry,), hint),
        entry.size_on_disk is Some ==> call_ensures(
            crate::helpers::human_bytes,
            (entry.size_on_disk->0,),
            size,
        ),
    ensures
        entry.source == LibrarySource::SteamInstalled ==> status.1@ == "INSTALLED"@,
        entry.source == LibrarySource::DrydockInstalled ==> status.1@ == "STANDALONE"@,
        entry.source == LibrarySource::Available ==> status.1@ == "AVAILABLE"@,
        hint.0@ == "● "@ + status.1@,
        hint.1 is Some <==> entry.size_on_disk is Some,
        hint.1 matches Some(text) ==> text@ == "Size: "@ + size@,
{
}

/// The window of a game tells whether it can be played.
pub proof fn the_window_tells_whether_it_plays(entry: &LibraryEntry, status: (&'static str, Tone))
    requires
        call_ensures(LibraryEntry::overview_status, (entry,), status),
    ensures
        entry.source == LibrarySource::SteamInstalled ==> status.0@ == "Installed via Steam"@,
        entry.source == LibrarySource::DrydockInstalled && entry.launch_path is Some ==> status.0@
            == "Installed via Drydock · Ready"@,
        entry.source == LibrarySource::DrydockInstalled && entry.launch_path is None ==> status.0@
            == "Installed · No launcher linked"@ && status.1 == Tone::Amber,
        entry.source == LibrarySource::Available ==> status.0@
            == "Unlock Active · Ready to Install"@,
{
}

/// The facts in the window are those of the entry: what it is launched by, how large it is where
/// that is known, and where it lies.
pub proof fn the_window_gives_the_facts(entry: &LibraryEntry, rows: Vec<InfoRow>, number: String)
    requires
        call_ensures(LibraryEntry::info, (entry,), rows),
        call_ensures(decimal, (entry.app_id as u64,), number),
    ensures
        rows@.len() == if entry.size_on_disk is Some {
            4nat
        } else {
            3nat
        },
        entry.launch_path matches Some(path) ==> rows@[1].value@ == path@,
        entry.launch_path is None && entry.source == LibrarySource::SteamInstalled
            ==> rows@[1].value@ == "steam://run/"@ + number@,
        entry.launch_path is None && entry.source != LibrarySource::SteamInstalled
            ==> rows@[1].value@ == "No launcher linked"@ && rows@[1].tone == Tone::Amber,
        entry.install_dir matches Some(folder) ==> rows@.last().value@ == folder@,
        entry.install_dir is None ==> rows@.last().value@ == "Not installed on local disk"@,
{
    let models = crate::library_page::rows_of(rows@);
    assert(models.len() == rows@.len());
    assert forall|i: int| 0 <= i < rows@.len() implies models[i] == (
        rows@[i].label@,
        rows@[i].value@,
        rows@[i].tone,
    ) by {}
    let all = crate::library_page::info_rows(*entry);
    assert(models[1] == all[1]);
    assert(models[rows@.len() - 1] == all[rows@.len() - 1]);
}

/// The tags of a game are the first five of its first entry that has any.
pub proof fn the_first_tags_are_shown(
    apps: &Vec<CatalogApp>,
    app_id: u32,
    tags: Vec<String>,
    m: int,
    k: int,
)
    requires
        call_ensures(genre_tags, (apps, app_id), tags),
        0 <= m < apps@.len(),
        apps@[m].app_id == app_id,
        apps@[m].tags@.len() > 0,
        forall|j: int|
            0 <= j < m ==> (#[trigger] apps@[j]).app_id != app_id || apps@[j].tags@.len() == 0,
    ensures
        tags@.len() <= 5,
        apps@[m].tags@.len() <= 5 ==> tags@.len() == apps@[m].tags@.len(),
        apps@[m].tags@.len() > 5 ==> tags@.len() == 5,
        0 <= k < tags@.len() ==> tags@[k]@ == apps@[m].tags@[k]@,
{
    the_first_entry_gives_the_tags(apps@, app_id, m);
    assert(texts(tags@).len() == tags@.len());
    let all = texts(apps@[m].tags@);
    assert(all.len() == apps@[m].tags@.len());
    if 0 <= k < tags@.len() {
        assert(texts(tags@)[k] == tags@[k]@);
        assert(all[k] == apps@[m].tags@[k]@);
    }
}

proof fn the_first_entry_gives_the_tags(apps: Seq<CatalogApp>, app_id: u32, m: int)
    requires
        0 <= m < apps.len(),
        apps[m].app_id == app_id,
        apps[m].tags@.len() > 0,
        forall|j: int|
            0 <= j < m ==> (#[trigger] apps[j]).app_id != app_id || apps[j].tags@.len() == 0,
    ensures
        crate::library_page::shown_tags(apps, app_id) == (if apps[m].tags@.len() <= 5 {
            texts(apps[m].tags@)
        } else {
            texts(apps[m].tags@).take(5)
        }),
    decreases m,
{
    if m > 0 {
        let rest = apps.drop_first();
        assert(apps[0].app_id != app_id || apps[0].tags@.len() == 0);
        assert(rest[m - 1] == apps[m]);
        assert forall|j: int| 0 <= j < m - 1 implies (#[trigger] rest[j]).app_id != app_id
            || rest[j].tags@.len() == 0 by {
            assert(rest[j] == apps[j + 1]);
        }
        the_first_entry_gives_the_tags(rest, app_id, m - 1);
    }
}

/// The panel for adding a game is there while a folder is chosen, with that folder.
pub proof fn the_panel_shows_the_chosen_folder(app: &DrydockApp, panel: Option<AddGamePanel>)
    requires
        call_ensures(DrydockApp::render_add_game_panel, (app,), panel),
    ensures
        panel is Some <==> app.library.add_game_folder is Some,
        panel matches Some(panel) ==> Some(panel.folder) == app.library.add_game_folder
            && panel.busy == app.side_jobs.add_game,
{
}

/// The counts stand on the filters and the pills as they are.
pub proof fn the_counts_are_shown(
    counts: &LibraryCounts,
    all: String,
    installed: String,
    available: String,
    pills: [(String, Tone); 3],
)
    requires
        call_ensures(LibraryCounts::filter_label, (counts, LibraryFilter::All), all),
        call_ensures(LibraryCounts::filter_label, (counts, LibraryFilter::Installed), installed),
        call_ensures(LibraryCounts::filter_label, (counts, LibraryFilter::Available), available),
        call_ensures(LibraryCounts::pills, (counts,), pills),
    ensures
        all@ == "All ("@ + decimal_text(counts.total as nat) + ")"@,
        installed@ == "Installed ("@ + decimal_text(counts.installed as nat) + ")"@,
        available@ == "Available ("@ + decimal_text(counts.available as nat) + ")"@,
        pills@[0].0@ == decimal_text(counts.installed as nat) + " INSTALLED"@,
        pills@[1].0@ == decimal_text(counts.available as nat) + " AVAILABLE"@,
        pills@[2].0@ == decimal_text(counts.total as nat) + " TOTAL"@,
{
}

/// A game that is opened is the one whose window is shown, as long as it is listed.
pub proof fn the_opened_game_is_shown(
    library: &mut LibraryState,
    app_id: u32,
    again: &mut LibraryState,
    entries: &Vec<LibraryEntry>,
    place: Option<usize>,
)
    requires
        call_ensures(LibraryState::open_game, (library, app_id), ()),
        *old(again) == *final(library),
        call_ensures(LibraryState::open_entry, (again, entries), place),
    ensures
        final(library).selected == Some(app_id),
        final(library).search == old(library).search,
        final(library).filter == old(library).filter,
        place matches Some(at) ==> at < entries@.len() && entries@[at as int].app_id == app_id
            && final(again).modal == Some(app_id),
        (exists|i: int| 0 <= i < entries@.len() && (#[trigger] entries@[i]).app_id == app_id)
            ==> place is Some,
        !(exists|i: int| 0 <= i < entries@.len() && (#[trigger] entries@[i]).app_id == app_id)
            ==> place is None && final(again).modal is None,
{
    if place is None {
        assert forall|i: int| 0 <= i < entries@.len() implies (#[trigger] entries@[i]).app_id
            != app_id by {
            if entries@[i].app_id == app_id {
                assert(crate::library::listed(entries@)[i].app_id == app_id);
                assert(crate::library::lists_app(crate::library::listed(entries@), app_id));
            }
        }
    }
}

/// The guide shows the walk that was chosen, and its button leads to the page that the walk is
/// about.
pub proof fn the_guide_leads_to_its_page(app: &mut DrydockApp, flow: GuideFlow, after: &DrydockApp, view: GuideView)
    requires
        call_ensures(DrydockApp::show_walkthrough, (app, flow), ()),
        *after == *final(app),
        call_ensures(DrydockApp::guide_page, (after,), view),
    ensures
        final(app).guide_flow == flow,
        final(app).page == old(app).page,
        flow == GuideFlow::Activation ==> view.target == Page::Activation,
        flow == GuideFlow::Fixes ==> view.target == Page::Tools,
{
}

/// The steps of a walk are numbered through its three stages: eight steps, the first of them one.
pub proof fn the_steps_are_numbered_through(
    flow: GuideFlow,
    first: GuideStage,
    second: GuideStage,
    third: GuideStage,
    i: int,
)
    requires
        call_ensures(guide_stage, (flow, GuidePart::First), first),
        call_ensures(guide_stage, (flow, GuidePart::Second), second),
        call_ensures(guide_stage, (flow, GuidePart::Third), third),
    ensures
        first.steps@.len() == 3,
        second.steps@.len() == 3,
        third.steps@.len() == 2,
        0 <= i < 3 ==> first.steps@[i].number == i + 1,
        0 <= i < 3 ==> second.steps@[i].number == i + 4,
        0 <= i < 2 ==> third.steps@[i].number == i + 7,
        first.title@ == "PREPARE"@,
        third.title@ == "PLAY"@,
        first.badge@ == "0"@ + decimal_text(1),
        second.badge@ == "0"@ + decimal_text(2),
        third.badge@ == "0"@ + decimal_text(3),
{
}

/// The tour leads to the page of its stop; a stop that is not known leads home. Nothing of the
/// settings is touched on it.
pub proof fn the_tour_leads_to_its_stop(app: &mut DrydockApp, key: &str, fetch: Option<u32>)
    requires
        call_ensures(DrydockApp::screenshot_goto, (app, key), fetch),
    ensures
        key@ == "library"@ ==> final(app).page == Page::Library,
        key@ == "tools"@ ==> final(app).page == Page::Tools,
        key@ == "cloud"@ ==> final(app).page == Page::Cloud,
        key@ == "activation"@ ==> final(app).page == Page::Activation,
        key@ == "updates"@ ==> final(app).page == Page::Updates,
        key@ == "settings"@ ==> final(app).page == Page::Settings,
        key@ == "downloads"@ ==> final(app).page == Page::Downloads,
        key@ == "guide"@ ==> final(app).page == Page::Guide && final(app).guide_flow
            == GuideFlow::Activation,
        key@ == "guide-fixes"@ ==> final(app).page == Page::Guide && final(app).guide_flow
            == GuideFlow::Fixes,
        key@ == "denuvo"@ ==> final(app).page == Page::Home && final(app).store.tab
            == StoreTab::DenuvoWatch,
        key@ == "repacks"@ ==> final(app).page == Page::Home && final(app).store.tab
            == StoreTab::Repacks,
        key@ == "add-game"@ ==> final(app).page == Page::Library
            && final(app).library.add_game_folder is Some,
        key@ == "details"@ ==> final(app).page == Page::Details,
        key@ != "details"@ ==> fetch is None,
        key@ == "home"@ ==> final(app).page == Page::Home,
        key@ == "details"@ && old(app).steam.manifests@.len() > 0 ==> fetch == Some(
            old(app).steam.manifests@[0].app_id,
        ) && final(app).details.app_id == fetch,
        key@ == "details"@ && old(app).steam.manifests@.len() == 0 && old(
            app).catalog.apps@.len() > 0 ==> fetch == Some(old(app).catalog.apps@[0].app_id)
            && final(app).details.app_id == fetch,
        key@ == "details"@ && old(app).steam.manifests@.len() == 0 && old(
            app).catalog.apps@.len() == 0 ==> fetch is None,
        final(app).settings == old(app).settings,
        final(app).catalog == old(app).catalog,
        final(app).activation == old(app).activation,
{
    reveal(crate::gallery::stop_of);
    reveal_strlit("library");
    reveal_strlit("tools");
    reveal_strlit("cloud");
    reveal_strlit("activation");
    reveal_strlit("updates");
    reveal_strlit("settings");
    reveal_strlit("downloads");
    reveal_strlit("guide");
    reveal_strlit("guide-fixes");
    reveal_strlit("denuvo");
    reveal_strlit("repacks");
    reveal_strlit("add-game");
    reveal_strlit("details");
    reveal_strlit("home");
    assert("library"@[0] == 'l');
    assert("tools"@[0] == 't');
    assert("cloud"@[0] == 'c');
    assert("activation"@[1] == 'c');
    assert("add-game"@[1] == 'd');
    assert("updates"@[0] == 'u');
    assert("settings"@[0] == 's');
    assert("downloads"@[1] == 'o');
    assert("details"@[2] == 't');
    assert("denuvo"@[2] == 'n');
    assert("repacks"@[0] == 'r');
    assert("guide"@.len() == 5);
    assert("guide-fixes"@.len() == 11);
    assert("guide"@[0] == 'g');
    assert("guide-fixes"@[0] == 'g');
    assert("home"@[0] == 'h');
}

/// The words of the filters are told apart.
pub proof fn filters_are_told_apart(
    any: String,
    repack: String,
    name: String,
    chosen: String,
    none: &'static str,
    fix: &'static str,
)
    requires
        call_ensures(RepackFilter::label, (&RepackFilter::Any,), any),
        call_ensures(RepackFilter::label, (&RepackFilter::AnyRepack,), repack),
        call_ensures(RepackFilter::label, (&RepackFilter::Repacker(name),), chosen),
        call_ensures(FixFilter::label, (FixFilter::Any,), none),
        call_ensures(FixFilter::label, (FixFilter::Denuvo,), fix),
    ensures
        any@ == "Any"@,
        repack@ == "All repacks"@,
        chosen@ == name@,
        none@ == "Any"@,
        fix@ == "Denuvo"@,
{
}

/// A note has the tone of its kind and the texts that it was made of.
pub proof fn a_note_has_its_tone(
    title: String,
    detail: String,
    error: Notification,
    warn: Notification,
    ok: Notification,
    info: Notification,
)
    requires
        call_ensures(Notification::error, (title, detail), error),
        call_ensures(Notification::warn, (title, detail), warn),
        call_ensures(Notification::ok, (title, detail), ok),
        call_ensures(Notification::info, (title, detail), info),
    ensures
        error.accent == Tone::Danger && warn.accent == Tone::Amber && ok.accent == Tone::AccentSoft
            && info.accent == Tone::Accent,
        error.title == title && warn.title == title && ok.title == title && info.title == title,
        error.detail == detail && warn.detail == detail && ok.detail == detail && info.detail
            == detail,
{
}

/// No two tones look alike.
pub proof fn tones_are_told_apart(a: Tone, b: Tone, one: (u8, u8, u8), other: (u8, u8, u8))
    requires
        call_ensures(Tone::rgb, (a,), one),
        call_ensures(Tone::rgb, (b,), other),
    ensures
        one == other <==> a == b,
{
}

/// The line under the Steam folder is good exactly where the folder is; under the games folder it
/// tells where the games go.
pub proof fn the_folders_are_judged(
    verdict: SteamDirValidation,
    note: (&'static str, Tone),
    draft: &str,
    is_folder: bool,
    library: Option<String>,
    games: (String, Tone),
    threads: u32,
    label: String,
    number: String,
)
    requires
        call_ensures(steam_dir_note, (verdict,), note),
        call_ensures(games_folder_note, (draft, is_folder, library), games),
        call_ensures(verify_threads_label, (threads,), label),
        call_ensures(decimal, (threads as u64,), number),
    ensures
        note.1 == Tone::Verdigris <==> verdict == SteamDirValidation::Valid,
        note.1 == Tone::Danger <==> verdict == SteamDirValidation::NotFound || verdict
            == SteamDirValidation::MissingExecutable,
        games.1 == Tone::Verdigris <==> !crate::laws::text::is_padding(draft@) && is_folder,
        games.1 == Tone::Amber <==> !crate::laws::text::is_padding(draft@) && !is_folder,
        crate::laws::text::is_padding(draft@) && library is Some ==> exists|start: Seq<char>|
            games.0@ == #[trigger] (start + library->0@),
        threads == 0 ==> label@ == "Auto"@,
        threads > 0 ==> label@ == number@,
{
    crate::text::blank_means_trimmed_away(draft@);
    if let Some(path) = library {
        if crate::text::blank(draft@) {
            assert(games.0@ == "Using Steam's library: "@ + path@);
        }
    }
}

/// The seller's rank counts from one.
pub proof fn ranks_count_from_one(current: usize, label: String)
    requires
        current < usize::MAX,
        call_ensures(rank_label, (current,), label),
    ensures
        mentions(label@, decimal_text((current + 1) as nat)),
        current == 0 ==> label@ == "#"@ + decimal_text(1) + " TOP SELLER"@,
{
    assert(label@ == "#"@ + decimal_text((current + 1) as nat) + " TOP SELLER"@);
}

/// A folder chosen for a Ubisoft game is kept, and the code of the folder before it is not.
pub proof fn another_ubisoft_folder_needs_another_code(app: &mut DrydockApp, folder: String)
    requires
        call_ensures(DrydockApp::choose_ubisoft_folder, (app, folder), ()),
    ensures
        final(app).activation.path == folder,
        final(app).activation.ubisoft_code@.len() == 0,
        final(app).activation.request_code == old(app).activation.request_code,
        final(app).selected_app == old(app).selected_app,
{
}

/// A game that is selected for activation is the one that is activated: its folder is that of its
/// first manifest, and no code of the game before stays.
pub proof fn a_selected_game_brings_its_folder(app: &mut DrydockApp, app_id: u32, m: int)
    requires
        call_ensures(DrydockApp::select_activation_game, (app, app_id), ()),
        0 <= m < old(app).steam.manifests@.len(),
        old(app).steam.manifests@[m].app_id == app_id,
        forall|k: int| 0 <= k < m ==> (#[trigger] old(app).steam.manifests@[k]).app_id != app_id,
    ensures
        final(app).selected_app == Some(app_id),
        final(app).activation.path@ == old(app).steam.manifests@[m].install_dir@,
        final(app).activation.root is None,
        final(app).activation.request_code@.len() == 0,
        final(app).settings == old(app).settings,
{
    let ids = crate::steam::manifest_ids(old(app).steam.manifests@);
    assert(ids[m] == app_id);
    assert(ids.contains(app_id));
    assert forall|k: int| 0 <= k < m implies ids[k] != app_id by {
        assert(old(app).steam.manifests@[k].app_id != app_id);
    }
    assert forall|i: int| #[trigger] crate::catalog::first_at(ids, app_id, i) implies i == m by {
        if i < m {
            assert(ids[i] != app_id);
        }
        if i > m {
            assert(ids[m] != app_id);
        }
    }
}

/// The status of the service is asked for once at a time, and from a page switch at most every
/// thirty seconds.
pub proof fn the_service_is_asked_now_and_then(
    app: &mut DrydockApp,
    now: u128,
    first: Option<String>,
    again: &mut DrydockApp,
    later: u128,
    second: Option<String>,
    other: &mut DrydockApp,
    asked: Option<String>,
)
    requires
        call_ensures(DrydockApp::recheck_service, (app, now), first),
        first is Some,
        now <= later,
        old(again).steam == final(app).steam,
        !old(again).steam_jobs.service,
        call_ensures(DrydockApp::recheck_service, (again, later), second),
        call_ensures(DrydockApp::refresh_service_status, (other,), asked),
    ensures
        first == old(app).steam.root,
        !old(app).steam_jobs.service,
        final(app).steam_jobs.service,
        second is Some <==> later >= now + 30 * 1_000_000_000,
        second is Some ==> second == old(app).steam.root,
        asked is Some <==> old(other).steam.root is Some && !old(other).steam_jobs.service,
        asked is Some ==> asked == old(other).steam.root && final(other).steam_jobs.service,
        asked is None ==> final(other).steam_jobs == old(other).steam_jobs,
{
}

} // verus!
