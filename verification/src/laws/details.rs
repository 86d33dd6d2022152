//! What the details page of a game promises.
use crate::details::{
    button_model, button_models, requirement_column, steam_button_row, DepotButtons,
    DetailsAction, DetailsButton, DetailsState, DetailsView, Fact, FixPanelState, FixStatus,
    RepackPanelState,
};
use crate::laws::library::{is_runtime, runtimes_are_no_games};
use crate::state::{DetailsPage, DrydockApp, SteamServiceState, SteamStoreDetails};
use crate::text::{decimal, decimal_text, texts};
use crate::types::{Page, Reply, Tone};
use vstd::prelude::*;

verus! {

/// Whether a row has a button for an action.
pub open spec fn has_button(buttons: Seq<DetailsButton>, action: DetailsAction) -> bool {
    exists|i: int| 0 <= i < buttons.len() && (#[trigger] buttons[i]).action == action
}

/// What stands in a row of buttons stands in the row of their models.
proof fn a_button_is_modelled(buttons: Seq<DetailsButton>, action: DetailsAction)
    ensures
        button_models(buttons).len() == buttons.len(),
        has_button(buttons, action) <==> exists|i: int|
            0 <= i < buttons.len() && (#[trigger] button_models(buttons)[i]).2 == action,
        forall|i: int|
            0 <= i < buttons.len() ==> (#[trigger] button_models(buttons)[i]) == button_model(
                buttons[i],
            ),
{
    if has_button(buttons, action) {
        let i = choose|i: int| 0 <= i < buttons.len() && (#[trigger] buttons[i]).action == action;
        assert(button_models(buttons)[i].2 == action);
    }
    if exists|i: int| 0 <= i < buttons.len() && (#[trigger] button_models(buttons)[i]).2 == action {
        let i = choose|i: int|
            0 <= i < buttons.len() && (#[trigger] button_models(buttons)[i]).2 == action;
        assert(buttons[i].action == action);
    }
}

/// An app that is added can be updated and removed. One that is not can be added where the service
/// is current; where it is not, the service can be installed instead.
pub proof fn the_row_offers_what_can_be_done(
    state: DetailsState,
    fix: Option<FixPanelState>,
    repack: Option<&RepackPanelState>,
    activation: bool,
    buttons: Vec<DetailsButton>,
)
    requires
        call_ensures(steam_button_row, (state, fix, repack, activation), buttons),
    ensures
        has_button(buttons@, DetailsAction::RemoveFromSteam) <==> state.is_added,
        has_button(buttons@, DetailsAction::AddToSteam) <==> state.is_added
            || state.service_current,
        has_button(buttons@, DetailsAction::InstallService) <==> !state.is_added
            && !state.service_current,
        has_button(buttons@, DetailsAction::AddCracked) <==> !state.is_added
            && state.service_current && fix is Some && fix->0.denuvo is Some,
        has_button(buttons@, DetailsAction::ApplyDenuvoFix) <==> fix is Some
            && fix->0.denuvo is Some,
        has_button(buttons@, DetailsAction::Activate) <==> activation,
        !has_button(buttons@, DetailsAction::DepotDownload),
        !has_button(buttons@, DetailsAction::DepotVerify),
{
    let panel = match repack {
        Some(panel) => Some(*panel),
        None => None,
    };
    let add = crate::details::add_buttons(state, crate::details::has_fix(fix));
    let fixes = crate::details::fix_buttons(fix);
    let repacks = crate::details::repack_buttons(panel);
    let activate = crate::details::activate_buttons(activation);
    let row = button_models(buttons@);
    assert(row == add + fixes + repacks + activate);
    a_button_is_modelled(buttons@, DetailsAction::RemoveFromSteam);
    a_button_is_modelled(buttons@, DetailsAction::AddToSteam);
    a_button_is_modelled(buttons@, DetailsAction::InstallService);
    a_button_is_modelled(buttons@, DetailsAction::AddCracked);
    a_button_is_modelled(buttons@, DetailsAction::ApplyDenuvoFix);
    a_button_is_modelled(buttons@, DetailsAction::Activate);
    a_button_is_modelled(buttons@, DetailsAction::DepotDownload);
    a_button_is_modelled(buttons@, DetailsAction::DepotVerify);
    assert(forall|i: int| 0 <= i < repacks.len() ==> (#[trigger] repacks[i]).2 is Download);
    assert(forall|i: int|
        0 <= i < row.len() ==> (#[trigger] row[i]) == if i < add.len() {
            add[i]
        } else if i < add.len() + fixes.len() {
            fixes[i - add.len()]
        } else if i < add.len() + fixes.len() + repacks.len() {
            repacks[i - add.len() - fixes.len()]
        } else {
            activate[i - add.len() - fixes.len() - repacks.len()]
        });
    assert(row[0] == add[0]);
    if add.len() > 1 {
        assert(row[1] == add[1]);
    }
    if fixes.len() > 0 {
        assert(row[add.len() as int] == fixes[0]);
    }
    if activate.len() > 0 {
        assert(row[(add.len() + fixes.len() + repacks.len()) as int] == activate[0]);
    }
}

/// While something runs, nothing of Steam can be started; a fix needs the game to be installed.
pub proof fn a_busy_row_is_off(
    state: DetailsState,
    fix: Option<FixPanelState>,
    repack: Option<&RepackPanelState>,
    activation: bool,
    buttons: Vec<DetailsButton>,
    i: int,
)
    requires
        call_ensures(steam_button_row, (state, fix, repack, activation), buttons),
        repack matches Some(panel) ==> panel.repackers@.len() <= usize::MAX,
        0 <= i < buttons@.len(),
    ensures
        buttons@[i].action == DetailsAction::AddToSteam || buttons@[i].action
            == DetailsAction::AddCracked || buttons@[i].action == DetailsAction::RemoveFromSteam
            || buttons@[i].action == DetailsAction::InstallService ==> buttons@[i].enabled
            == !state.busy,
        buttons@[i].action == DetailsAction::ApplyDenuvoFix ==> fix is Some && buttons@[i].enabled
            == (fix->0.installed && !fix->0.busy),
        buttons@[i].action is Download || buttons@[i].action == DetailsAction::Activate
            ==> buttons@[i].enabled,
        buttons@[i].action matches DetailsAction::Download(at) ==> {
            &&& repack is Some
            &&& at < repack->0.repackers@.len()
            &&& repack->0.repackers@.len() > 1 ==> exists|a: Seq<char>, b: Seq<char>|
                buttons@[i].label@ == #[trigger] (a + repack->0.repackers@[at as int]@ + b)
        },
{
    let panel = match repack {
        Some(panel) => Some(*panel),
        None => None,
    };
    let add = crate::details::add_buttons(state, crate::details::has_fix(fix));
    let fixes = crate::details::fix_buttons(fix);
    let repacks = crate::details::repack_buttons(panel);
    let activate = crate::details::activate_buttons(activation);
    let row = button_models(buttons@);
    assert(row == add + fixes + repacks + activate);
    a_button_is_modelled(buttons@, buttons@[i].action);
    assert(row[i] == button_model(buttons@[i]));
    if i < add.len() {
        assert(row[i] == add[i]);
    } else if i < add.len() + fixes.len() {
        assert(row[i] == fixes[i - add.len()]);
    } else if i < add.len() + fixes.len() + repacks.len() {
        let k = i - add.len() - fixes.len();
        assert(row[i] == repacks[k]);
        let names = texts(panel->0.repackers@);
        assert(repacks[k] == crate::details::repack_button(names, k));
        assert(names[k] == panel->0.repackers@[k]@);
        let at = buttons@[i].action->Download_0;
        assert(at == k);
        if panel->0.repackers@.len() > 1 {
            assert(buttons@[i].label@ == "DOWNLOAD REPACK ("@ + repack->0.repackers@[at as int]@
                + ")"@);
        }
    } else {
        assert(row[i] == activate[i - add.len() - fixes.len() - repacks.len()]);
    }
}

/// Every repack has its own button.
pub proof fn every_repack_has_a_button(
    state: DetailsState,
    fix: Option<FixPanelState>,
    panel: &RepackPanelState,
    activation: bool,
    buttons: Vec<DetailsButton>,
    at: usize,
)
    requires
        call_ensures(steam_button_row, (state, fix, Some(panel), activation), buttons),
        at < panel.repackers@.len(),
    ensures
        has_button(buttons@, DetailsAction::Download(at)),
{
    let add = crate::details::add_buttons(state, crate::details::has_fix(fix));
    let fixes = crate::details::fix_buttons(fix);
    let repacks = crate::details::repack_buttons(Some(*panel));
    let activate = crate::details::activate_buttons(activation);
    let row = button_models(buttons@);
    assert(row == add + fixes + repacks + activate);
    a_button_is_modelled(buttons@, DetailsAction::Download(at));
    let i = add.len() + fixes.len() + at;
    assert(row[i] == repacks[at as int]);
    assert(repacks[at as int].2 == DetailsAction::Download(at));
}

/// The buttons go by the app that is looked at: whether it is added, whether the service is current
/// and whether an action of it runs.
pub proof fn the_row_is_that_of_the_app(app: &DrydockApp, state: DetailsState)
    requires
        call_ensures(DrydockApp::details_state, (app,), state),
    ensures
        state.busy == app.steam_jobs.service,
        state.service_current <==> (app.steam.service_status matches Some(status) && status.state
            == SteamServiceState::Current),
        app.details.app_id is None ==> !state.is_added,
        app.details.app_id matches Some(app_id) ==> (state.is_added
            <==> app.steam.plugin_luas@.contains(app_id) || app.settings.added_apps@.contains_key(
            app_id,
        )),
{
}

/// A fix is offered where the catalog has one: on an installed game it can be applied, and what the
/// disk says of it is only asked where Steam was found.
pub proof fn a_fix_is_offered_where_there_is_one(
    app: &DrydockApp,
    app_id: u32,
    on_disk: FixStatus,
    panel: Option<FixPanelState>,
    offered: bool,
)
    requires
        call_ensures(DrydockApp::details_fix_panel, (app, app_id, on_disk), panel),
        call_ensures(crate::catalog::Catalog::has_denuvo_fix, (&app.catalog, app_id), offered),
    ensures
        panel is Some <==> offered,
        panel matches Some(panel) ==> {
            &&& panel.busy == app.steam_jobs.background
            &&& panel.installed <==> exists|i: int|
                0 <= i < app.steam.manifests@.len() && (#[trigger] app.steam.manifests@[i]).app_id
                    == app_id
            &&& app.steam.root is Some ==> panel.denuvo == Some(on_disk)
            &&& app.steam.root is None ==> panel.denuvo == Some(FixStatus::NotApplied)
        },
{
    installed_means_a_manifest(*app, app_id);
}

proof fn installed_means_a_manifest(app: DrydockApp, app_id: u32)
    ensures
        crate::steam::manifest_ids(app.steam.manifests@).contains(app_id) <==> exists|i: int|
            0 <= i < app.steam.manifests@.len() && (#[trigger] app.steam.manifests@[i]).app_id
                == app_id,
{
    let ids = crate::steam::manifest_ids(app.steam.manifests@);
    if ids.contains(app_id) {
        let i = choose|i: int| 0 <= i < ids.len() && ids[i] == app_id;
        assert(app.steam.manifests@[i].app_id == app_id);
    }
    if exists|i: int|
        0 <= i < app.steam.manifests@.len() && (#[trigger] app.steam.manifests@[i]).app_id
            == app_id {
        let i = choose|i: int|
            0 <= i < app.steam.manifests@.len() && (#[trigger] app.steam.manifests@[i]).app_id
                == app_id;
        assert(ids[i] == app_id);
    }
}

/// A game can be downloaded unless it is one of Steam's own; it is installed where Steam has a
/// manifest of it, and waits where a download runs.
pub proof fn the_depot_goes_by_the_game(
    app: &DrydockApp,
    details: &SteamStoreDetails,
    depot: DepotButtons,
    running: bool,
)
    requires
        call_ensures(DrydockApp::depot_buttons, (app, details), depot),
        call_ensures(crate::state::DownloadState::running, (&app.downloads,), running),
    ensures
        depot.installed <==> exists|i: int|
            0 <= i < app.steam.manifests@.len() && (#[trigger] app.steam.manifests@[i]).app_id
                == details.app_id,
        depot.busy == running,
        depot.downloadable <==> !is_runtime(details.app_id, details.name@),
{
    runtimes_are_no_games(details.app_id, details.name@);
    installed_means_a_manifest(*app, details.app_id);
}

/// A download of a game that is installed repairs it, and waits in the queue while another runs. It
/// can be verified where it is installed and nothing runs.
pub proof fn the_depot_buttons_tell_what_they_do(
    depot: &DepotButtons,
    button: (&'static str, &'static str),
    verify: Option<bool>,
)
    requires
        call_ensures(DepotButtons::download_button, (depot,), button),
        call_ensures(DepotButtons::verify_button, (depot,), verify),
    ensures
        depot.busy ==> button.0@ == "ADD TO QUEUE"@,
        !depot.busy && depot.installed ==> button.0@ == "DOWNLOAD / REPAIR"@,
        !depot.busy && !depot.installed ==> button.0@ == "DOWNLOAD IN DRYDOCK"@,
        verify is Some <==> depot.installed,
        verify matches Some(enabled) ==> enabled == !depot.busy,
{
}

/// A game needs an activation where the loaded watch list has it, or the store says so.
pub proof fn activation_goes_by_the_watch_list_and_the_store(
    app: &DrydockApp,
    details: &SteamStoreDetails,
    required: bool,
)
    requires
        call_ensures(DrydockApp::activation_required, (app, details), required),
    ensures
        details.uses_denuvo ==> required,
        app.catalog.denuvo_loaded && app.catalog.denuvo_appids@.contains(details.app_id)
            ==> required,
        required && !details.uses_denuvo ==> app.catalog.denuvo_loaded
            && app.catalog.denuvo_appids@.contains(details.app_id),
{
}

/// Opening the details of an app shows that app, from the first picture, and has it fetched. What
/// comes back for it is shown; what comes for another app is not.
pub proof fn the_opened_app_is_shown(
    app: &mut DrydockApp,
    app_id: u32,
    answered: &mut DrydockApp,
    from: u32,
    details: SteamStoreDetails,
    after: &DrydockApp,
    view: DetailsView,
)
    requires
        call_ensures(DrydockApp::open_details, (app, app_id), ()),
        *old(answered) == *final(app),
        call_ensures(
            DrydockApp::poll_store_details,
            (answered, Reply::Done((from, Ok(details)))),
            (),
        ),
        *after == *final(answered),
        call_ensures(DrydockApp::details_page, (after,), view),
    ensures
        final(app).page == Page::Details,
        final(app).details.app_id == Some(app_id),
        final(app).details.store_details is None,
        final(app).details.loading,
        final(app).details.screenshot_index == 0,
        final(app).list_jobs.store,
        from == app_id ==> final(answered).details.store_details == Some(details)
            && !final(answered).details.loading && view is Loaded
            && final(answered).line.error == details.stale_cache,
        from != app_id ==> final(answered).details == final(app).details
            && final(answered).line == final(app).line && view is Loading,
        !final(answered).list_jobs.store,
        final(answered).settings == old(app).settings,
{
}

/// Details that could not be had are an error with its reason, and the page says what is known
/// without them.
pub proof fn failed_details_give_the_reason(
    app: &mut DrydockApp,
    app_id: u32,
    error: String,
    after: &DrydockApp,
    view: DetailsView,
    number: String,
)
    requires
        old(app).list_jobs.store,
        old(app).details.app_id == Some(app_id),
        old(app).details.store_details is None,
        call_ensures(
            DrydockApp::poll_store_details,
            (app, Reply::Done((app_id, Err(error)))),
            (),
        ),
        *after == *final(app),
        call_ensures(DrydockApp::details_page, (after,), view),
        call_ensures(decimal, (app_id as u64,), number),
    ensures
        final(app).line.error,
        exists|start: Seq<char>| final(app).line.text@ == #[trigger] (start + error@),
        view matches DetailsView::Unavailable { heading, lines, activation_required } ==> {
            &&& lines@.len() == 2
            &&& lines@[0]@ == "APP "@ + number@
            &&& activation_required <==> old(app).catalog.denuvo_loaded
                && old(app).catalog.denuvo_appids@.contains(app_id)
        },
        view is Unavailable,
{
    assert(final(app).line.text@ == "Store details could not be loaded: "@ + error@);
    if let DetailsView::Unavailable { heading, lines, activation_required } = view {
        assert(texts(lines@).len() == lines@.len());
        assert(texts(lines@)[0] == lines@[0]@);
    }
}

/// The page waits exactly while the details are fetched, and is loaded once they are there.
pub proof fn the_page_waits_for_the_details(app: &DrydockApp, view: DetailsView)
    requires
        call_ensures(DrydockApp::details_page, (app,), view),
    ensures
        view is Loading <==> app.details.loading,
        view is Loaded <==> !app.details.loading && app.details.store_details is Some,
        view is Unavailable <==> !app.details.loading && app.details.store_details is None,
{
}

/// The picture after the last is the first, and going back undoes going on.
pub proof fn the_pictures_go_round(
    page: &mut DetailsPage,
    count: usize,
    back: &mut DetailsPage,
    shown: (usize, Option<String>),
    other: &mut DetailsPage,
)
    requires
        old(page).screenshot_index < count,
        call_ensures(DetailsPage::next_picture, (page, count), ()),
        *old(back) == *final(page),
        call_ensures(DetailsPage::previous_picture, (back, count), ()),
        call_ensures(DetailsPage::screenshot_gallery, (&*old(page), count), shown),
        *old(other) == *old(page),
        call_ensures(DetailsPage::previous_picture, (other, count), ()),
    ensures
        old(page).screenshot_index + 1 < count ==> final(page).screenshot_index
            == old(page).screenshot_index + 1,
        old(page).screenshot_index + 1 == count ==> final(page).screenshot_index == 0,
        final(back).screenshot_index == old(page).screenshot_index,
        old(page).screenshot_index == 0 ==> final(other).screenshot_index == count - 1,
        old(page).screenshot_index > 0 ==> final(other).screenshot_index
            == old(page).screenshot_index - 1,
        final(page).app_id == old(page).app_id,
        final(page).store_details == old(page).store_details,
        shown.0 == old(page).screenshot_index,
        shown.1 is Some <==> count > 1,
        shown.1 matches Some(badge) ==> badge@ == decimal_text(
            (old(page).screenshot_index + 1) as nat,
        ) + " / "@ + decimal_text(count as nat),
{
}

/// The facts beside the page are those of the store: an unknown one is called that, and a
/// protection is named where an activation is needed.
pub proof fn the_sidebar_tells_the_facts(
    details: &SteamStoreDetails,
    activation: bool,
    facts: Vec<Fact>,
)
    requires
        call_ensures(SteamStoreDetails::details_store_sidebar, (details, activation), facts),
    ensures
        facts@.len() == if activation {
            5nat
        } else {
            4nat
        },
        facts@[0].label@ == "ALL REVIEWS"@ && facts@[0].value@ == details.reviews@,
        facts@[1].label@ == "RELEASED"@,
        crate::laws::text::is_padding(details.release_date@) ==> facts@[1].value@
            == "Not available"@,
        !crate::laws::text::is_padding(details.release_date@) ==> facts@[1].value@
            == details.release_date@,
        facts@[2].label@ == "DEVELOPER"@,
        details.developers@.len() == 0 ==> facts@[2].value@ == "Not available"@,
        details.developers@.len() == 1 ==> facts@[2].value@ == details.developers@[0]@,
        details.developers@.len() == 2 ==> facts@[2].value@ == details.developers@[0]@ + ", "@
            + details.developers@[1]@,
        facts@[3].label@ == "PUBLISHER"@,
        details.publishers@.len() == 0 ==> facts@[3].value@ == "Not available"@,
        details.publishers@.len() == 1 ==> facts@[3].value@ == details.publishers@[0]@,
        details.publishers@.len() == 2 ==> facts@[3].value@ == details.publishers@[0]@ + ", "@
            + details.publishers@[1]@,
        activation ==> facts@[4].label@ == "DRM"@ && facts@[4].tone == Tone::Amber,
{
    let models = crate::details::fact_models(facts@);
    assert(models.len() == facts@.len());
    assert(models[0] == (facts@[0].label@, facts@[0].value@, facts@[0].tone));
    assert(models[1] == (facts@[1].label@, facts@[1].value@, facts@[1].tone));
    assert(models[2] == (facts@[2].label@, facts@[2].value@, facts@[2].tone));
    assert(models[3] == (facts@[3].label@, facts@[3].value@, facts@[3].tone));
    if activation {
        assert(models[4] == (facts@[4].label@, facts@[4].value@, facts@[4].tone));
    }
    crate::text::blank_means_trimmed_away(details.release_date@);
    names_are_joined(details.developers@);
    names_are_joined(details.publishers@);
}

/// One name stands alone, two are parted by a comma.
pub proof fn names_are_joined(names: Seq<String>)
    ensures
        names.len() == 1 ==> crate::text::joined(texts(names), ", "@) == names[0]@,
        names.len() == 2 ==> crate::text::joined(texts(names), ", "@) == names[0]@ + ", "@
            + names[1]@,
{
    reveal_with_fuel(crate::text::joined, 3);
    let all = texts(names);
    if names.len() == 1 {
        assert(all[0] == names[0]@);
        assert(crate::text::joined(all, ", "@) =~= names[0]@);
    }
    if names.len() == 2 {
        assert(all[0] == names[0]@);
        assert(all[1] == names[1]@);
        assert(crate::text::joined(all, ", "@) =~= names[0]@ + ", "@ + names[1]@);
    }
}

/// The score is the store's, out of a hundred; a game without one is not rated. A game without an
/// activation has no protection.
pub proof fn the_features_tell_the_score(
    details: &SteamStoreDetails,
    activation: bool,
    facts: Vec<Fact>,
)
    requires
        call_ensures(SteamStoreDetails::details_features, (details, activation), facts),
    ensures
        facts@.len() == 3,
        facts@[1].label@ == "METACRITIC"@,
        details.metacritic_score matches Some(score) ==> facts@[1].value@ == decimal_text(
            score as nat,
        ) + " / 100"@,
        details.metacritic_score is None ==> facts@[1].value@ == "Not rated"@,
        facts@[2].label@ == "THIRD-PARTY DRM"@,
        !activation ==> facts@[2].value@ == "None — no activation needed"@,
        facts@[2].tone == Tone::Amber <==> activation,
        facts@[0].label@ == "PLATFORMS"@,
        details.platforms@.len() == 0 ==> facts@[0].value@ == "Not available"@,
        details.platforms@.len() == 1 ==> facts@[0].value@ == details.platforms@[0]@,
        details.platforms@.len() == 2 ==> facts@[0].value@ == details.platforms@[0]@ + ", "@
            + details.platforms@[1]@,
{
    let models = crate::details::fact_models(facts@);
    assert(models.len() == facts@.len());
    assert(models[0] == (facts@[0].label@, facts@[0].value@, facts@[0].tone));
    assert(models[1] == (facts@[1].label@, facts@[1].value@, facts@[1].tone));
    assert(models[2] == (facts@[2].label@, facts@[2].value@, facts@[2].tone));
    names_are_joined(details.platforms@);
}

/// What the store says about a game is shown as it is; where it says nothing, that is said.
pub proof fn texts_of_the_store_are_shown(
    details: &SteamStoreDetails,
    about: (String, bool),
    value: &str,
    column: (String, bool),
    tags: Vec<String>,
    i: int,
)
    requires
        call_ensures(SteamStoreDetails::details_about, (details,), about),
        call_ensures(requirement_column, (value,), column),
        call_ensures(SteamStoreDetails::shown_genres, (details,), tags),
    ensures
        details.about_the_game@.len() > 0 ==> about.1 && about.0@ == details.about_the_game@,
        details.about_the_game@.len() == 0 ==> !about.1 && about.0@
            == "No description is available."@,
        value@.len() > 0 ==> column.1 && column.0@ == value@,
        value@.len() == 0 ==> !column.1 && column.0@ == "Not specified"@,
        tags@.len() <= 14,
        details.genres@.len() <= 14 ==> tags@ == details.genres@,
        0 <= i < tags@.len() ==> i < details.genres@.len() && tags@[i] == details.genres@[i],
        details.genres@.len() > 14 ==> tags@.len() == 14,
{
}

/// The panel of the repacks has every source of the app's first entry, in order, and each leads to
/// its own link.
pub proof fn a_repack_leads_to_its_link(
    app: &DrydockApp,
    app_id: u32,
    panel: Option<RepackPanelState>,
    index: usize,
    source: Option<(String, String)>,
    m: int,
)
    requires
        call_ensures(DrydockApp::details_repack_panel, (app, Some(app_id)), panel),
        call_ensures(DrydockApp::open_repack_source, (app, app_id, index), source),
        0 <= m < app.catalog.repacks@.len(),
        app.catalog.repacks@[m].app_id == app_id,
        forall|k: int| 0 <= k < m ==> (#[trigger] app.catalog.repacks@[k]).app_id != app_id,
    ensures
        ({
            let sources = app.catalog.repacks@[m].sources@;
            &&& panel is Some
            &&& panel->0.repackers@.len() == sources.len()
            &&& forall|i: int|
                0 <= i < sources.len() ==> (#[trigger] panel->0.repackers@[i])@
                    == sources[i].repacker@
            &&& source is Some <==> index < sources.len()
            &&& index < sources.len() ==> source == Some(
                (sources[index as int].repacker, sources[index as int].link),
            )
        }),
{
    let ids = crate::catalog::repack_ids(app.catalog.repacks@);
    assert(ids[m] == app_id);
    assert(ids.contains(app_id));
    assert forall|k: int| 0 <= k < m implies ids[k] != app_id by {
        assert(app.catalog.repacks@[k].app_id != app_id);
    }
    assert(crate::catalog::first_at(ids, app_id, m));
    assert forall|i: int| #[trigger] crate::catalog::first_at(ids, app_id, i) implies i == m by {
        if i < m {
            assert(ids[i] != app_id);
        }
        if i > m {
            assert(ids[m] != app_id);
        }
    }
    assert(source is Some <==> index < app.catalog.repacks@[m].sources@.len());
    let sources = app.catalog.repacks@[m].sources@;
    let names = crate::catalog::repackers(sources);
    assert(texts(panel->0.repackers@) == names);
    assert(texts(panel->0.repackers@).len() == panel->0.repackers@.len());
    assert(names.len() == sources.len());
    assert forall|i: int| 0 <= i < sources.len() implies (#[trigger] panel->0.repackers@[i])@
        == sources[i].repacker@ by {
        assert(texts(panel->0.repackers@)[i] == panel->0.repackers@[i]@);
        assert(names[i] == sources[i].repacker@);
    }
}

/// A picture beyond the last is the last, and the badge tells which of how many is shown.
pub proof fn a_picture_beyond_the_last_is_the_last(
    page: &DetailsPage,
    count: usize,
    shown: (usize, Option<String>),
)
    requires
        count > 0,
        page.screenshot_index >= count,
        call_ensures(DetailsPage::screenshot_gallery, (page, count), shown),
    ensures
        shown.0 == count - 1,
        shown.1 matches Some(badge) ==> badge@ == decimal_text(count as nat) + " / "@
            + decimal_text(count as nat),
{
}

/// The button of a fix says why it is off, and whether the fix was applied before.
pub proof fn a_fix_says_why_it_is_off(
    state: DetailsState,
    fix: FixPanelState,
    status: FixStatus,
    repack: Option<&RepackPanelState>,
    activation: bool,
    buttons: Vec<DetailsButton>,
    i: int,
)
    requires
        call_ensures(steam_button_row, (state, Some(fix), repack, activation), buttons),
        fix.denuvo == Some(status),
        0 <= i < buttons@.len(),
        buttons@[i].action == DetailsAction::ApplyDenuvoFix,
    ensures
        status == FixStatus::Applied ==> buttons@[i].label@ == "RE-APPLY DENUVO FIX"@,
        status != FixStatus::Applied ==> buttons@[i].label@ == "APPLY DENUVO FIX"@,
        !fix.installed ==> buttons@[i].hint@ == "Install the game through Steam first."@,
        fix.installed && fix.busy ==> buttons@[i].hint@
            == "A background action is already running."@,
        fix.installed && !fix.busy && status == FixStatus::NotApplied ==> buttons@[i].hint@
            == ""@,
{
    let panel = match repack {
        Some(panel) => Some(*panel),
        None => None,
    };
    let add = crate::details::add_buttons(state, crate::details::has_fix(Some(fix)));
    let fixes = crate::details::fix_buttons(Some(fix));
    let repacks = crate::details::repack_buttons(panel);
    let activate = crate::details::activate_buttons(activation);
    let row = button_models(buttons@);
    assert(row == add + fixes + repacks + activate);
    a_button_is_modelled(buttons@, buttons@[i].action);
    assert(row[i] == button_model(buttons@[i]));
    if i < add.len() {
        assert(row[i] == add[i]);
    } else if i < add.len() + fixes.len() {
        assert(row[i] == fixes[i - add.len()]);
    } else if i < add.len() + fixes.len() + repacks.len() {
        assert(row[i] == repacks[i - add.len() - fixes.len()]);
    } else {
        assert(row[i] == activate[i - add.len() - fixes.len() - repacks.len()]);
    }
}

} // verus!
