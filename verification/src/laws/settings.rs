//! What the settings promise: what is typed is kept, limits and overrides are set one by one, and a
//! broken settings file is never written over unasked.
use crate::laws::text::{core_is_left, is_padding, is_tight};
use crate::settings_page::{bandwidth_pill, FolderLook, SettingsView};
use crate::state::{
    DrydockApp, Settings, SettingsForm, SteamDirValidation, SteamServiceState,
};
use crate::text::decimal;
use vstd::prelude::*;

verus! {

/// The folders that are typed are kept without the white space around them, and nothing else of the
/// settings changes.
pub proof fn typed_folders_are_kept(
    app: &mut DrydockApp,
    a: Seq<char>,
    steam: Seq<char>,
    b: Seq<char>,
    c: Seq<char>,
    games: Seq<char>,
    d: Seq<char>,
)
    requires
        call_ensures(DrydockApp::save_settings, (app,), ()),
        old(app).form.steam_directory@ == a + steam + b,
        old(app).form.games_directory@ == c + games + d,
        is_padding(a) && is_padding(b) && is_padding(c) && is_padding(d),
        is_tight(steam) && is_tight(games),
    ensures
        final(app).settings.steam_directory@ == steam,
        final(app).settings.games_directory@ == games,
        final(app).settings == (Settings {
            steam_directory: final(app).settings.steam_directory,
            games_directory: final(app).settings.games_directory,
            ..old(app).settings
        }),
        final(app).form == old(app).form,
        final(app).downloads == old(app).downloads,
{
    core_is_left(a, steam, b);
    core_is_left(c, games, d);
}

/// A folder counts as Steam's only where it is there and holds both the launcher and the games, and
/// the first thing that is missing is the one told of. A verdict that is kept for the text in the
/// field is not asked for again.
pub proof fn a_steam_folder_is_told_apart(
    form: &mut SettingsForm,
    look: FolderLook,
    verdict: SteamDirValidation,
    again: &mut SettingsForm,
    other: FolderLook,
    second: SteamDirValidation,
    a: Seq<char>,
    core: Seq<char>,
    b: Seq<char>,
    folder: Option<String>,
)
    requires
        old(form).validated is None,
        old(form).steam_directory@ == a + core + b,
        is_padding(a) && is_padding(b) && is_tight(core),
        call_ensures(SettingsForm::folder_to_look_at, (&*old(form),), folder),
        call_ensures(SettingsForm::validate_steam_draft, (form, look), verdict),
        *old(again) == *final(form),
        call_ensures(SettingsForm::validate_steam_draft, (again, other), second),
    ensures
        folder is Some <==> core.len() > 0,
        folder matches Some(path) ==> path@ == core,
        verdict == SteamDirValidation::Valid <==> core.len() > 0 && look.is_folder
            && look.has_launcher && look.has_steamapps,
        verdict == SteamDirValidation::Empty <==> core.len() == 0,
        verdict == SteamDirValidation::NotFound <==> core.len() > 0 && !look.is_folder,
        verdict == SteamDirValidation::MissingExecutable <==> core.len() > 0 && look.is_folder
            && !look.has_launcher,
        second == verdict,
        final(form).steam_directory == old(form).steam_directory,
        final(form).games_directory == old(form).games_directory,
{
    core_is_left(a, core, b);
    crate::text::blank_means_trimmed_away(old(form).steam_directory@);
}

/// A folder that is picked or detected stands in the form and is looked at anew.
pub proof fn a_picked_folder_stands_in_the_form(
    app: &mut DrydockApp,
    folder: String,
    detected: &mut DrydockApp,
    found: Option<String>,
    games: &mut DrydockApp,
)
    requires
        call_ensures(DrydockApp::steam_folder_picked, (app, folder), ()),
        call_ensures(DrydockApp::steam_folder_detected, (detected, found), ()),
        call_ensures(DrydockApp::games_folder_picked, (games, folder), ()),
    ensures
        final(app).form.steam_directory == folder,
        final(app).form.validated is None,
        final(app).form.games_directory == old(app).form.games_directory,
        final(app).settings == old(app).settings,
        found matches Some(root) ==> final(detected).form.steam_directory == root
            && final(detected).form.validated is None && !final(detected).line.error,
        found is None ==> final(detected).form == old(detected).form && final(detected).line.error,
        final(games).form.games_directory == folder,
        final(games).form.steam_directory == old(games).form.steam_directory,
{
}

/// Games go to the folder in the settings, or to Steam's library where none is named.
pub proof fn games_go_to_the_folder_in_the_settings(
    app: &DrydockApp,
    folder: Option<String>,
    a: Seq<char>,
    core: Seq<char>,
    b: Seq<char>,
    reset: &mut DrydockApp,
    after: &DrydockApp,
    none: Option<String>,
)
    requires
        call_ensures(DrydockApp::games_directory, (app,), folder),
        app.settings.games_directory@ == a + core + b,
        is_padding(a) && is_padding(b) && is_tight(core),
        *old(reset) == *app,
        call_ensures(DrydockApp::use_steam_library, (reset,), ()),
        *after == *final(reset),
        call_ensures(DrydockApp::games_directory, (after,), none),
    ensures
        folder is Some <==> core.len() > 0,
        folder matches Some(path) ==> path@ == core,
        none is None,
        final(reset).form.games_directory@.len() == 0,
{
    core_is_left(a, core, b);
    crate::text::blank_means_trimmed_away(app.settings.games_directory@);
    crate::text::blank_means_trimmed_away(final(reset).settings.games_directory@);
    let empty = final(reset).settings.games_directory@;
    assert(crate::text::blank(empty));
}

/// Each limit is set by itself, and whether it changed is told: setting it once more changes
/// nothing.
pub proof fn limits_are_set_one_by_one(
    app: &mut DrydockApp,
    connections: u32,
    first: bool,
    second: &mut DrydockApp,
    mbps: u32,
    bandwidth: bool,
    third: &mut DrydockApp,
    threads: u32,
    verify: bool,
    again: &mut DrydockApp,
    unchanged: bool,
)
    requires
        call_ensures(DrydockApp::set_connections, (app, connections), first),
        *old(second) == *final(app),
        call_ensures(DrydockApp::set_bandwidth, (second, mbps), bandwidth),
        *old(third) == *final(second),
        call_ensures(DrydockApp::set_verify_threads, (third, threads), verify),
        *old(again) == *final(third),
        call_ensures(DrydockApp::set_bandwidth, (again, mbps), unchanged),
    ensures
        final(third).settings.max_download_connections == connections,
        final(third).settings.max_download_mbps == mbps,
        final(third).settings.verify_threads == threads,
        first <==> connections != old(app).settings.max_download_connections,
        bandwidth <==> mbps != old(app).settings.max_download_mbps,
        verify <==> threads != old(app).settings.verify_threads,
        !unchanged,
        final(third).settings.download_queue == old(app).settings.download_queue,
        final(third).settings.installed_games == old(app).settings.installed_games,
        final(third).settings.proxy_base_url == old(app).settings.proxy_base_url,
{
}

/// The slider shows what a download will use, and the pill says how fast it may be.
pub proof fn the_slider_shows_what_is_used(
    settings: &Settings,
    shown: u32,
    maximum: u32,
    threads: u32,
    mbps: u32,
    pill: (String, crate::types::Tone),
    number: String,
)
    requires
        call_ensures(Settings::shown_connections, (settings,), shown),
        call_ensures(Settings::shown_verify_threads, (settings, maximum), threads),
        call_ensures(bandwidth_pill, (mbps,), pill),
        call_ensures(decimal, (mbps as u64,), number),
    ensures
        settings.max_download_connections == 0 ==> shown == 16,
        settings.max_download_connections > 32 ==> shown == 32,
        1 <= settings.max_download_connections <= 32 ==> shown == settings.max_download_connections,
        threads <= maximum,
        settings.verify_threads <= maximum ==> threads == settings.verify_threads,
        mbps == 0 ==> pill.0@ == "UNLIMITED"@,
        mbps > 0 ==> pill.0@ == "Capped at "@ + number@ + " MB/s"@,
{
}

/// The overrides of a deployment are kept as typed, each under its own name, and whether any of
/// them changed is told.
pub proof fn overrides_are_kept(
    app: &mut DrydockApp,
    url: String,
    secret: String,
    repository: String,
    changed: bool,
    again: &mut DrydockApp,
    second: bool,
)
    requires
        call_ensures(DrydockApp::self_hosting_panel, (app, url, secret, repository), changed),
        *old(again) == *final(app),
        call_ensures(DrydockApp::self_hosting_panel, (again, url, secret, repository), second),
    ensures
        final(app).settings.proxy_base_url == url,
        final(app).settings.proxy_hmac_secret == secret,
        final(app).settings.update_repository == repository,
        changed <==> url@ != old(app).settings.proxy_base_url@ || secret@
            != old(app).settings.proxy_hmac_secret@ || repository@
            != old(app).settings.update_repository@,
        !second,
        final(app).settings.steam_directory == old(app).settings.steam_directory,
        final(app).settings.installed_games == old(app).settings.installed_games,
{
}

/// Settings that could not be read are not written over until the user says so, and a failed write
/// is always told of.
pub proof fn broken_settings_are_not_written_over(
    app: &DrydockApp,
    allowed: Result<(), String>,
    discarded: &mut DrydockApp,
    after: &DrydockApp,
    later: Result<(), String>,
    written: Result<(), String>,
    saved: &mut DrydockApp,
    result: Result<(), String>,
    told: &mut DrydockApp,
    ok: bool,
)
    requires
        call_ensures(DrydockApp::write_settings, (app,), allowed),
        *old(discarded) == *app,
        call_ensures(DrydockApp::discard_broken_settings, (discarded,), ()),
        *after == *final(discarded),
        call_ensures(DrydockApp::write_settings, (after,), later),
        call_ensures(DrydockApp::persist_settings, (saved, written), result),
        call_ensures(DrydockApp::settings_saved, (told, written), ok),
    ensures
        allowed is Err <==> app.settings_read_only,
        later is Ok,
        final(discarded).settings == app.settings,
        result == written,
        written is Err ==> final(saved).line.error,
        written is Ok ==> final(saved).line == old(saved).line,
        ok <==> written is Ok,
        final(told).line.error <==> written is Err,
{
}

/// The page shows whether Steam is linked and how its service stands: the button to install it is
/// gone exactly once it is current, and nothing can be pressed while it is at work.
pub proof fn the_page_shows_how_steam_stands(app: &DrydockApp, view: SettingsView)
    requires
        call_ensures(DrydockApp::settings_page, (app,), view),
    ensures
        view.steam_pill.1 == crate::types::Tone::Verdigris <==> app.steam.root is Some,
        view.service is Some <==> app.steam.root is Some,
        view.service matches Some(card) ==> {
            &&& card.enabled <==> !app.steam_jobs.service
            &&& card.restart_enabled <==> !app.steam_jobs.service && !app.steam_jobs.background
            &&& card.install is None <==> (app.steam.service_status matches Some(status)
                && status.state == SteamServiceState::Current)
            &&& card.installed <==> (app.steam.service_status matches Some(status) && status.state
                != SteamServiceState::NotInstalled)
        },
        view.custom_games_folder <==> !is_padding(app.form.games_directory@),
        view.refreshing == app.list_jobs.catalog,
        view.broken_settings == app.settings_read_only,
{
    assert(is_padding(app.form.games_directory@) == crate::text::blank(
        app.form.games_directory@,
    ));
}

} // verus!
