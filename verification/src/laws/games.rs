//! What launching, adding and uninstalling games promises.
use crate::catalog::Catalog;
use crate::library_actions::{
    add_game_verdict, download_install_outcome, download_install_root, executables_to_find,
    AddGameOutcome, GameFolder, InstallRoot, LaunchTarget, UninstallOrder,
};
use crate::state::{DrydockApp, InstalledGame, QueuedDownload, Settings};
use crate::types::Reply;
use vstd::prelude::*;

verus! {

broadcast use vstd::std_specs::hash::group_hash_axioms;

/// A path chosen for a game is the path it is launched by, until another is chosen. No other game
/// is launched differently.
pub proof fn the_chosen_path_is_launched(
    app: &mut DrydockApp,
    app_id: u32,
    file: String,
    after: &DrydockApp,
    target: LaunchTarget,
    other: u32,
    before: LaunchTarget,
    still: LaunchTarget,
)
    requires
        call_ensures(DrydockApp::set_library_launch_path, (app, app_id, file), ()),
        *after == *final(app),
        call_ensures(DrydockApp::launch_library_game, (after, app_id), target),
        other != app_id,
        call_ensures(DrydockApp::launch_library_game, (&*old(app), other), before),
        call_ensures(DrydockApp::launch_library_game, (after, other), still),
    ensures
        target == LaunchTarget::Executable(file),
        still == before,
        final(app).settings.installed_games == old(app).settings.installed_games,
        final(app).catalog == old(app).catalog,
{
}

/// A game without a path is left to Steam.
pub proof fn a_game_without_a_path_is_left_to_steam(app: &DrydockApp, app_id: u32, target: LaunchTarget)
    requires
        call_ensures(DrydockApp::launch_library_game, (app, app_id), target),
    ensures
        target == LaunchTarget::Steam <==> !app.settings.launch_paths@.contains_key(app_id),
        target matches LaunchTarget::Executable(path) ==> app.settings.launch_paths@[app_id] == path,
{
}

/// A failed launch is an error that ends in the reason. A launch that went well is none, and Steam
/// is only mentioned where it was asked.
pub proof fn a_failed_launch_gives_the_reason(
    app: &mut DrydockApp,
    by_steam: bool,
    started: Result<(), String>,
)
    requires
        call_ensures(DrydockApp::game_launched, (app, by_steam, started), ()),
    ensures
        final(app).line.error == (started is Err),
        final(app).line.busy == old(app).line.busy,
        started matches Err(error) ==> exists|start: Seq<char>|
            final(app).line.text@ == #[trigger] (start + error@),
        started is Ok && by_steam ==> final(app).line.text@ == "Asking Steam to launch the game"@,
        started is Ok && !by_steam ==> final(app).line.text@ == "Launching the game"@,
        final(app).settings == old(app).settings,
        final(app).downloads == old(app).downloads,
{
    match started {
        Err(error) => {
            assert(Seq::<char>::empty() + error@ =~= error@);
            if by_steam {
                assert(final(app).line.text@ == Seq::<char>::empty() + error@);
            } else {
                assert(final(app).line.text@ == "The game could not be launched: "@ + error@);
            }
        },
        Ok(_) => {},
    }
}

/// A game that was found in a folder is listed as installed there under its name, is launched by
/// the executable that was found, and is selected. No other game is touched.
pub proof fn a_found_game_is_added(
    app: &mut DrydockApp,
    outcome: AddGameOutcome,
    name: Option<String>,
    after: &DrydockApp,
    target: LaunchTarget,
    order: Option<UninstallOrder>,
    other: u32,
    before: LaunchTarget,
    still: LaunchTarget,
)
    requires
        old(app).side_jobs.add_game,
        call_ensures(DrydockApp::poll_add_game, (app, Reply::Done(Ok(outcome))), name),
        *after == *final(app),
        call_ensures(DrydockApp::launch_library_game, (after, outcome.app_id), target),
        call_ensures(DrydockApp::uninstall_drydock_game, (after, outcome.app_id), order),
        other != outcome.app_id,
        call_ensures(DrydockApp::launch_library_game, (&*old(app), other), before),
        call_ensures(DrydockApp::launch_library_game, (after, other), still),
    ensures
        name == Some(outcome.name),
        target == LaunchTarget::Executable(outcome.exe),
        final(app).settings.installed_games@[outcome.app_id].name == outcome.name,
        final(app).settings.installed_games@[outcome.app_id].install_dir == outcome.root,
        order is Some && order->0.install_dir == outcome.root,
        outcome.name@.len() > 0 ==> order->0.name@ == outcome.name@,
        still == before,
        final(app).settings.installed_games@.contains_key(other)
            == old(app).settings.installed_games@.contains_key(other),
        final(app).settings.installed_games@[other] == old(app).settings.installed_games@[other],
        final(app).settings.download_queue == old(app).settings.download_queue,
        final(app).library.selected == Some(outcome.app_id),
        final(app).library.add_game_folder is None,
        final(app).library.add_game_search@.len() == 0,
        !final(app).side_jobs.add_game,
        final(app).line.busy is None,
{
    reveal(Settings::registers);
}

/// A search for a game that failed adds nothing and tells why; one that is still running changes
/// nothing at all but waits.
pub proof fn a_game_not_found_is_not_added(
    app: &mut DrydockApp,
    reply: Reply<Result<AddGameOutcome, String>>,
    name: Option<String>,
)
    requires
        call_ensures(DrydockApp::poll_add_game, (app, reply), name),
        !(reply matches Reply::Done(Ok(_))),
    ensures
        name is None,
        final(app).settings == old(app).settings,
        final(app).library == old(app).library,
        old(app).side_jobs.add_game && reply is Done ==> final(app).line.error
            && final(app).line.text == reply->Done_0->Err_0 && final(app).line.busy is None,
        reply is Waiting ==> final(app).side_jobs.add_game == old(app).side_jobs.add_game
            && final(app).line == old(app).line,
        !(reply is Waiting) ==> !final(app).side_jobs.add_game,
        final(app).side_jobs.download_install == old(app).side_jobs.download_install,
{
}

/// One search at a time: a second is not begun, and the first goes by the name of the app.
pub proof fn one_game_is_searched_for_at_a_time(
    app: &mut DrydockApp,
    app_id: u32,
    first: Option<String>,
    shown: String,
    again: &mut DrydockApp,
    other: u32,
    second: Option<String>,
)
    requires
        call_ensures(DrydockApp::start_add_game_detect, (app, app_id), first),
        call_ensures(Catalog::app_display_name, (&old(app).catalog, app_id), shown),
        *old(again) == *final(app),
        call_ensures(DrydockApp::start_add_game_detect, (again, other), second),
    ensures
        second is None,
        first is Some <==> !old(app).side_jobs.add_game,
        first matches Some(name) ==> name@ == shown@ && final(app).line.busy is Some,
        final(app).side_jobs.add_game,
        final(again).line == final(app).line,
{
}

/// A downloaded game is installed in its folder. A path that the user chose is only replaced where
/// an executable was found.
pub proof fn a_downloaded_game_is_installed(
    app: &mut DrydockApp,
    outcome: AddGameOutcome,
    save: bool,
    after: &DrydockApp,
    before: LaunchTarget,
    target: LaunchTarget,
)
    requires
        old(app).side_jobs.download_install,
        call_ensures(DrydockApp::poll_download_install, (app, Reply::Done(Ok(outcome))), save),
        *after == *final(app),
        call_ensures(DrydockApp::launch_library_game, (&*old(app), outcome.app_id), before),
        call_ensures(DrydockApp::launch_library_game, (after, outcome.app_id), target),
    ensures
        save,
        final(app).settings.installed_games@.contains_key(outcome.app_id),
        final(app).settings.installed_games@[outcome.app_id] == (InstalledGame {
            name: outcome.name,
            install_dir: outcome.root,
        }),
        outcome.exe@.len() > 0 ==> target == LaunchTarget::Executable(outcome.exe),
        outcome.exe@.len() == 0 ==> target == before,
        !final(app).side_jobs.download_install,
        final(app).library == old(app).library,
        final(app).line == old(app).line,
{
    reveal(Settings::registers);
}

/// An uninstalled game is neither installed nor queued afterwards. Every other game stays as it
/// was, installed or queued, in its order.
pub proof fn an_uninstalled_game_is_gone(
    app: &mut DrydockApp,
    app_id: u32,
    save: bool,
    after: &DrydockApp,
    order: Option<UninstallOrder>,
    other: u32,
)
    requires
        call_ensures(DrydockApp::game_folder_deleted, (app, app_id, Ok(())), save),
        *after == *final(app),
        call_ensures(DrydockApp::uninstall_drydock_game, (after, app_id), order),
        other != app_id,
    ensures
        save,
        order is None,
        !final(app).settings.installed_games@.contains_key(app_id),
        forall|i: int|
            0 <= i < final(app).settings.download_queue@.len() ==> (
            #[trigger] final(app).settings.download_queue@[i]).app_id != app_id,
        forall|i: int|
            0 <= i < old(app).settings.download_queue@.len() && (
            #[trigger] old(app).settings.download_queue@[i]).app_id != app_id
                ==> final(app).settings.download_queue@.contains(
                old(app).settings.download_queue@[i],
            ),
        (forall|i: int|
            0 <= i < old(app).settings.download_queue@.len() ==> (
            #[trigger] old(app).settings.download_queue@[i]).app_id != app_id)
            ==> final(app).settings.download_queue@ == old(app).settings.download_queue@,
        final(app).settings.installed_games@.contains_key(other)
            == old(app).settings.installed_games@.contains_key(other),
        final(app).settings.installed_games@[other] == old(app).settings.installed_games@[other],
        final(app).settings.launch_paths == old(app).settings.launch_paths,
{
    let queue = old(app).settings.download_queue@;
    let rest = final(app).settings.download_queue@;
    let kept = |item: QueuedDownload| item.app_id != app_id;
    assert(rest == queue.filter(kept));
    assert forall|i: int| 0 <= i < queue.len() && (#[trigger] queue[i]).app_id != app_id implies
        rest.contains(queue[i]) by {
        queue.lemma_filter_contains(kept, i);
    }
    assert forall|i: int| 0 <= i < rest.len() implies (#[trigger] rest[i]).app_id != app_id by {
        queue.lemma_filter_pred(kept, i);
    }
    if forall|i: int| 0 <= i < queue.len() ==> (#[trigger] queue[i]).app_id != app_id {
        assert forall|i: int| 0 <= i < queue.len() implies kept(#[trigger] queue[i]) by {}
        all_stay(queue, kept);
    }
}

/// A sequence of items that all pass a test is what the test leaves of it.
proof fn all_stay<A>(items: Seq<A>, test: spec_fn(A) -> bool)
    requires
        forall|i: int| 0 <= i < items.len() ==> test(#[trigger] items[i]),
    ensures
        items.filter(test) == items,
    decreases items.len(),
{
    reveal(Seq::filter);
    if items.len() > 0 {
        assert(test(items.last()));
        assert forall|i: int| 0 <= i < items.drop_last().len() implies test(
            #[trigger] items.drop_last()[i],
        ) by {
            assert(items.drop_last()[i] == items[i]);
        }
        all_stay(items.drop_last(), test);
        assert(items.drop_last().push(items.last()) =~= items);
    }
}

/// A folder that could not be deleted leaves the game installed, and the reason is told.
pub proof fn a_folder_that_stays_keeps_the_game(
    app: &mut DrydockApp,
    app_id: u32,
    error: String,
    save: bool,
)
    requires
        call_ensures(DrydockApp::game_folder_deleted, (app, app_id, Err(error)), save),
    ensures
        !save,
        final(app).settings == old(app).settings,
        final(app).line.error,
        exists|start: Seq<char>| final(app).line.text@ == #[trigger] (start + error@),
{
    assert(final(app).line.text@ == "Could not delete the game folder: "@ + error@);
}

/// The user is asked before a game is deleted, with the folder that goes and the game's name.
pub proof fn the_folder_is_named_before_it_goes(
    app: &DrydockApp,
    app_id: u32,
    order: Option<UninstallOrder>,
    shown: String,
)
    requires
        call_ensures(DrydockApp::uninstall_drydock_game, (app, app_id), order),
        call_ensures(Catalog::app_display_name, (&app.catalog, app_id), shown),
    ensures
        order is Some <==> app.settings.installed_games@.contains_key(app_id),
        order matches Some(order) ==> {
            let game = app.settings.installed_games@[app_id];
            &&& order.install_dir == game.install_dir
            &&& order.name@ == if game.name@.len() > 0 {
                game.name@
            } else {
                shown@
            }
            &&& exists|a: Seq<char>, b: Seq<char>, c: Seq<char>|
                order.question@ == #[trigger] (a + order.name@ + b + order.install_dir@ + c)
        },
{
    if order is Some {
        let order = order->0;
        assert(order.question@ == "Delete \""@ + order.name@
            + "\" and all of its downloaded files from:\n"@ + order.install_dir@
            + "\n\nThis cannot be undone."@);
    }
}

/// Before the first launch of a game of this library its folder is looked into: beside the path
/// that it is launched by, or the folder itself. Once the user was warned, it is not.
pub proof fn the_user_is_warned_once(
    app: &mut DrydockApp,
    app_id: u32,
    question: Option<String>,
    folder: Option<GameFolder>,
    after: &DrydockApp,
    again: Option<GameFolder>,
    other: u32,
    before: Option<GameFolder>,
    still: Option<GameFolder>,
)
    requires
        call_ensures(DrydockApp::folder_to_look_in, (&*old(app), app_id), folder),
        call_ensures(DrydockApp::confirm_uncracked_launch, (app, app_id), question),
        *after == *final(app),
        call_ensures(DrydockApp::folder_to_look_in, (after, app_id), again),
        other != app_id,
        call_ensures(DrydockApp::folder_to_look_in, (&*old(app), other), before),
        call_ensures(DrydockApp::folder_to_look_in, (after, other), still),
    ensures
        question is Some <==> old(app).settings.installed_games@.contains_key(app_id),
        question is Some ==> again is None,
        folder is Some <==> old(app).settings.installed_games@.contains_key(app_id)
            && !old(app).library.launch_warned@.contains(app_id),
        folder matches Some(folder) ==> match folder {
            GameFolder::Folder(path) => path
                == old(app).settings.installed_games@[app_id].install_dir
                && !old(app).settings.launch_paths@.contains_key(app_id),
            GameFolder::Beside(exe, path) => path
                == old(app).settings.installed_games@[app_id].install_dir
                && old(app).settings.launch_paths@.contains_key(app_id)
                && exe == old(app).settings.launch_paths@[app_id],
        },
        still == before,
        final(app).settings == old(app).settings,
{
}

/// A chosen folder is the one that a game is added from, with an empty search; after a cancel there
/// is none.
pub proof fn the_chosen_folder_is_searched(
    app: &mut DrydockApp,
    folder: String,
    again: &mut DrydockApp,
)
    requires
        call_ensures(DrydockApp::begin_add_game, (app, folder), ()),
        *old(again) == *final(app),
        call_ensures(DrydockApp::cancel_add_game, (again,), ()),
    ensures
        final(app).library.add_game_folder == Some(folder),
        final(app).library.add_game_search@.len() == 0,
        final(app).library.selected == old(app).library.selected,
        final(app).settings == old(app).settings,
        final(again).library.add_game_folder is None,
        final(again).library.add_game_search@.len() == 0,
        final(again).library.selected == old(app).library.selected,
{
}

/// A game is added from a folder where both its root and its executable were found.
pub proof fn a_game_needs_its_root_and_executable(
    app_id: u32,
    name: String,
    root: Option<String>,
    exe: Option<String>,
    verdict: Result<AddGameOutcome, String>,
)
    requires
        call_ensures(add_game_verdict, (app_id, name, root, exe), verdict),
    ensures
        verdict is Ok <==> root is Some && exe is Some,
        verdict matches Ok(outcome) ==> outcome.app_id == app_id && outcome.name == name && Some(
            outcome.root,
        ) == root && Some(outcome.exe) == exe,
{
}

/// A download goes where the game is installed already; else into the folder that Steam names, under
/// Steam's own root.
pub proof fn a_download_goes_where_the_game_is(
    installed: Option<String>,
    steam_root: Option<String>,
    reported: Result<Option<String>, String>,
    root: Result<InstallRoot, String>,
)
    requires
        call_ensures(download_install_root, (installed, steam_root, reported), root),
    ensures
        installed matches Some(folder) ==> root == Ok::<InstallRoot, String>(
            InstallRoot::Folder(folder),
        ),
        root matches Ok(InstallRoot::Folder(folder)) ==> installed == Some(folder),
        root matches Ok(InstallRoot::InCommon { steam_root: at, folder }) ==> installed is None
            && steam_root == Some(at) && reported == Ok::<Option<String>, String>(Some(folder)),
        root is Ok <==> installed is Some || (steam_root is Some && (reported matches Ok(
            Some(_),
        ))),
        installed is None && steam_root is Some ==> (reported matches Err(error)
            ==> root == Err::<InstallRoot, String>(error)),
{
}

/// A download that is done is installed where its files were found, or where it was put; without an
/// executable it has none. Only a list of executables that could not be had stops it.
pub proof fn a_download_is_installed_where_it_is(
    app_id: u32,
    name: String,
    install_root: String,
    listed: &Result<Vec<String>, String>,
    found: Option<String>,
    exe: Option<String>,
    outcome: Result<AddGameOutcome, String>,
)
    requires
        call_ensures(
            download_install_outcome,
            (app_id, name, install_root, listed, found, exe),
            outcome,
        ),
    ensures
        outcome is Ok <==> *listed is Ok,
        outcome matches Err(error) ==> error@ == listed->Err_0@,
        outcome matches Ok(game) ==> {
            &&& game.app_id == app_id
            &&& game.name == name
            &&& found is Some ==> Some(game.root) == found
            &&& found is None ==> game.root == install_root
            &&& exe is Some ==> Some(game.exe) == exe
            &&& exe is None ==> game.exe@.len() == 0
        },
{
}

/// Executables are looked for in a folder, and only where Steam lists some; all of them are.
pub proof fn all_executables_are_looked_for(
    chosen_is_folder: bool,
    listed: Result<Vec<String>, String>,
    result: Result<Vec<String>, String>,
)
    requires
        call_ensures(executables_to_find, (chosen_is_folder, listed), result),
    ensures
        result is Ok <==> chosen_is_folder && listed is Ok && listed->Ok_0@.len() > 0,
        result is Ok ==> result == listed,
        chosen_is_folder && listed is Err ==> result == listed,
{
}

} // verus!
