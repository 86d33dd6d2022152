//! What the user does with the games of the library: launching, installing, removing and adding
//! them.
use crate::catalog::display_name;
use crate::downloads::{JobOrder, QueueEffect};
use crate::library::{entry_of, installed_game, text_of};
use crate::state::{
    DrydockApp, InstalledGame, LibraryState, Part, QueuedDownload, Settings, SideJobs, StatusLine,
};
use crate::text::{cat2, cat3, cat4, cat5, decimal, decimal_text, no_text};
use crate::types::Reply;
use std::collections::BTreeMap;
use vstd::prelude::*;

verus! {

broadcast use vstd::std_specs::hash::group_hash_axioms;

/// How a game is started.
pub enum LaunchTarget {
    /// By its own executable.
    Executable(String),
    /// By asking Steam to run the app.
    Steam,
}

/// Where to look for what a game needs to start.
pub enum GameFolder {
    /// In the folder that holds this executable, else in the second folder.
    Beside(String, String),
    /// In this folder.
    Folder(String),
}

/// A game found in a folder.
pub struct AddGameOutcome {
    pub app_id: u32,
    pub name: String,
    pub root: String,
    /// The executable to launch; no text where none was found.
    pub exe: String,
}

/// Where a finished download was installed.
pub enum InstallRoot {
    Folder(String),
    /// In this folder of Steam's common games folder.
    InCommon { steam_root: String, folder: String },
}

/// A game that is to be uninstalled.
pub struct UninstallOrder {
    pub name: String,
    pub install_dir: String,
    /// The question to ask first.
    pub question: String,
}

/// Puts a text into a table.
fn put_text(table: &mut BTreeMap<u32, String>, app_id: u32, text: String)
    ensures
        final(table)@ == old(table)@.insert(app_id, text),
{
    broadcast use vstd::std_specs::btree::group_btree_axioms;
    broadcast use vstd::laws_cmp::group_laws_cmp;

    assert(vstd::laws_cmp::obeys_cmp::<u32>());
    table.insert(app_id, text);
}

fn put_game(table: &mut BTreeMap<u32, InstalledGame>, app_id: u32, game: InstalledGame)
    ensures
        final(table)@ == old(table)@.insert(app_id, game),
{
    broadcast use vstd::std_specs::btree::group_btree_axioms;
    broadcast use vstd::laws_cmp::group_laws_cmp;

    assert(vstd::laws_cmp::obeys_cmp::<u32>());
    table.insert(app_id, game);
}

fn drop_game(table: &mut BTreeMap<u32, InstalledGame>, app_id: u32)
    ensures
        final(table)@ == old(table)@.remove(app_id),
{
    broadcast use vstd::std_specs::btree::group_btree_axioms;
    broadcast use vstd::laws_cmp::group_laws_cmp;

    assert(vstd::laws_cmp::obeys_cmp::<u32>());
    let ghost before = table@;
    table.remove(&app_id);
    assert(table@ =~= before.remove(app_id));
}

/// A queue without an app.
pub open spec fn queue_without(queue: Seq<QueuedDownload>, app_id: u32) -> Seq<QueuedDownload> {
    queue.filter(|item: QueuedDownload| item.app_id != app_id)
}

fn drop_queued(queue: &Vec<QueuedDownload>, app_id: u32) -> (rest: Vec<QueuedDownload>)
    ensures
        rest@ == queue_without(queue@, app_id),
{
    let ghost keep = |item: QueuedDownload| item.app_id != app_id;
    let mut rest: Vec<QueuedDownload> = Vec::new();
    let mut i: usize = 0;
    while i < queue.len()
        invariant
            i <= queue@.len(),
            keep == (|item: QueuedDownload| item.app_id != app_id),
            rest@ == queue@.take(i as int).filter(keep),
        decreases queue@.len() - i,
    {
        proof {
            assert(queue@.take(i + 1).drop_last() =~= queue@.take(i as int));
            reveal(Seq::filter);
        }
        if queue[i].app_id != app_id {
            rest.push(QueuedDownload { app_id: queue[i].app_id, name: queue[i].name.clone() });
        }
        i += 1;
    }
    assert(queue@.take(i as int) =~= queue@);
    rest
}

/// What the status bar says before Steam is asked to install a game: how putting the stored files
/// back went.
pub open spec fn restore_text(restored: Result<(bool, usize), String>) -> Seq<char> {
    match restored {
        Ok((lua, manifests)) => if manifests == 0 {
            Seq::empty()
        } else {
            "Restored the "@ + (if lua {
                "unlock and "@
            } else {
                Seq::empty()
            }) + decimal_text(manifests as nat) + " depot manifest(s). "@
        },
        Err(error) => "The stored files could not be restored ("@ + error@ + "). "@,
    }
}

fn restore_note(restored: &Result<(bool, usize), String>) -> (note: String)
    ensures
        note@ == restore_text(*restored),
{
    match restored {
        Ok((lua, manifests)) => {
            if *manifests == 0 {
                return String::new();
            }
            let number = decimal(*manifests as u64);
            let unlock = if *lua {
                "unlock and "
            } else {
                ""
            };
            proof {
                reveal_strlit("");
                assert(""@ =~= Seq::<char>::empty());
            }
            cat4("Restored the ", unlock, number.as_str(), " depot manifest(s). ")
        },
        Err(error) => cat3(
            "The stored files could not be restored (",
            error.as_str(),
            "). ",
        ),
    }
}

/// The name of a game that Drydock installed: as recorded, else as the catalog has it.
pub open spec fn installed_name(app: DrydockApp, app_id: u32) -> Seq<char> {
    let game = app.settings.installed_games@[app_id];
    if game.name@.len() == 0 {
        display_name(app.catalog.apps@, app_id)
    } else {
        game.name@
    }
}

/// The executables that a folder is searched for, or what to tell the user.
pub fn executables_to_find(chosen_is_folder: bool, listed: Result<Vec<String>, String>) -> (result:
    Result<Vec<String>, String>)
    ensures
        !chosen_is_folder ==> result is Err && result->Err_0@ == "Select the game's folder first."@,
        chosen_is_folder ==> match listed {
            Err(error) => result == Err::<Vec<String>, String>(error),
            Ok(list) => if list@.len() == 0 {
                &&& result is Err
                &&& result->Err_0@ == "Steam lists no launch executable for this game."@
            } else {
                result == Ok::<Vec<String>, String>(list)
            },
        },
{
    if !chosen_is_folder {
        return Err("Select the game's folder first.".to_owned());
    }
    match listed {
        Err(error) => Err(error),
        Ok(list) => if list.len() == 0 {
            Err("Steam lists no launch executable for this game.".to_owned())
        } else {
            Ok(list)
        },
    }
}

/// The verdict on a folder to add: `root` is the game's root in it, and `exe` the first of its
/// executables that is there.
pub fn add_game_verdict(
    app_id: u32,
    name: String,
    root: Option<String>,
    exe: Option<String>,
) -> (verdict: Result<AddGameOutcome, String>)
    ensures
        verdict is Ok <==> root is Some && exe is Some,
        verdict matches Ok(outcome) ==> outcome == (AddGameOutcome {
            app_id,
            name,
            root: root->0,
            exe: exe->0,
        }),
        root is None ==> verdict->Err_0@
            == "These files don't look like the selected game. Pick the correct game folder."@,
        root is Some && exe is None ==> verdict->Err_0@
            == "The launch executable could not be found in the folder."@,
{
    match root {
        None => Err(
            "These files don't look like the selected game. Pick the correct game folder.".to_owned(),
        ),
        Some(root) => match exe {
            None => Err("The launch executable could not be found in the folder.".to_owned()),
            Some(exe) => Ok(AddGameOutcome { app_id, name, root, exe }),
        },
    }
}

/// Where a finished download was installed: where Steam has the game, else in the folder that
/// Steam reports for it.
pub fn download_install_root(
    installed: Option<String>,
    steam_root: Option<String>,
    reported: Result<Option<String>, String>,
) -> (root: Result<InstallRoot, String>)
    ensures
        match (installed, steam_root, reported) {
            (Some(folder), _, _) => root == Ok::<InstallRoot, String>(InstallRoot::Folder(folder)),
            (None, None, _) => root is Err && root->Err_0@ == "Steam folder not found."@,
            (None, Some(_), Err(error)) => root == Err::<InstallRoot, String>(error),
            (None, Some(_), Ok(None)) => root is Err && root->Err_0@
                == "Steam did not report an install folder for this game."@,
            (None, Some(steam_root), Ok(Some(folder))) => root == Ok::<InstallRoot, String>(
                InstallRoot::InCommon { steam_root, folder },
            ),
        },
{
    if let Some(folder) = installed {
        return Ok(InstallRoot::Folder(folder));
    }
    let steam_root = match steam_root {
        Some(steam_root) => steam_root,
        None => {
            return Err("Steam folder not found.".to_owned());
        },
    };
    match reported {
        Err(error) => Err(error),
        Ok(None) => Err("Steam did not report an install folder for this game.".to_owned()),
        Ok(Some(folder)) => Ok(InstallRoot::InCommon { steam_root, folder }),
    }
}

/// What a finished download is registered as: `found` is the game's root where the executables
/// give one away, and `exe` the first of them that is there. Nothing is registered where the
/// executables could not be listed.
pub fn download_install_outcome(
    app_id: u32,
    name: String,
    install_root: String,
    listed: &Result<Vec<String>, String>,
    found: Option<String>,
    exe: Option<String>,
) -> (outcome: Result<AddGameOutcome, String>)
    ensures
        *listed matches Err(error) ==> (outcome matches Err(reported) && reported@ == error@),
        *listed is Ok ==> (outcome matches Ok(outcome) && {
            &&& outcome.app_id == app_id
            &&& outcome.name == name
            &&& outcome.root == (match found {
                Some(root) => root,
                None => install_root,
            })
            &&& match exe {
                Some(exe) => outcome.exe == exe,
                None => outcome.exe@ == Seq::<char>::empty(),
            }
        }),
{
    if let Err(error) = listed {
        return Err(error.clone());
    }
    Ok(
        AddGameOutcome {
            app_id,
            name,
            root: match found {
                Some(root) => root,
                None => install_root,
            },
            exe: match exe {
                Some(exe) => exe,
                None => String::new(),
            },
        },
    )
}

impl Settings {
    /// Whether `after` is these settings with a game registered. Its executable is recorded where
    /// one is known, and in any case where `always`.
    #[verifier::opaque]
    pub open spec fn registers(
        &self,
        outcome: AddGameOutcome,
        always: bool,
        after: Settings,
    ) -> bool {
        &&& after == (Settings {
            installed_games: after.installed_games,
            launch_paths: after.launch_paths,
            ..*self
        })
        &&& after.installed_games@ == self.installed_games@.insert(
            outcome.app_id,
            InstalledGame { name: outcome.name, install_dir: outcome.root },
        )
        &&& after.launch_paths@ == if always || outcome.exe@.len() > 0 {
            self.launch_paths@.insert(outcome.app_id, outcome.exe)
        } else {
            self.launch_paths@
        }
    }

    fn register(&mut self, outcome: AddGameOutcome, always: bool)
        ensures
            old(self).registers(outcome, always, *final(self)),
    {
        reveal(Settings::registers);
        let has_exe = always || !no_text(outcome.exe.as_str());
        put_game(
            &mut self.installed_games,
            outcome.app_id,
            InstalledGame { name: outcome.name, install_dir: outcome.root },
        );
        if has_exe {
            put_text(&mut self.launch_paths, outcome.app_id, outcome.exe);
        }
    }

    /// Whether `after` is these settings without a game that Drydock installed.
    pub open spec fn forgets(&self, app_id: u32, after: Settings) -> bool {
        &&& after == (Settings {
            installed_games: after.installed_games,
            download_queue: after.download_queue,
            ..*self
        })
        &&& after.installed_games@ == self.installed_games@.remove(app_id)
        &&& after.download_queue@ == queue_without(self.download_queue@, app_id)
    }

    fn forget(&mut self, app_id: u32)
        ensures
            old(self).forgets(app_id, *final(self)),
    {
        drop_game(&mut self.installed_games, app_id);
        let rest = drop_queued(&self.download_queue, app_id);
        self.download_queue = rest;
    }
}

/// A game that was uninstalled is neither installed nor queued any more, and every other one stays
/// as it was.
pub proof fn uninstalled_game_is_forgotten(before: Settings, app_id: u32, after: Settings)
    requires
        before.forgets(app_id, after),
    ensures
        !after.installed_games@.contains_key(app_id),
        forall|i: int|
            0 <= i < after.download_queue@.len() ==> (#[trigger] after.download_queue@[i]).app_id
                != app_id,
        forall|other: u32| #[trigger]
            before.installed_games@.contains_key(other) && other != app_id
                ==> after.installed_games@.contains_key(other) && after.installed_games@[other]
                == before.installed_games@[other],
{
    let keep = |item: QueuedDownload| item.app_id != app_id;
    assert forall|i: int| 0 <= i < after.download_queue@.len() implies (
    #[trigger] after.download_queue@[i]).app_id != app_id by {
        before.download_queue@.lemma_filter_pred(keep, i);
    }
}

impl DrydockApp {
    /// How a game of the library is started: a stored executable wins, else Steam is asked.
    pub fn launch_library_game(&self, app_id: u32) -> (target: LaunchTarget)
        ensures
            target == (match entry_of(self.settings.launch_paths@, app_id) {
                Some(path) => LaunchTarget::Executable(path),
                None => LaunchTarget::Steam,
            }),
    {
        match text_of(&self.settings.launch_paths, app_id) {
            Some(path) => LaunchTarget::Executable(path),
            None => LaunchTarget::Steam,
        }
    }

    /// Reports how starting a game went.
    pub fn game_launched(&mut self, by_steam: bool, started: Result<(), String>)
        ensures
            old(self).keeps_all_but(set![Part::Line], *final(self)),
            final(self).line.says(
                (match started {
                    Ok(_) => if by_steam {
                        "Asking Steam to launch the game"@
                    } else {
                        "Launching the game"@
                    },
                    Err(error) => if by_steam {
                        error@
                    } else {
                        "The game could not be launched: "@ + error@
                    },
                }),
                started is Err,
                old(self).line.busy,
            ),
    {
        match started {
            Ok(_) => {
                if by_steam {
                    self.report("Asking Steam to launch the game".to_owned(), false);
                } else {
                    self.report("Launching the game".to_owned(), false);
                }
            },
            Err(error) => {
                if by_steam {
                    self.report(error, true);
                } else {
                    let text = cat2("The game could not be launched: ", error.as_str());
                    self.report(text, true);
                }
            },
        }
    }

    /// Remembers the executable of a game. The settings are then to be saved.
    pub fn set_library_launch_path(&mut self, app_id: u32, file: String)
        ensures
            old(self).keeps_all_but(set![Part::Settings], *final(self)),
            final(self).settings == (Settings {
                launch_paths: final(self).settings.launch_paths,
                ..old(self).settings
            }),
            final(self).settings.launch_paths@ == old(self).settings.launch_paths@.insert(
                app_id,
                file,
            ),
    {
        put_text(&mut self.settings.launch_paths, app_id, file);
    }

    /// Reports how saving an executable went.
    pub fn launch_path_saved(&mut self, written: &Result<(), String>)
        ensures
            old(self).keeps_all_but(set![Part::Line], *final(self)),
            final(self).line.says(
                if *written is Err {
                    "The launch path could not be saved"@
                } else {
                    "Launch path saved"@
                },
                *written is Err,
                old(self).line.busy,
            ),
    {
        if written.is_err() {
            self.report("The launch path could not be saved".to_owned(), true);
        } else {
            self.report("Launch path saved".to_owned(), false);
        }
    }

    /// Reports how asking Steam to install a game went, and before that how its stored files were
    /// put back. A failure there does not keep Steam from being asked.
    pub fn install_steam_game(
        &mut self,
        restored: &Result<(bool, usize), String>,
        asked: Result<(), String>,
    )
        ensures
            old(self).keeps_all_but(set![Part::Line], *final(self)),
            final(self).line.says(
                restore_text(*restored) + (match asked {
                    Ok(_) => "Asking Steam to install the game"@,
                    Err(error) => error@,
                }),
                *restored is Err || asked is Err,
                old(self).line.busy,
            ),
    {
        let prefix = restore_note(restored);
        match asked {
            Ok(_) => {
                let text = cat2(prefix.as_str(), "Asking Steam to install the game");
                self.report(text, restored.is_err());
            },
            Err(error) => {
                let text = cat2(prefix.as_str(), error.as_str());
                self.report(text, true);
            },
        }
    }

    /// Reports how asking Steam to uninstall a game went.
    pub fn uninstall_steam_game(&mut self, asked: Result<(), String>)
        ensures
            old(self).keeps_all_but(set![Part::Line], *final(self)),
            final(self).line.says(
                (match asked {
                    Ok(_) => "Asking Steam to uninstall the game"@,
                    Err(error) => error@,
                }),
                asked is Err,
                old(self).line.busy,
            ),
    {
        match asked {
            Ok(_) => {
                self.report("Asking Steam to uninstall the game".to_owned(), false);
            },
            Err(error) => {
                self.report(error, true);
            },
        }
    }

    /// The question before an unlock is removed.
    pub fn remove_lua_question(&self, app_id: u32) -> (question: String)
        ensures
            question@ == "Delete the unlock Lua for \""@ + display_name(
                self.catalog.apps@,
                app_id,
            ) + "\" from Steam? You can add it again any time."@,
    {
        let name = self.catalog.app_display_name(app_id);
        cat3(
            "Delete the unlock Lua for \"",
            name.as_str(),
            "\" from Steam? You can add it again any time.",
        )
    }

    pub(crate) fn name_of_installed(&self, app_id: u32, game: &InstalledGame) -> (name: String)
        requires
            self.settings.installed_games@.contains_key(app_id),
            self.settings.installed_games@[app_id] == *game,
        ensures
            name@ == installed_name(*self, app_id),
    {
        if no_text(game.name.as_str()) {
            self.catalog.app_display_name(app_id)
        } else {
            game.name.clone()
        }
    }

    /// What uninstalling a game of Drydock needs, where there is such a game.
    pub fn uninstall_drydock_game(&self, app_id: u32) -> (order: Option<UninstallOrder>)
        ensures
            order is Some <==> self.settings.installed_games@.contains_key(app_id),
            order matches Some(order) ==> {
                let game = self.settings.installed_games@[app_id];
                &&& order.name@ == installed_name(*self, app_id)
                &&& order.install_dir == game.install_dir
                &&& order.question@ == "Delete \""@ + order.name@
                    + "\" and all of its downloaded files from:\n"@ + game.install_dir@
                    + "\n\nThis cannot be undone."@
            },
    {
        let game = match installed_game(&self.settings.installed_games, app_id) {
            Some(game) => game,
            None => {
                return None;
            },
        };
        let name = self.name_of_installed(app_id, &game);
        let question = cat5(
            "Delete \"",
            name.as_str(),
            "\" and all of its downloaded files from:\n",
            game.install_dir.as_str(),
            "\n\nThis cannot be undone.",
        );
        Some(UninstallOrder { name, install_dir: game.install_dir, question })
    }

    /// Takes the outcome of deleting a game's folder, and tells whether the settings are to be
    /// saved. A folder that could not be deleted keeps the game in the library.
    pub fn game_folder_deleted(&mut self, app_id: u32, deleted: Result<(), String>) -> (save: bool)
        ensures
            save == (deleted is Ok),
            old(self).keeps_all_but(set![Part::Settings, Part::Line], *final(self)),
            deleted matches Err(error) ==> {
                &&& final(self).settings == old(self).settings
                &&& final(self).line.says(
                    "Could not delete the game folder: "@ + error@,
                    true,
                    old(self).line.busy,
                )
            },
            deleted is Ok ==> {
                &&& final(self).line == old(self).line
                &&& old(self).settings.forgets(app_id, final(self).settings)
            },
    {
        match deleted {
            Err(error) => {
                let text = cat2("Could not delete the game folder: ", error.as_str());
                self.report(text, true);
                false
            },
            Ok(_) => {
                self.settings.forget(app_id);
                true
            },
        }
    }

    /// Reports an uninstalled game.
    pub fn uninstall_saved(&mut self, name: &str, written: &Result<(), String>)
        ensures
            old(self).keeps_all_but(set![Part::Line], *final(self)),
            final(self).line.says(
                if *written is Err {
                    "\""@ + name@ + "\" was deleted, but the change could not be saved"@
                } else {
                    "\""@ + name@ + "\" was uninstalled"@
                },
                *written is Err,
                old(self).line.busy,
            ),
    {
        if written.is_err() {
            let text = cat3("\"", name, "\" was deleted, but the change could not be saved");
            self.report(text, true);
        } else {
            let text = cat3("\"", name, "\" was uninstalled");
            self.report(text, false);
        }
    }

    /// Takes the folder of a game to add: the page becomes the picker for its game.
    pub fn begin_add_game(&mut self, folder: String)
        ensures
            old(self).keeps_all_but(set![Part::Library], *final(self)),
            final(self).library == (LibraryState {
                add_game_folder: Some(folder),
                add_game_search: final(self).library.add_game_search,
                ..old(self).library
            }),
            final(self).library.add_game_search@ == Seq::<char>::empty(),
    {
        self.library.add_game_folder = Some(folder);
        self.library.add_game_search = String::new();
    }

    /// Gives up adding a game.
    pub fn cancel_add_game(&mut self)
        ensures
            old(self).keeps_all_but(set![Part::Library], *final(self)),
            final(self).library == (LibraryState {
                add_game_folder: None,
                add_game_search: final(self).library.add_game_search,
                ..old(self).library
            }),
            final(self).library.add_game_search@ == Seq::<char>::empty(),
    {
        self.library.add_game_folder = None;
        self.library.add_game_search = String::new();
    }

    /// Begins the search of the chosen folder for a game. Returns the name to speak of it by, where
    /// the search is to be run.
    pub fn start_add_game_detect(&mut self, app_id: u32) -> (name: Option<String>)
        ensures
            name is Some <==> !old(self).side_jobs.add_game,
            old(self).keeps_all_but(set![Part::SideJobs, Part::Line], *final(self)),
            final(self).side_jobs == (SideJobs { add_game: true, ..old(self).side_jobs }),
            name is None ==> final(self).line == old(self).line,
            name matches Some(name) ==> {
                &&& name@ == display_name(old(self).catalog.apps@, app_id)
                &&& final(self).line.text == old(self).line.text
                &&& final(self).line.error == old(self).line.error
                &&& final(self).line.is_busy_with("Detecting "@ + name@ + "…"@)
            },
    {
        if self.side_jobs.add_game {
            return None;
        }
        let name = self.catalog.app_display_name(app_id);
        let label = cat3("Detecting ", name.as_str(), "…");
        self.side_jobs.add_game = true;
        self.line.busy = Some(label);
        Some(name)
    }

    /// Takes the end of the search for a game to add. A game that was found is registered and
    /// selected, and its name is returned: the settings are then to be saved.
    pub fn poll_add_game(&mut self, reply: Reply<Result<AddGameOutcome, String>>) -> (name: Option<
        String,
    >)
        ensures
            old(self).keeps_all_but(
                set![Part::SideJobs, Part::Line, Part::Settings, Part::Library],
                *final(self),
            ),
            final(self).side_jobs == (SideJobs {
                add_game: old(self).side_jobs.add_game && reply is Waiting,
                ..old(self).side_jobs
            }),
            name is Some <==> old(self).side_jobs.add_game && reply is Done && reply->Done_0 is Ok,
            name is None ==> {
                &&& final(self).settings == old(self).settings
                &&& final(self).library == old(self).library
            },
            !old(self).side_jobs.add_game || !(reply is Done) ==> final(self).line
                == old(self).line,
            old(self).side_jobs.add_game && reply is Done && reply->Done_0 is Err ==> final(self).line == (StatusLine { text: reply->Done_0->Err_0, error: true, busy: None }),
            name matches Some(name) ==> {
                let outcome = reply->Done_0->Ok_0;
                &&& name == outcome.name
                &&& final(self).line == (StatusLine { busy: None, ..old(self).line })
                &&& old(self).settings.registers(outcome, true, final(self).settings)
                &&& final(self).library == (LibraryState {
                    add_game_folder: None,
                    add_game_search: final(self).library.add_game_search,
                    selected: Some(outcome.app_id),
                    ..old(self).library
                })
                &&& final(self).library.add_game_search@ == Seq::<char>::empty()
            },
    {
        if !self.side_jobs.add_game {
            return None;
        }
        match reply {
            Reply::Waiting => None,
            Reply::Lost => {
                self.side_jobs.add_game = false;
                None
            },
            Reply::Done(Err(error)) => {
                self.side_jobs.add_game = false;
                self.line = StatusLine { text: error, error: true, busy: None };
                None
            },
            Reply::Done(Ok(outcome)) => {
                let name = self.take_found_game(outcome);
                Some(name)
            },
        }
    }

    fn take_found_game(&mut self, outcome: AddGameOutcome) -> (name: String)
        ensures
            old(self).keeps_all_but(
                set![Part::SideJobs, Part::Line, Part::Settings, Part::Library],
                *final(self),
            ),
            name == outcome.name,
            final(self).side_jobs == (SideJobs { add_game: false, ..old(self).side_jobs }),
            final(self).line == (StatusLine { busy: None, ..old(self).line }),
            old(self).settings.registers(outcome, true, final(self).settings),
            final(self).library == (LibraryState {
                add_game_folder: None,
                add_game_search: final(self).library.add_game_search,
                selected: Some(outcome.app_id),
                ..old(self).library
            }),
            final(self).library.add_game_search@ == Seq::<char>::empty(),
    {
        self.side_jobs.add_game = false;
        self.line.busy = None;
        let name = outcome.name.clone();
        self.library.selected = Some(outcome.app_id);
        self.settings.register(outcome, true);
        self.library.add_game_folder = None;
        self.library.add_game_search = String::new();
        name
    }

    /// Reports an added game.
    pub fn add_game_saved(&mut self, name: &str, written: &Result<(), String>)
        ensures
            old(self).keeps_all_but(set![Part::Line], *final(self)),
            final(self).line.says(
                if *written is Err {
                    "\""@ + name@ + "\" was added, but the change could not be saved"@
                } else {
                    "\""@ + name@ + "\" was added to your Drydock library"@
                },
                *written is Err,
                old(self).line.busy,
            ),
    {
        if written.is_err() {
            let text = cat3("\"", name, "\" was added, but the change could not be saved");
            self.report(text, true);
        } else {
            let text = cat3("\"", name, "\" was added to your Drydock library");
            self.report(text, false);
        }
    }

    /// Begins the search for where a finished download was installed. Tells whether it is to be
    /// run.
    pub fn start_download_install_detect(&mut self) -> (run: bool)
        ensures
            run == !old(self).side_jobs.download_install,
            old(self).keeps_all_but(set![Part::SideJobs], *final(self)),
            final(self).side_jobs == (SideJobs { download_install: true, ..old(self).side_jobs }),
    {
        if self.side_jobs.download_install {
            return false;
        }
        self.side_jobs.download_install = true;
        true
    }

    /// Takes the end of that search, and tells whether the settings are to be saved. This is quiet:
    /// the download's own message stays, and a failure is ignored, because the files are there and
    /// the game can be added by hand.
    pub fn poll_download_install(&mut self, reply: Reply<Result<AddGameOutcome, String>>) -> (save:
        bool)
        ensures
            old(self).keeps_all_but(set![Part::SideJobs, Part::Settings], *final(self)),
            final(self).side_jobs == (SideJobs {
                download_install: old(self).side_jobs.download_install && reply is Waiting,
                ..old(self).side_jobs
            }),
            save == (old(self).side_jobs.download_install && reply is Done
                && reply->Done_0 is Ok),
            !save ==> final(self).settings == old(self).settings,
            save ==> old(self).settings.registers(reply->Done_0->Ok_0, false, final(self).settings),
    {
        if !self.side_jobs.download_install {
            return false;
        }
        match reply {
            Reply::Waiting => false,
            Reply::Done(Ok(outcome)) => {
                self.side_jobs.download_install = false;
                self.settings.register(outcome, false);
                true
            },
            _ => {
                self.side_jobs.download_install = false;
                false
            },
        }
    }

    /// Takes the effect of queueing a game of Drydock for an update.
    pub fn update_drydock_game(
        &mut self,
        app_id: u32,
        effect: QueueEffect,
        written: Result<(), String>,
    ) -> (order: Option<JobOrder>)
        ensures
            old(self).keeps_all_but(set![Part::Downloads, Part::Line], *final(self)),
            final(self).line.says(
                "Checking "@ + display_name(old(self).catalog.apps@, app_id) + " for updates…"@,
                false,
                old(self).line.busy,
            ),
            effect == QueueEffect::Unchanged || effect == QueueEffect::PersistOnly ==> order is None
                && final(self).downloads == old(self).downloads,
            effect == QueueEffect::StartFront || effect == QueueEffect::SwitchToFront ==> exists|
                queued: DrydockApp,
            | #[trigger]
                old(self).effect_taken(effect, "Switching download…"@, written, queued, order)
                    && final(self).downloads == queued.downloads,
    {
        let name = self.catalog.app_display_name(app_id);
        let order = self.enqueue_download(name.as_str(), effect, written);
        let ghost queued = *self;
        let text = cat3("Checking ", name.as_str(), " for updates…");
        self.report(text, false);
        order
    }

    /// Reports a folder that could not be opened.
    pub fn folder_not_opened(&mut self, error: &str)
        ensures
            old(self).keeps_all_but(set![Part::Line], *final(self)),
            final(self).line.says(
                "Could not open folder: "@ + error@,
                true,
                old(self).line.busy,
            ),
    {
        let text = cat2("Could not open folder: ", error);
        self.report(text, true);
    }

    /// Where to look for what a game of Drydock needs to start, before it is launched. `None` where
    /// there is nothing to look for: the game is not Drydock's, or the user was told already.
    pub fn folder_to_look_in(&self, app_id: u32) -> (folder: Option<GameFolder>)
        ensures
            folder == (if self.library.launch_warned@.contains(app_id) {
                None
            } else {
                match (
                    entry_of(self.settings.installed_games@, app_id),
                    entry_of(self.settings.launch_paths@, app_id),
                ) {
                    (None, _) => None,
                    (Some(game), Some(exe)) => Some(GameFolder::Beside(exe, game.install_dir)),
                    (Some(game), None) => Some(GameFolder::Folder(game.install_dir)),
                }
            }),
    {
        if self.library.launch_warned.contains(&app_id) {
            return None;
        }
        match installed_game(&self.settings.installed_games, app_id) {
            None => None,
            Some(game) => match text_of(&self.settings.launch_paths, app_id) {
                Some(exe) => Some(GameFolder::Beside(exe, game.install_dir)),
                None => Some(GameFolder::Folder(game.install_dir)),
            },
        }
    }

    /// The question before a game of Drydock is launched whose folder lacks what it needs, and
    /// `None` for other games. It is asked once in a session for each game.
    pub fn confirm_uncracked_launch(&mut self, app_id: u32) -> (question: Option<String>)
        ensures
            question is Some <==> old(self).settings.installed_games@.contains_key(app_id),
            question is None ==> *final(self) == *old(self),
            question matches Some(text) ==> {
                &&& old(self).keeps_all_but(set![Part::Library], *final(self))
                &&& final(self).library == (LibraryState {
                    launch_warned: final(self).library.launch_warned,
                    ..old(self).library
                })
                &&& final(self).library.launch_warned@ == old(self).library.launch_warned@.insert(
                    app_id,
                )
                &&& text@ == "\""@ + installed_name(*old(self), app_id)
                    + "\" has no crack in its folder, so it will most likely refuse to start — a game downloaded in Drydock needs one (or an activation, for Denuvo titles).\n\nCrack it now?"@
            },
    {
        let name = match installed_game(&self.settings.installed_games, app_id) {
            Some(game) => self.name_of_installed(app_id, &game),
            None => {
                return None;
            },
        };
        self.library.launch_warned.insert(app_id);
        Some(
            cat3(
                "\"",
                name.as_str(),
                "\" has no crack in its folder, so it will most likely refuse to start — a game downloaded in Drydock needs one (or an activation, for Denuvo titles).\n\nCrack it now?",
            ),
        )
    }
}

/// A game that was registered can be launched by its executable afterwards.
pub proof fn registered_game_can_be_launched(
    before: Settings,
    outcome: AddGameOutcome,
    always: bool,
    after: Settings,
)
    requires
        before.registers(outcome, always, after),
        always || outcome.exe@.len() > 0,
    ensures
        entry_of(after.launch_paths@, outcome.app_id) == Some(outcome.exe),
        after.installed_games@.contains_key(outcome.app_id),
{
    reveal(Settings::registers);
}

} // verus!
