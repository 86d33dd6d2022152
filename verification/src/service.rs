//! The Steam Service, and adding apps to Steam and removing them.
use crate::catalog::display_name;
use crate::order::{ascending, precedes_is_irreflexive, sorted_unique};
use crate::rate_limiter::{in_window, retry_after, RateLimiter};
use crate::refresh::{seconds_to_wait, wait_seconds};
use crate::state::{
    AddedAppState, DrydockApp, Part, Settings, StatusLine, SteamJobs, SteamServiceState,
    SteamServiceStatus, SteamState, UnlockSource,
};
use crate::steam::copy_names;
use crate::text::{
    ascii_lowercase, ascii_lowered, cat2, cat3, cat4, decimal, decimal_text, decimal_wide, no_text,
    precedes, texts,
};
use crate::types::Reply;
use crate::unlocks::{lua_file_name, lua_name};
use std::collections::BTreeMap;
use vstd::prelude::*;

verus! {

/// What work on the Steam Service or on an unlock came to.
pub enum ServiceOutcome {
    /// How the Steam Service stands now, with a note that may be empty.
    Status { status: SteamServiceStatus, note: String },
    /// An app was added to Steam.
    Added { app_id: u32, files: Vec<String>, note: String, source: UnlockSource },
    /// An app was removed from Steam.
    Removed { app_id: u32, note: String },
}

/// What is to be done after work on the Steam Service has ended.
pub enum ServiceFollowUp {
    Nothing,
    /// Save the settings and scan the plug-in folder; then `service_saved` shows the note.
    Save { note: String },
    /// The same, and drop the app's stored copy: removing an app is the user being done with it.
    SaveAndForget { note: String, app_id: u32 },
}

/// What adding an app needs.
pub struct AddOrder {
    pub root: String,
    /// The name to speak of the app by.
    pub name: String,
}

/// What removing an app needs.
pub struct RemoveOrder {
    pub root: String,
    pub name: String,
    /// The names of the files to delete.
    pub files: Vec<String>,
}

/// What a refused request is told.
pub open spec fn too_many_adds_text(seconds: nat) -> Seq<char> {
    "Too many requests. Please wait "@ + decimal_text(seconds) + "s before adding another app."@
}

/// The note after the Steam Service was installed, by how starting Steam again went.
pub fn service_installed_note(started: &Result<(), String>) -> (note: String)
    ensures
        note@ == (match *started {
            Ok(_) => "Steam Service installed. Steam started."@,
            Err(error) => "The Steam Service was installed, but Steam could not be restarted: "@
                + error@,
        }),
{
    match started {
        Ok(_) => "Steam Service installed. Steam started.".to_owned(),
        Err(error) => cat2(
            "The Steam Service was installed, but Steam could not be restarted: ",
            error.as_str(),
        ),
    }
}

/// The note after the Steam Service was removed, by how starting Steam again went.
pub fn service_removed_note(started: &Result<(), String>) -> (note: String)
    ensures
        note@ == (match *started {
            Ok(_) => "Steam Service removed. Steam started."@,
            Err(error) => "The Steam Service was removed, but Steam could not be restarted: "@
                + error@,
        }),
{
    match started {
        Ok(_) => "Steam Service removed. Steam started.".to_owned(),
        Err(error) => cat2(
            "The Steam Service was removed, but Steam could not be restarted: ",
            error.as_str(),
        ),
    }
}

/// Whether an app may be added: only with a current Steam Service.
pub fn service_allows_adding(state: SteamServiceState) -> (allowed: Result<(), String>)
    ensures
        allowed is Ok <==> state == SteamServiceState::Current,
        allowed matches Err(error) ==> error@
            == "Install or update the Steam Service before adding an app."@,
{
    if state == SteamServiceState::Current {
        Ok(())
    } else {
        Err("Install or update the Steam Service before adding an app.".to_owned())
    }
}

/// Which unlock Lua to install for an app.
pub struct UnlockPlan {
    pub file_name: String,
    /// Whether the depot package's own Lua is the one to install. It is cut from the same build as
    /// the manifests beside it.
    pub from_package: bool,
    /// Why there are no manifests to go with it.
    pub no_manifests: Option<String>,
}

/// Which unlock Lua to install, given the name of the Lua in the app's depot package. Without a
/// package, or with one that carries no Lua, the provider's plain Lua is the fallback.
pub fn unlock_plan(app_id: u32, package: Result<Option<String>, String>) -> (plan: UnlockPlan)
    ensures
        match package {
            Ok(Some(name)) => plan == (UnlockPlan {
                file_name: name,
                from_package: true,
                no_manifests: None,
            }),
            Ok(None) => {
                &&& plan.file_name@ == lua_name(app_id)
                &&& !plan.from_package
                &&& plan.no_manifests matches Some(error) && error@
                    == "the depot package carried no unlock Lua"@
            },
            Err(error) => {
                &&& plan.file_name@ == lua_name(app_id)
                &&& !plan.from_package
                &&& plan.no_manifests == Some(error)
            },
        },
{
    match package {
        Ok(Some(name)) => UnlockPlan { file_name: name, from_package: true, no_manifests: None },
        Ok(None) => UnlockPlan {
            file_name: lua_file_name(app_id),
            from_package: false,
            no_manifests: Some("the depot package carried no unlock Lua".to_owned()),
        },
        Err(error) => UnlockPlan {
            file_name: lua_file_name(app_id),
            from_package: false,
            no_manifests: Some(error),
        },
    }
}

/// The text of `build_locked_note`.
pub open spec fn build_locked_text(
    name: Seq<char>,
    manifests: Result<(usize, String), String>,
) -> Seq<char> {
    "Cracked version of \""@ + name + "\" added to Steam"@ + (match manifests {
        Ok((count, _)) => if count == 0 {
            Seq::empty()
        } else {
            " with "@ + decimal_text(count as nat) + " depot manifest(s)"@
        },
        Err(_) => Seq::empty(),
    }) + ". Apply the Denuvo fix, then restart Steam."@ + (match manifests {
        Ok((_, backup)) => backup@,
        Err(_) => Seq::empty(),
    })
}

/// The note after the build-locked version of a game was added: how many depot manifests came with
/// it, and what is to be said about Drydock's own copy.
pub fn build_locked_note(name: &str, manifests: &Result<(usize, String), String>) -> (note: String)
    ensures
        note@ == build_locked_text(name@, *manifests),
{
    let mut with = String::new();
    let mut backup = String::new();
    if let Ok((count, kept)) = manifests {
        if *count > 0 {
            let number = decimal(*count as u64);
            with = cat3(" with ", number.as_str(), " depot manifest(s)");
        }
        backup = kept.clone();
    }
    let mut note = cat4(
        "Cracked version of \"",
        name,
        "\" added to Steam",
        with.as_str(),
    );
    note.append(". Apply the Denuvo fix, then restart Steam.");
    note.append(backup.as_str());
    note
}

/// The note after a build-locked fix was applied.
pub fn fix_applied_note(count: usize) -> (note: String)
    ensures
        note@ == "Denuvo fix applied — verified unlock installed, "@ + decimal_text(count as nat)
            + " game files replaced."@,
{
    let number = decimal(count as u64);
    cat3(
        "Denuvo fix applied — verified unlock installed, ",
        number.as_str(),
        " game files replaced.",
    )
}

/// The note after an app was removed.
pub fn removed_note(name: &str) -> (note: String)
    ensures
        note@ == "\""@ + name@ + "\" removed from Steam."@,
{
    cat3("\"", name, "\" removed from Steam.")
}

/// Whether a list holds `name`, capitals aside.
pub open spec fn holds_ignoring_case(names: Seq<Seq<char>>, name: Seq<char>) -> bool {
    exists|i: int|
        0 <= i < names.len() && ascii_lowered(#[trigger] names[i]) == ascii_lowered(name)
}

/// The names of the files to delete for an app: what was recorded when it was added, the app's
/// usual Lua name where the plug-in folder has its Lua under no recorded name, and that name alone
/// where nothing is known.
pub open spec fn files_to_remove(
    recorded: Seq<Seq<char>>,
    in_plugins: bool,
    app_id: u32,
) -> Seq<Seq<char>> {
    if in_plugins && !holds_ignoring_case(recorded, lua_name(app_id)) {
        recorded.push(lua_name(app_id))
    } else if recorded.len() == 0 {
        seq![lua_name(app_id)]
    } else {
        recorded
    }
}

fn lists_ignoring_case(names: &Vec<String>, name: &str) -> (found: bool)
    ensures
        found == holds_ignoring_case(texts(names@), name@),
{
    let wanted = ascii_lowercase(name);
    let mut i: usize = 0;
    while i < names.len()
        invariant
            i <= names@.len(),
            wanted@ == ascii_lowered(name@),
            forall|k: int| 0 <= k < i ==> ascii_lowered((#[trigger] names@[k])@) != wanted@,
        decreases names@.len() - i,
    {
        let lower = ascii_lowercase(names[i].as_str());
        if lower == wanted {
            assert(ascii_lowered(texts(names@)[i as int]) == ascii_lowered(name@));
            return true;
        }
        i += 1;
    }
    proof {
        if holds_ignoring_case(texts(names@), name@) {
            let k = choose|k: int|
                0 <= k < texts(names@).len() && ascii_lowered(#[trigger] texts(names@)[k])
                    == ascii_lowered(name@);
            assert(texts(names@)[k] == names@[k]@);
        }
    }
    false
}

/// The names of the files to delete for an app.
pub fn removal_names(recorded: Vec<String>, in_plugins: bool, app_id: u32) -> (names: Vec<String>)
    ensures
        texts(names@) == files_to_remove(texts(recorded@), in_plugins, app_id),
{
    let usual = lua_file_name(app_id);
    let mut names = recorded;
    let ghost before = texts(names@);
    let missing = in_plugins && !lists_ignoring_case(&names, usual.as_str());
    if missing || names.len() == 0 {
        names.push(usual);
        assert(texts(names@) =~= before.push(lua_name(app_id)));
        assert(before.len() == 0 ==> before.push(lua_name(app_id)) =~= seq![lua_name(app_id)]);
    }
    names
}

/// A removal always has a file to delete, and never overlooks a Lua in the plug-in folder under
/// the app's usual name.
pub proof fn removal_reaches_the_lua(recorded: Seq<Seq<char>>, in_plugins: bool, app_id: u32)
    ensures
        files_to_remove(recorded, in_plugins, app_id).len() > 0,
        in_plugins || recorded.len() == 0 ==> holds_ignoring_case(
            files_to_remove(recorded, in_plugins, app_id),
            lua_name(app_id),
        ),
        forall|i: int|
            0 <= i < recorded.len() ==> files_to_remove(recorded, in_plugins, app_id).contains(
                #[trigger] recorded[i],
            ),
{
    let names = files_to_remove(recorded, in_plugins, app_id);
    if in_plugins && !holds_ignoring_case(recorded, lua_name(app_id)) {
        assert(names[recorded.len() as int] == lua_name(app_id));
        assert forall|i: int| 0 <= i < recorded.len() implies names.contains(
            #[trigger] recorded[i],
        ) by {
            assert(names[i] == recorded[i]);
        }
    } else if recorded.len() == 0 {
        assert(names[0] == lua_name(app_id));
    }
}

/// The files recorded for an app.
fn recorded_files(added: &BTreeMap<u32, AddedAppState>, app_id: u32) -> (names: Vec<String>)
    ensures
        names@ == recorded_of(added@, app_id),
{
    broadcast use vstd::std_specs::btree::group_btree_axioms;
    broadcast use vstd::laws_cmp::group_laws_cmp;

    assert(vstd::laws_cmp::obeys_cmp::<u32>());
    match added.get(&app_id) {
        Some(state) => copy_names(&state.files),
        None => Vec::new(),
    }
}

/// The files recorded for an app.
pub open spec fn recorded_of(added: Map<u32, AddedAppState>, app_id: u32) -> Seq<String> {
    if added.contains_key(app_id) {
        added[app_id].files@
    } else {
        Seq::empty()
    }
}

/// What is recorded of an app that was just added: the names of its files, each once and in
/// ascending order. One that came without a file of its own keeps the files recorded before.
#[verifier::opaque]
pub open spec fn records_add(
    before: Map<u32, AddedAppState>,
    app_id: u32,
    files: Seq<String>,
    source: UnlockSource,
    after: Map<u32, AddedAppState>,
) -> bool {
    &&& after == before.insert(app_id, after[app_id])
    &&& after[app_id].source == Some(source)
    &&& files.len() == 0 ==> after[app_id].files@ == recorded_of(before, app_id)
    &&& files.len() > 0 ==> {
        let names = texts(after[app_id].files@);
        ascending(names) && names.to_set() == texts(files).to_set()
    }
}

impl Settings {
    fn record_add(&mut self, app_id: u32, files: Vec<String>, source: UnlockSource)
        ensures
            *final(self) == (Settings { added_apps: final(self).added_apps, ..*old(self) }),
            records_add(old(self).added_apps@, app_id, files@, source, final(self).added_apps@),
    {
        broadcast use vstd::std_specs::btree::group_btree_axioms;
        broadcast use vstd::laws_cmp::group_laws_cmp;

        reveal(records_add);
        assert(vstd::laws_cmp::obeys_cmp::<u32>());
        let names = if files.len() == 0 {
            recorded_files(&self.added_apps, app_id)
        } else {
            sorted_unique(&files)
        };
        self.added_apps.insert(app_id, AddedAppState { files: names, source: Some(source) });
    }

    fn record_removal(&mut self, app_id: u32)
        ensures
            *final(self) == (Settings { added_apps: final(self).added_apps, ..*old(self) }),
            final(self).added_apps@ == old(self).added_apps@.remove(app_id),
    {
        broadcast use vstd::std_specs::btree::group_btree_axioms;
        broadcast use vstd::laws_cmp::group_laws_cmp;

        assert(vstd::laws_cmp::obeys_cmp::<u32>());
        let ghost before = self.added_apps@;
        self.added_apps.remove(&app_id);
        assert(self.added_apps@ =~= before.remove(app_id));
    }
}

impl DrydockApp {
    /// Whether a user's action on the Steam Service may start now.
    pub open spec fn service_is_free(&self) -> bool {
        self.steam.root is Some && !self.steam_jobs.service
    }

    /// How the status bar stands where work on the Steam Service could not start: told that Steam
    /// is missing, or left alone while other work runs.
    pub open spec fn service_refusal(&self, after: StatusLine) -> bool {
        if self.steam.root is None {
            after.says(
                "Steam was not found. Select its folder in Settings."@,
                true,
                self.line.busy,
            )
        } else {
            after == self.line
        }
    }

    /// The Steam folder, where work on the Steam Service may start.
    fn free_service_root(&mut self) -> (root: Option<String>)
        ensures
            root is Some <==> old(self).service_is_free(),
            old(self).keeps_all_but(set![Part::Line], *final(self)),
            root is Some ==> root == old(self).steam.root && final(self).line == old(self).line,
            root is None ==> old(self).service_refusal(final(self).line),
    {
        let root = self.steam_root_or_error("Steam was not found. Select its folder in Settings.");
        if self.steam_jobs.service {
            return None;
        }
        root
    }

    /// Begins work on the Steam Service under a label.
    fn begin_service(&mut self, label: String)
        ensures
            old(self).keeps_all_but(set![Part::Line, Part::SteamJobs], *final(self)),
            final(self).steam_jobs == (SteamJobs { service: true, ..old(self).steam_jobs }),
            final(self).line == (StatusLine { busy: Some(label), ..old(self).line }),
    {
        self.steam_jobs.service = true;
        self.line.busy = Some(label);
    }

    /// The Steam folder to install or update the Steam Service in, or `None` where that cannot
    /// start now.
    pub fn install_steam_service(&mut self) -> (root: Option<String>)
        ensures
            old(self).keeps_all_but(set![Part::Line, Part::SteamJobs], *final(self)),
            root is Some <==> old(self).service_is_free(),
            root is None ==> {
                &&& final(self).steam_jobs == old(self).steam_jobs
                &&& old(self).service_refusal(final(self).line)
            },
            root is Some ==> {
                &&& root == old(self).steam.root
                &&& final(self).steam_jobs == (SteamJobs { service: true, ..old(self).steam_jobs })
                &&& final(self).line.text == old(self).line.text
                &&& final(self).line.error == old(self).line.error
                &&& final(self).line.is_busy_with(
                    if old(self).service_is_current() {
                        "Reinstalling the Steam Service…"@
                    } else {
                        "Installing the Steam Service…"@
                    },
                )
            },
    {
        let root = self.free_service_root();
        if root.is_none() {
            return None;
        }
        let reinstall = match &self.steam.service_status {
            Some(status) => status.state == SteamServiceState::Current,
            None => false,
        };
        let label = if reinstall {
            "Reinstalling the Steam Service…".to_owned()
        } else {
            "Installing the Steam Service…".to_owned()
        };
        self.begin_service(label);
        root
    }

    /// The Steam folder to remove the Steam Service from, or `None` where that cannot start now.
    pub fn uninstall_steam_service(&mut self) -> (root: Option<String>)
        ensures
            old(self).keeps_all_but(set![Part::Line, Part::SteamJobs], *final(self)),
            root is Some <==> old(self).service_is_free(),
            root is None ==> {
                &&& final(self).steam_jobs == old(self).steam_jobs
                &&& old(self).service_refusal(final(self).line)
            },
            root is Some ==> {
                &&& root == old(self).steam.root
                &&& final(self).steam_jobs == (SteamJobs { service: true, ..old(self).steam_jobs })
                &&& final(self).line.text == old(self).line.text
                &&& final(self).line.error == old(self).line.error
                &&& final(self).line.is_busy_with("Removing the Steam Service…"@)
            },
    {
        let root = self.free_service_root();
        if root.is_none() {
            return None;
        }
        self.begin_service("Removing the Steam Service…".to_owned());
        root
    }

    /// Whether another unlock download is within the limit now.
    pub open spec fn add_is_admitted(&self, now: u128) -> bool {
        in_window(self.download_limiter.hits@, now, self.download_limiter.window).len()
            < self.download_limiter.max
    }

    /// Whether `after` is the limiter once it has been asked at `now`.
    pub open spec fn limiter_asked(&self, now: u128, after: RateLimiter) -> bool {
        let hits = in_window(self.download_limiter.hits@, now, self.download_limiter.window);
        &&& after.window == self.download_limiter.window
        &&& after.max == self.download_limiter.max
        &&& after.hits@ == if self.add_is_admitted(now) {
            hits.push(now)
        } else {
            hits
        }
    }

    /// What the limiter's refusal says.
    pub open spec fn limit_text(&self, now: u128) -> Seq<char> {
        let hits = in_window(self.download_limiter.hits@, now, self.download_limiter.window);
        too_many_adds_text(
            wait_seconds(retry_after(hits, now, self.download_limiter.window)),
        )
    }

    fn admit_add(&mut self, now: u128) -> (admitted: bool)
        ensures
            old(self).keeps_all_but(set![Part::Line, Part::DownloadLimiter], *final(self)),
            admitted == old(self).add_is_admitted(now),
            old(self).limiter_asked(now, final(self).download_limiter),
            admitted ==> final(self).line == old(self).line,
            !admitted ==> final(self).line.says(
                old(self).limit_text(now),
                true,
                old(self).line.busy,
            ),
    {
        match self.download_limiter.check(now) {
            Ok(_) => true,
            Err(wait) => {
                let seconds = decimal_wide(seconds_to_wait(wait));
                let text = cat3(
                    "Too many requests. Please wait ",
                    seconds.as_str(),
                    "s before adding another app.",
                );
                self.report(text, true);
                false
            },
        }
    }

    /// Begins a change of an app's unlock: the app is marked so that a running sweep leaves it
    /// alone.
    fn begin_unlock_change(&mut self, app_id: u32, label: Option<String>)
        ensures
            old(self).keeps_all_but(
                set![Part::Line, Part::SteamJobs, Part::UnlockWrites],
                *final(self),
            ),
            final(self).steam_jobs == (SteamJobs { service: true, ..old(self).steam_jobs }),
            final(self).line == (if label is Some {
                StatusLine { busy: label, ..old(self).line }
            } else {
                old(self).line
            }),
            final(self).unlock_writes.touched_set() == old(self).unlock_writes.touched_set().insert(app_id),
            final(self).unlock_writes.right() == old(self).unlock_writes.right(),
    {
        if label.is_some() {
            self.line.busy = label;
        }
        self.steam_jobs.service = true;
        self.unlock_writes.touch(app_id);
    }

    /// Whether the unlock of `app_id` is being changed in `after`, on the user's behalf.
    pub open spec fn unlock_change_begun(&self, app_id: u32, after: DrydockApp) -> bool {
        &&& after.steam_jobs == (SteamJobs { service: true, ..self.steam_jobs })
        &&& after.unlock_writes.touched_set() == self.unlock_writes.touched_set().insert(app_id)
        &&& after.unlock_writes.right() == self.unlock_writes.right()
    }

    /// What the download and installation of an app's unlock needs, or `None` where that cannot
    /// start now. Steam is not restarted: the Steam Service picks the unlock up on its own.
    pub fn add_app_to_steam(&mut self, app_id: u32, now: u128) -> (order: Option<AddOrder>)
        ensures
            old(self).keeps_all_but(
                set![Part::Line, Part::SteamJobs, Part::DownloadLimiter, Part::UnlockWrites],
                *final(self),
            ),
            order is Some <==> old(self).service_is_free() && old(self).add_is_admitted(now),
            !old(self).service_is_free() ==> {
                &&& final(self).download_limiter == old(self).download_limiter
                &&& old(self).service_refusal(final(self).line)
            },
            old(self).service_is_free() ==> old(self).limiter_asked(
                now,
                final(self).download_limiter,
            ),
            old(self).service_is_free() && order is None ==> final(self).line.says(
                old(self).limit_text(now),
                true,
                old(self).line.busy,
            ),
            order is None ==> {
                &&& final(self).steam_jobs == old(self).steam_jobs
                &&& final(self).unlock_writes == old(self).unlock_writes
            },
            order matches Some(order) ==> {
                let name = display_name(old(self).catalog.apps@, app_id);
                &&& Some(order.root) == old(self).steam.root
                &&& order.name@ == name
                &&& old(self).unlock_change_begun(app_id, *final(self))
                &&& final(self).line.text == old(self).line.text
                &&& final(self).line.error == old(self).line.error
                &&& final(self).line.is_busy_with(
                    "Adding "@ + name + " to Steam and caching its manifests…"@,
                )
            },
    {
        let root = match self.free_service_root() {
            Some(root) => root,
            None => {
                return None;
            },
        };
        if !self.admit_add(now) {
            return None;
        }
        let name = self.catalog.app_display_name(app_id);
        let label = cat3("Adding ", name.as_str(), " to Steam and caching its manifests…");
        self.begin_unlock_change(app_id, Some(label));
        Some(AddOrder { root, name })
    }

    /// What the installation of the build-locked version of a game needs, or `None` where that
    /// cannot start now.
    pub fn add_cracked_to_steam(&mut self, app_id: u32, now: u128) -> (order: Option<AddOrder>)
        ensures
            old(self).keeps_all_but(
                set![Part::Line, Part::SteamJobs, Part::DownloadLimiter, Part::UnlockWrites],
                *final(self),
            ),
            order is Some <==> old(self).service_is_free() && old(self).catalog.offers_denuvo_fix(
                app_id,
            ) && old(self).add_is_admitted(now),
            !old(self).service_is_free() ==> {
                &&& final(self).download_limiter == old(self).download_limiter
                &&& old(self).service_refusal(final(self).line)
            },
            old(self).service_is_free() && !old(self).catalog.offers_denuvo_fix(app_id) ==> {
                &&& final(self).download_limiter == old(self).download_limiter
                &&& final(self).line.says(
                    "No cracked (Denuvo) version is available for this game."@,
                    true,
                    old(self).line.busy,
                )
            },
            old(self).service_is_free() && old(self).catalog.offers_denuvo_fix(app_id) ==> old(self).limiter_asked(now, final(self).download_limiter),
            old(self).service_is_free() && old(self).catalog.offers_denuvo_fix(app_id)
                && order is None ==> final(self).line.says(
                old(self).limit_text(now),
                true,
                old(self).line.busy,
            ),
            order is None ==> {
                &&& final(self).steam_jobs == old(self).steam_jobs
                &&& final(self).unlock_writes == old(self).unlock_writes
            },
            order matches Some(order) ==> {
                let name = display_name(old(self).catalog.apps@, app_id);
                &&& Some(order.root) == old(self).steam.root
                &&& order.name@ == name
                &&& old(self).unlock_change_begun(app_id, *final(self))
                &&& final(self).line.text == old(self).line.text
                &&& final(self).line.error == old(self).line.error
                &&& final(self).line.is_busy_with(
                    "Adding the cracked version of "@ + name
                        + " to Steam and caching its manifests…"@,
                )
            },
    {
        let root = match self.free_service_root() {
            Some(root) => root,
            None => {
                return None;
            },
        };
        if !self.catalog.has_denuvo_fix(app_id) {
            self.report("No cracked (Denuvo) version is available for this game.".to_owned(), true);
            return None;
        }
        if !self.admit_add(now) {
            return None;
        }
        let name = self.catalog.app_display_name(app_id);
        let label = cat3(
            "Adding the cracked version of ",
            name.as_str(),
            " to Steam and caching its manifests…",
        );
        self.begin_unlock_change(app_id, Some(label));
        Some(AddOrder { root, name })
    }

    /// Whether the user may pick files of their own to add now.
    pub fn may_add_own_unlock(&mut self) -> (allowed: bool)
        ensures
            allowed == old(self).service_is_free(),
            old(self).keeps_all_but(set![Part::Line], *final(self)),
            allowed ==> final(self).line == old(self).line,
            !allowed ==> old(self).service_refusal(final(self).line),
    {
        let root = self.free_service_root();
        root.is_some()
    }

    /// What the installation of the picked files needs. `read` holds the app that they are for, or
    /// why they are of no use; `None` there means that nothing was picked.
    pub fn add_own_unlock(&mut self, read: Option<Result<u32, String>>) -> (order: Option<
        AddOrder,
    >)
        ensures
            old(self).keeps_all_but(
                set![Part::Line, Part::SteamJobs, Part::UnlockWrites],
                *final(self),
            ),
            order is Some <==> old(self).service_is_free() && read is Some && read->0 is Ok,
            !old(self).service_is_free() ==> old(self).service_refusal(final(self).line),
            old(self).service_is_free() && read is None ==> final(self).line == old(self).line,
            old(self).service_is_free() && read is Some && read->0 is Err ==> final(self).line
                == (StatusLine { text: read->0->Err_0, error: true, busy: old(self).line.busy }),
            order is None ==> {
                &&& final(self).steam_jobs == old(self).steam_jobs
                &&& final(self).unlock_writes == old(self).unlock_writes
            },
            order matches Some(order) ==> {
                let app_id = read->0->Ok_0;
                let name = display_name(old(self).catalog.apps@, app_id);
                &&& Some(order.root) == old(self).steam.root
                &&& order.name@ == name
                &&& old(self).unlock_change_begun(app_id, *final(self))
                &&& final(self).line.text == old(self).line.text
                &&& final(self).line.error == old(self).line.error
                &&& final(self).line.is_busy_with(
                    "Adding your files for "@ + name + " to Steam…"@,
                )
            },
    {
        let root = match self.free_service_root() {
            Some(root) => root,
            None => {
                return None;
            },
        };
        let app_id: u32 = match read {
            None => {
                return None;
            },
            Some(Err(error)) => {
                self.report(error, true);
                return None;
            },
            Some(Ok(app_id)) => app_id,
        };
        let name = self.catalog.app_display_name(app_id);
        let label = cat3("Adding your files for ", name.as_str(), " to Steam…");
        self.begin_unlock_change(app_id, Some(label));
        Some(AddOrder { root, name })
    }

    /// What the removal of an app's unlock needs, or `None` where that cannot start now.
    pub fn remove_app_from_steam(&mut self, app_id: u32) -> (order: Option<RemoveOrder>)
        ensures
            old(self).keeps_all_but(
                set![Part::Line, Part::SteamJobs, Part::UnlockWrites],
                *final(self),
            ),
            order is Some <==> old(self).service_is_free(),
            order is None ==> {
                &&& final(self).steam_jobs == old(self).steam_jobs
                &&& final(self).unlock_writes == old(self).unlock_writes
                &&& old(self).service_refusal(final(self).line)
            },
            order matches Some(order) ==> {
                &&& Some(order.root) == old(self).steam.root
                &&& order.name@ == display_name(old(self).catalog.apps@, app_id)
                &&& texts(order.files@) == files_to_remove(
                    texts(recorded_of(old(self).settings.added_apps@, app_id)),
                    old(self).steam.plugin_luas@.contains(app_id),
                    app_id,
                )
                &&& old(self).unlock_change_begun(app_id, *final(self))
                &&& final(self).line == old(self).line
            },
    {
        broadcast use vstd::std_specs::btree::group_btree_axioms;
        broadcast use vstd::laws_cmp::group_laws_cmp;

        assert(vstd::laws_cmp::obeys_cmp::<u32>());
        let root = match self.free_service_root() {
            Some(root) => root,
            None => {
                return None;
            },
        };
        let name = self.catalog.app_display_name(app_id);
        let in_plugins = self.steam.plugin_luas.contains(&app_id);
        let recorded = recorded_files(&self.settings.added_apps, app_id);
        let files = removal_names(recorded, in_plugins, app_id);
        self.begin_unlock_change(app_id, None);
        Some(RemoveOrder { root, name, files })
    }

    /// Takes the end of work on the Steam Service or on an unlock, and tells what to do next.
    pub fn poll_service_action(&mut self, reply: Reply<Result<ServiceOutcome, String>>) -> (next:
        ServiceFollowUp)
        ensures
            old(self).keeps_all_but(
                set![Part::Line, Part::SteamJobs, Part::Steam, Part::Settings],
                *final(self),
            ),
            final(self).steam_jobs == (SteamJobs {
                service: old(self).steam_jobs.service && reply is Waiting,
                ..old(self).steam_jobs
            }),
            !old(self).steam_jobs.service || reply is Waiting ==> {
                &&& next is Nothing
                &&& final(self).line == old(self).line
                &&& final(self).steam == old(self).steam
                &&& final(self).settings == old(self).settings
            },
            old(self).steam_jobs.service ==> match reply {
                Reply::Waiting => true,
                Reply::Lost => {
                    &&& next is Nothing
                    &&& final(self).steam == old(self).steam
                    &&& final(self).settings == old(self).settings
                    &&& final(self).line.says(
                        "The Steam Service action ended unexpectedly"@,
                        true,
                        None,
                    )
                },
                Reply::Done(Err(error)) => {
                    &&& next is Nothing
                    &&& final(self).steam == old(self).steam
                    &&& final(self).settings == old(self).settings
                    &&& final(self).line.says(error@, true, None)
                },
                Reply::Done(Ok(ServiceOutcome::Status { status, note })) => {
                    &&& next is Nothing
                    &&& final(self).settings == old(self).settings
                    &&& final(self).steam == (SteamState {
                        service_status: Some(status),
                        ..old(self).steam
                    })
                    &&& note@.len() == 0 ==> final(self).line == (StatusLine {
                        busy: None,
                        ..old(self).line
                    })
                    &&& note@.len() > 0 ==> final(self).line.says(note@, false, None)
                },
                Reply::Done(Ok(ServiceOutcome::Added { app_id, files, note, source })) => {
                    &&& next == (ServiceFollowUp::Save { note })
                    &&& final(self).steam == old(self).steam
                    &&& final(self).line == (StatusLine { busy: None, ..old(self).line })
                    &&& final(self).settings == (Settings {
                        added_apps: final(self).settings.added_apps,
                        ..old(self).settings
                    })
                    &&& records_add(
                        old(self).settings.added_apps@,
                        app_id,
                        files@,
                        source,
                        final(self).settings.added_apps@,
                    )
                },
                Reply::Done(Ok(ServiceOutcome::Removed { app_id, note })) => {
                    &&& next == (ServiceFollowUp::SaveAndForget { note, app_id })
                    &&& final(self).steam == old(self).steam
                    &&& final(self).line == (StatusLine { busy: None, ..old(self).line })
                    &&& final(self).settings == (Settings {
                        added_apps: final(self).settings.added_apps,
                        ..old(self).settings
                    })
                    &&& final(self).settings.added_apps@ == old(self).settings.added_apps@.remove(app_id)
                },
            },
    {
        if !self.steam_jobs.service {
            return ServiceFollowUp::Nothing;
        }
        match reply {
            Reply::Waiting => {
                return ServiceFollowUp::Nothing;
            },
            Reply::Lost => {
                self.end_service("The Steam Service action ended unexpectedly".to_owned());
                return ServiceFollowUp::Nothing;
            },
            Reply::Done(Err(error)) => {
                self.end_service(error);
                return ServiceFollowUp::Nothing;
            },
            Reply::Done(Ok(ServiceOutcome::Status { status, note })) => {
                self.take_status(status, note);
                return ServiceFollowUp::Nothing;
            },
            Reply::Done(Ok(ServiceOutcome::Added { app_id, files, note, source })) => {
                self.steam_jobs.service = false;
                self.line.busy = None;
                self.settings.record_add(app_id, files, source);
                return ServiceFollowUp::Save { note };
            },
            Reply::Done(Ok(ServiceOutcome::Removed { app_id, note })) => {
                self.steam_jobs.service = false;
                self.line.busy = None;
                self.settings.record_removal(app_id);
                return ServiceFollowUp::SaveAndForget { note, app_id };
            },
        }
    }

    fn end_service(&mut self, error: String)
        ensures
            old(self).keeps_all_but(set![Part::Line, Part::SteamJobs], *final(self)),
            final(self).steam_jobs == (SteamJobs { service: false, ..old(self).steam_jobs }),
            final(self).line == (StatusLine { text: error, error: true, busy: None }),
    {
        self.steam_jobs.service = false;
        self.line = StatusLine { text: error, error: true, busy: None };
    }

    fn take_status(&mut self, status: SteamServiceStatus, note: String)
        ensures
            old(self).keeps_all_but(set![Part::Line, Part::SteamJobs, Part::Steam], *final(self)),
            final(self).steam_jobs == (SteamJobs { service: false, ..old(self).steam_jobs }),
            final(self).steam == (SteamState { service_status: Some(status), ..old(self).steam }),
            note@.len() == 0 ==> final(self).line == (StatusLine { busy: None, ..old(self).line }),
            note@.len() > 0 ==> final(self).line == (StatusLine {
                text: note,
                error: false,
                busy: None,
            }),
    {
        self.steam_jobs.service = false;
        self.line.busy = None;
        if !no_text(note.as_str()) {
            self.report(note, false);
        }
        self.steam.service_status = Some(status);
    }

    /// Shows the note of an add or a removal, marked as an error where the settings could not be
    /// saved.
    pub fn service_saved(&mut self, note: String, written: &Result<(), String>)
        ensures
            old(self).keeps_all_but(set![Part::Line], *final(self)),
            final(self).line == (StatusLine {
                text: note,
                error: *written is Err,
                busy: old(self).line.busy,
            }),
    {
        self.report(note, written.is_err());
    }
}

/// An app is known as added once the outcome of its addition has been taken.
pub proof fn added_app_is_recorded(
    before: Map<u32, AddedAppState>,
    app_id: u32,
    files: Seq<String>,
    source: UnlockSource,
    after: Map<u32, AddedAppState>,
)
    requires
        records_add(before, app_id, files, source, after),
    ensures
        after.contains_key(app_id),
        forall|other: u32| #[trigger]
            before.contains_key(other) && other != app_id ==> after.contains_key(other)
                && after[other] == before[other],
{
    reveal(records_add);
}

/// The names that an add records are those of its files, and each is recorded once.
pub proof fn recorded_names_are_distinct(
    before: Map<u32, AddedAppState>,
    app_id: u32,
    files: Seq<String>,
    source: UnlockSource,
    after: Map<u32, AddedAppState>,
)
    requires
        records_add(before, app_id, files, source, after),
        files.len() > 0,
    ensures
        texts(after[app_id].files@).no_duplicates(),
        forall|name: Seq<char>| #[trigger]
            texts(after[app_id].files@).contains(name) <==> texts(files).contains(name),
{
    reveal(records_add);
    let names = texts(after[app_id].files@);
    assert forall|i: int, j: int| 0 <= i < j < names.len() implies names[i] != names[j] by {
        assert(precedes(names[i], names[j]));
        precedes_is_irreflexive(names[i]);
    }
    assert forall|name: Seq<char>| #[trigger] names.contains(name) <==> texts(files).contains(
        name,
    ) by {
        assert(names.to_set().contains(name) <==> texts(files).to_set().contains(name));
    }
}

} // verus!
