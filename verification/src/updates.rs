//! Updates: of Drydock itself, and of the games, which Steam may update or not.
use crate::state::{DrydockApp, Part, Settings, StatusLine, SteamJobs};
use crate::text::{cat2, cat3, cat4, cat5, decimal, decimal_text};
use crate::types::{Reply, SteamManifest, Tone};
use std::collections::BTreeMap;
use vstd::prelude::*;

verus! {

/// What the marker of an update check holds: a check is repeated early only where one of these has
/// changed.
pub fn update_marker(version: &str, repository: &str, access_mode: &str) -> (marker: String)
    ensures
        marker@ == version@ + ":"@ + repository@ + ":"@ + access_mode@,
{
    cat5(version, ":", repository, ":", access_mode)
}

/// Whether Steam may update a game: as the user chose, else as the manifest on disk says, else it
/// may.
pub open spec fn is_allowed(
    chosen: Map<u32, bool>,
    app_id: u32,
    on_disk: Option<bool>,
) -> bool {
    if chosen.contains_key(app_id) {
        chosen[app_id]
    } else {
        match on_disk {
            Some(allowed) => allowed,
            None => true,
        }
    }
}

/// Whether Steam may update a game.
pub fn updates_allowed(chosen: &BTreeMap<u32, bool>, app_id: u32, on_disk: Option<bool>) -> (
    allowed: bool)
    ensures
        allowed == is_allowed(chosen@, app_id, on_disk),
{
    broadcast use vstd::std_specs::btree::group_btree_axioms;
    broadcast use vstd::laws_cmp::group_laws_cmp;

    assert(vstd::laws_cmp::obeys_cmp::<u32>());
    match chosen.get(&app_id) {
        Some(allowed) => *allowed,
        None => match on_disk {
            Some(allowed) => allowed,
            None => true,
        },
    }
}

/// A game on the updates page.
pub struct UpdateRow {
    pub app_id: u32,
    pub name: String,
    pub allowed: bool,
}

impl UpdateRow {
    /// The pill that shows a game's ID.
    pub fn id_label(&self) -> (label: String)
        ensures
            label@ == "APP "@ + decimal_text(self.app_id as nat),
    {
        let number = decimal(self.app_id as u64);
        cat2("APP ", number.as_str())
    }

    /// The pill that shows whether Steam may update the game.
    pub fn state_pill(&self) -> (pill: (&'static str, Tone))
        ensures
            (pill.0@, pill.1) == (if self.allowed {
                ("UPDATES ALLOWED"@, Tone::AccentSoft)
            } else {
                ("🛡 UPDATES BLOCKED"@, Tone::Danger)
            }),
    {
        if self.allowed {
            ("UPDATES ALLOWED", Tone::AccentSoft)
        } else {
            ("🛡 UPDATES BLOCKED", Tone::Danger)
        }
    }
}

/// How the games on the page stand: for each place whether Steam may update that game.
pub open spec fn allowances(
    chosen: Map<u32, bool>,
    manifests: Seq<SteamManifest>,
    on_disk: Seq<Option<bool>>,
) -> Seq<bool> {
    Seq::new(
        manifests.len(),
        |i: int|
            is_allowed(
                chosen,
                manifests[i].app_id,
                if i < on_disk.len() {
                    on_disk[i]
                } else {
                    None
                },
            ),
    )
}

/// How many games Steam may not update.
pub open spec fn blocked_count(allowed: Seq<bool>) -> nat
    decreases allowed.len(),
{
    if allowed.len() == 0 {
        0
    } else {
        blocked_count(allowed.drop_last()) + if allowed.last() {
            0nat
        } else {
            1nat
        }
    }
}

/// Whether `row` shows a game that stands like this.
pub open spec fn shows_game(row: UpdateRow, manifest: SteamManifest, allowed: bool) -> bool {
    &&& row.app_id == manifest.app_id
    &&& row.name@ == manifest.name@
    &&& row.allowed == allowed
}

/// What the updates page shows.
pub struct UpdatesView {
    pub protection_pill: (String, Tone),
    pub channel: &'static str,
    pub auto_update: (&'static str, Tone),
    /// Whether a check is under way.
    pub checking: bool,
    /// Whether a check can be asked for.
    pub can_check: bool,
    pub games_found: String,
    pub games: Vec<UpdateRow>,
}

fn list_games(
    chosen: &BTreeMap<u32, bool>,
    manifests: &Vec<SteamManifest>,
    on_disk: &Vec<Option<bool>>,
) -> (listed: (Vec<UpdateRow>, usize))
    ensures
        listed.0@.len() == manifests@.len(),
        forall|i: int|
            0 <= i < manifests@.len() ==> shows_game(
                #[trigger] listed.0@[i],
                manifests@[i],
                allowances(chosen@, manifests@, on_disk@)[i],
            ),
        listed.1 == blocked_count(allowances(chosen@, manifests@, on_disk@)),
{
    let ghost allowed = allowances(chosen@, manifests@, on_disk@);
    let mut games: Vec<UpdateRow> = Vec::new();
    let mut blocked: usize = 0;
    let mut i: usize = 0;
    while i < manifests.len()
        invariant
            i <= manifests@.len(),
            allowed == allowances(chosen@, manifests@, on_disk@),
            games@.len() == i,
            blocked <= i,
            blocked == blocked_count(allowed.take(i as int)),
            forall|k: int|
                0 <= k < i ==> shows_game(#[trigger] games@[k], manifests@[k], allowed[k]),
        decreases manifests@.len() - i,
    {
        let read: Option<bool> = if i < on_disk.len() {
            on_disk[i]
        } else {
            None
        };
        let app_id: u32 = manifests[i].app_id;
        let may = updates_allowed(chosen, app_id, read);
        assert(may == allowed[i as int]);
        assert(allowed.take(i + 1).drop_last() =~= allowed.take(i as int));
        assert(allowed.take(i + 1).last() == may);
        if !may {
            blocked += 1;
        }
        games.push(UpdateRow { app_id, name: manifests[i].name.clone(), allowed: may });
        i += 1;
    }
    assert(allowed.take(i as int) =~= allowed);
    (games, blocked)
}

impl Settings {
    /// These settings with the user's choice whether Steam may update a game.
    pub open spec fn with_choice(&self, app_id: u32, enabled: bool, after: Settings) -> bool {
        &&& after == (Settings {
            steam_updates_enabled: after.steam_updates_enabled,
            ..*self
        })
        &&& after.steam_updates_enabled@ == self.steam_updates_enabled@.insert(app_id, enabled)
    }

    /// Records the user's choice whether Steam may update a game.
    pub fn choose_updates(&mut self, app_id: u32, enabled: bool)
        ensures
            old(self).with_choice(app_id, enabled, *final(self)),
    {
        broadcast use vstd::std_specs::btree::group_btree_axioms;
        broadcast use vstd::laws_cmp::group_laws_cmp;

        assert(vstd::laws_cmp::obeys_cmp::<u32>());
        self.steam_updates_enabled.insert(app_id, enabled);
    }
}

impl DrydockApp {
    /// Starts a check for a newer Drydock, and tells whether it is to run. An automatic check is
    /// left out while its marker stands; one that is asked for is not.
    pub fn start_update_check(
        &mut self,
        automatic: bool,
        can_self_update: bool,
        marker_current: bool,
    ) -> (check: bool)
        ensures
            check == (!old(self).steam_jobs.update && can_self_update && !(automatic
                && marker_current)),
            old(self).keeps_all_but(set![Part::SteamJobs, Part::Line], *final(self)),
            check ==> {
                &&& final(self).steam_jobs == (SteamJobs { update: true, ..old(self).steam_jobs })
                &&& final(self).line.text@ == "Checking for a verified Drydock update…"@
                &&& !final(self).line.error
                &&& final(self).line.is_busy_with("Checking the release channel…"@)
            },
            !check ==> {
                &&& final(self).steam_jobs == old(self).steam_jobs
                &&& final(self).line == old(self).line
            },
    {
        if self.steam_jobs.update || !can_self_update {
            return false;
        }
        if automatic && marker_current {
            return false;
        }
        self.steam_jobs.update = true;
        self.line = StatusLine {
            text: "Checking for a verified Drydock update…".to_owned(),
            error: false,
            busy: Some("Checking the release channel…".to_owned()),
        };
        true
    }

    /// Takes what a check for a newer Drydock had to say. The version that comes back is to be
    /// launched; `update_launched` takes the outcome.
    pub fn poll_update(&mut self, reply: Reply<Result<Option<String>, String>>) -> (launch: Option<
        String,
    >)
        ensures
            ({
                let before = *old(self);
                let after = *final(self);
                let heard = before.steam_jobs.update && !(reply is Waiting);
                &&& before.keeps_all_but(set![Part::SteamJobs, Part::Line], after)
                &&& after.steam_jobs == if heard {
                    SteamJobs { update: false, ..before.steam_jobs }
                } else {
                    before.steam_jobs
                }
                &&& launch == (match reply {
                    Reply::Done(Ok(version)) if heard => version,
                    _ => None,
                })
                &&& match reply {
                    Reply::Done(Ok(Some(_))) if heard => after.line == (StatusLine {
                        busy: None,
                        ..before.line
                    }),
                    Reply::Done(Ok(None)) if heard => after.line.says(
                        "Drydock is up to date"@,
                        false,
                        None,
                    ),
                    Reply::Done(Err(error)) if heard => after.line.says(
                        "Update check failed: "@ + error@,
                        true,
                        None,
                    ),
                    Reply::Lost if heard => after.line.says(
                        "The update check ended unexpectedly"@,
                        true,
                        None,
                    ),
                    _ => after.line == before.line,
                }
            }),
    {
        if !self.steam_jobs.update {
            return None;
        }
        match reply {
            Reply::Waiting => None,
            Reply::Lost => {
                self.end_update_check();
                self.report("The update check ended unexpectedly".to_owned(), true);
                None
            },
            Reply::Done(Ok(Some(version))) => {
                self.end_update_check();
                Some(version)
            },
            Reply::Done(Ok(None)) => {
                self.end_update_check();
                self.report("Drydock is up to date".to_owned(), false);
                None
            },
            Reply::Done(Err(error)) => {
                self.end_update_check();
                let text = cat2("Update check failed: ", error.as_str());
                self.report(text, true);
                None
            },
        }
    }

    fn end_update_check(&mut self)
        ensures
            old(self).keeps_all_but(set![Part::SteamJobs, Part::Line], *final(self)),
            final(self).steam_jobs == (SteamJobs { update: false, ..old(self).steam_jobs }),
            final(self).line == (StatusLine { busy: None, ..old(self).line }),
    {
        self.steam_jobs.update = false;
        self.line.busy = None;
    }

    /// Takes the outcome of launching an update. Drydock closes for one that was launched.
    pub fn update_launched(&mut self, version: &str, launched: Result<(), String>)
        ensures
            old(self).keeps_all_but(set![Part::ExitForUpdate, Part::Line], *final(self)),
            match launched {
                Ok(_) => {
                    &&& final(self).exit_for_update
                    &&& final(self).line.says(
                        "Installing Drydock "@ + version@ + "…"@,
                        false,
                        old(self).line.busy,
                    )
                },
                Err(error) => {
                    &&& final(self).exit_for_update == old(self).exit_for_update
                    &&& final(self).line.says(
                        "Update could not be started: "@ + error@,
                        true,
                        old(self).line.busy,
                    )
                },
            },
    {
        match launched {
            Ok(_) => {
                let text = cat3("Installing Drydock ", version, "…");
                self.report(text, false);
                self.exit_for_update = true;
            },
            Err(error) => {
                let text = cat2("Update could not be started: ", error.as_str());
                self.report(text, true);
            },
        }
    }

    /// Switches the automatic update of Drydock; the settings are then to be written.
    pub fn set_auto_update(&mut self, enabled: bool)
        ensures
            old(self).keeps_all_but(set![Part::Settings], *final(self)),
            final(self).settings == (Settings {
                auto_update_drydock: enabled,
                ..old(self).settings
            }),
    {
        self.settings.auto_update_drydock = enabled;
    }

    /// Takes the outcome of writing the switched setting, which goes back to what it was where it
    /// could not be written.
    pub fn auto_update_saved(&mut self, previous: bool, written: Result<(), String>)
        ensures
            old(self).keeps_all_but(set![Part::Settings, Part::Line], *final(self)),
            match written {
                Ok(_) => {
                    &&& final(self).settings == old(self).settings
                    &&& final(self).line.says(
                        if old(self).settings.auto_update_drydock {
                            "Drydock auto update enabled"@
                        } else {
                            "Drydock auto update disabled"@
                        },
                        false,
                        old(self).line.busy,
                    )
                },
                Err(error) => {
                    &&& final(self).settings == (Settings {
                        auto_update_drydock: previous,
                        ..old(self).settings
                    })
                    &&& final(self).line.says(
                        "Auto-update setting could not be saved: "@ + error@,
                        true,
                        old(self).line.busy,
                    )
                },
            },
    {
        match written {
            Ok(_) => {
                let text = if self.settings.auto_update_drydock {
                    "Drydock auto update enabled".to_owned()
                } else {
                    "Drydock auto update disabled".to_owned()
                };
                self.report(text, false);
            },
            Err(error) => {
                self.settings.auto_update_drydock = previous;
                let text = cat2("Auto-update setting could not be saved: ", error.as_str());
                self.report(text, true);
            },
        }
    }

    /// Takes the outcome of changing a game's manifest, and tells whether the settings are to be
    /// written.
    pub fn manifest_changed(&mut self, app_id: u32, enabled: bool, changed: Result<(), String>) -> (
        save: bool)
        ensures
            save == (changed is Ok),
            old(self).keeps_all_but(set![Part::Settings, Part::Line], *final(self)),
            match changed {
                Ok(_) => {
                    &&& old(self).settings.with_choice(app_id, enabled, final(self).settings)
                    &&& final(self).line == old(self).line
                },
                Err(error) => {
                    &&& final(self).settings == old(self).settings
                    &&& final(self).line.says(error@, true, old(self).line.busy)
                },
            },
    {
        match changed {
            Ok(_) => {
                self.settings.choose_updates(app_id, enabled);
                true
            },
            Err(error) => {
                self.report(error, true);
                false
            },
        }
    }

    /// Takes the outcome of writing the user's choice. Where it could not be written, the manifest
    /// was changed back, with the outcome `rollback`, and the choice goes back too.
    pub fn choice_saved(
        &mut self,
        app_id: u32,
        enabled: bool,
        previous: bool,
        written: Result<(), String>,
        rollback: Result<(), String>,
    )
        ensures
            old(self).keeps_all_but(set![Part::Settings, Part::Line], *final(self)),
            match written {
                Ok(_) => {
                    &&& final(self).settings == old(self).settings
                    &&& final(self).line.says(
                        (if enabled {
                            "Updates enabled for App "@
                        } else {
                            "Updates blocked for App "@
                        }) + decimal_text(app_id as nat),
                        false,
                        old(self).line.busy,
                    )
                },
                Err(error) => {
                    &&& old(self).settings.with_choice(app_id, previous, final(self).settings)
                    &&& final(self).line.says(
                        match rollback {
                            Ok(_) =>
                            "Update preference was not saved and was rolled back: "@ + error@,
                            Err(second) =>
                            "Update preference was not saved and rollback failed: "@ + error@
                                + "; "@ + second@,
                        },
                        true,
                        old(self).line.busy,
                    )
                },
            },
    {
        match written {
            Ok(_) => {
                let number = decimal(app_id as u64);
                let text = if enabled {
                    cat2("Updates enabled for App ", number.as_str())
                } else {
                    cat2("Updates blocked for App ", number.as_str())
                };
                self.report(text, false);
            },
            Err(error) => {
                self.settings.choose_updates(app_id, previous);
                let text = match rollback {
                    Ok(_) => cat2(
                        "Update preference was not saved and was rolled back: ",
                        error.as_str(),
                    ),
                    Err(second) => cat4(
                        "Update preference was not saved and rollback failed: ",
                        error.as_str(),
                        "; ",
                        second.as_str(),
                    ),
                };
                self.report(text, true);
            },
        }
    }

    /// How the games stand: for each place whether Steam may update that game.
    pub open spec fn game_updates(&self, on_disk: Seq<Option<bool>>) -> Seq<bool> {
        allowances(self.settings.steam_updates_enabled@, self.steam.manifests@, on_disk)
    }

    /// What the updates page shows. `on_disk` holds, for each game that Steam has installed, what
    /// its manifest says, where it could be read.
    pub fn updates_page(
        &self,
        on_disk: &Vec<Option<bool>>,
        can_self_update: bool,
        own_repository: bool,
    ) -> (view: UpdatesView)
        ensures
            ({
                let blocked = blocked_count(self.game_updates(on_disk@));
                &&& blocked > 0 ==> view.protection_pill.0@ == "🛡 "@ + decimal_text(blocked)
                    + " Protected Games"@ && view.protection_pill.1 == Tone::Danger
                &&& blocked == 0 ==> view.protection_pill.0@ == "● All Updates Allowed"@
                    && view.protection_pill.1 == Tone::AccentSoft
            }),
            view.channel@ == if own_repository {
                "Verified binary updates downloaded on application launch from your configured release repository."@
            } else {
                "Official release channel with verified SHA-256 binary integrity checks on launch."@
            },
            (view.auto_update.0@, view.auto_update.1) == (if self.settings.auto_update_drydock {
                ("Automatic updates enabled on launch"@, Tone::Text)
            } else {
                ("Automatic updates disabled"@, Tone::Muted)
            }),
            view.checking == self.steam_jobs.update,
            view.can_check == (can_self_update && !self.steam_jobs.update),
            view.games_found@ == decimal_text(self.steam.manifests@.len()) + " games found"@,
            view.games@.len() == self.steam.manifests@.len(),
            forall|i: int|
                0 <= i < view.games@.len() ==> shows_game(
                    #[trigger] view.games@[i],
                    self.steam.manifests@[i],
                    self.game_updates(on_disk@)[i],
                ),
    {
        let (games, blocked) = list_games(
            &self.settings.steam_updates_enabled,
            &self.steam.manifests,
            on_disk,
        );
        let protection_pill = if blocked > 0 {
            let number = decimal(blocked as u64);
            (cat3("🛡 ", number.as_str(), " Protected Games"), Tone::Danger)
        } else {
            ("● All Updates Allowed".to_owned(), Tone::AccentSoft)
        };
        let count = decimal(self.steam.manifests.len() as u64);
        UpdatesView {
            protection_pill,
            channel: if own_repository {
                "Verified binary updates downloaded on application launch from your configured release repository."
            } else {
                "Official release channel with verified SHA-256 binary integrity checks on launch."
            },
            auto_update: if self.settings.auto_update_drydock {
                ("Automatic updates enabled on launch", Tone::Text)
            } else {
                ("Automatic updates disabled", Tone::Muted)
            },
            checking: self.steam_jobs.update,
            can_check: can_self_update && !self.steam_jobs.update,
            games_found: cat2(count.as_str(), " games found"),
            games,
        }
    }
}

/// A choice that could not be saved leaves the game as it stood, whatever the manifest on disk says.
pub proof fn unsaved_choice_is_undone(
    before: Settings,
    chosen: Settings,
    after: Settings,
    app_id: u32,
    enabled: bool,
    on_disk: Option<bool>,
    later: Option<bool>,
)
    requires
        before.with_choice(app_id, enabled, chosen),
        chosen.with_choice(
            app_id,
            is_allowed(before.steam_updates_enabled@, app_id, on_disk),
            after,
        ),
    ensures
        is_allowed(after.steam_updates_enabled@, app_id, later) == is_allowed(
            before.steam_updates_enabled@,
            app_id,
            on_disk,
        ),
        forall|other: u32, read: Option<bool>|
            other != app_id ==> is_allowed(after.steam_updates_enabled@, other, read)
                == is_allowed(before.steam_updates_enabled@, other, read),
{
}

/// The user's choice goes before what the manifest on disk says.
pub proof fn choice_decides(before: Settings, after: Settings, app_id: u32, enabled: bool, on_disk:
    Option<bool>)
    requires
        before.with_choice(app_id, enabled, after),
    ensures
        is_allowed(after.steam_updates_enabled@, app_id, on_disk) == enabled,
{
}

} // verus!
