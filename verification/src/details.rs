//! The details page of a game: what the store says about it, and what can be done with it.
use crate::catalog::{app_ids, first_at, repack_ids, repackers, Catalog};
use crate::helpers::{is_real_game, joined_or_unknown, value_or_unknown};
use crate::library::is_game;
use crate::state::{DetailsPage, DrydockApp, ListJobs, Part, SteamServiceState, SteamStoreDetails};
use crate::steam::{manifest_at, manifest_ids};
use crate::text::{
    blank, cat2, cat3, decimal, decimal_text, joined, no_text, texts, trim, trimmed,
};
use crate::types::{Page, RepackApp, RepackSource, Reply, Tone};
use vstd::prelude::*;

verus! {

/// What the user can ask for on the details page.
#[derive(Clone, Copy, Debug, PartialEq, Eq, Structural)]
pub enum DetailsAction {
    /// Add the latest unlock.
    AddToSteam,
    /// Add the build-locked unlock.
    AddCracked,
    RemoveFromSteam,
    /// Install the Steam Service, which adding an app needs.
    InstallService,
    ApplyDenuvoFix,
    /// Open the repack source at this place in the browser.
    Download(usize),
    /// Go to the activation page with this game.
    Activate,
    DepotDownload,
    DepotVerify,
}

/// How a build-locked fix stands.
#[derive(Clone, Copy, Debug, PartialEq, Eq, Structural)]
pub enum FixStatus {
    Applied,
    /// Another Lua is installed for the app.
    IncompatibleLua,
    NotApplied,
}

/// The fix of the app on the details page.
#[derive(Clone, Copy, Debug, PartialEq, Eq, Structural)]
pub struct FixPanelState {
    /// A background action is running.
    pub busy: bool,
    /// The game is installed, so that there is a folder for the fix.
    pub installed: bool,
    pub denuvo: Option<FixStatus>,
}

/// The repackers of the app on the details page.
pub struct RepackPanelState {
    pub repackers: Vec<String>,
}

/// What decides which buttons the details page has.
#[derive(Clone, Copy, Debug, PartialEq, Eq, Structural)]
pub struct DetailsState {
    pub is_added: bool,
    pub service_current: bool,
    /// Work on the Steam Service is in flight.
    pub busy: bool,
}

/// The state of the download buttons.
#[derive(Clone, Copy, Debug, PartialEq, Eq, Structural)]
pub struct DepotButtons {
    pub downloadable: bool,
    pub installed: bool,
    /// A depot job is at work.
    pub busy: bool,
}

/// A button of the details page.
pub struct DetailsButton {
    pub label: String,
    pub enabled: bool,
    pub action: DetailsAction,
    /// What hovering over it says; no text where nothing.
    pub hint: String,
}

/// A button of the details page, as contracts speak of it: label, whether it can be pressed, what
/// it asks for, and what hovering over it says.
pub open spec fn button_model(button: DetailsButton) -> (Seq<char>, bool, DetailsAction, Seq<char>) {
    (button.label@, button.enabled, button.action, button.hint@)
}

/// The models of a list of buttons.
pub open spec fn button_models(buttons: Seq<DetailsButton>) -> Seq<
    (Seq<char>, bool, DetailsAction, Seq<char>),
> {
    buttons.map_values(|button: DetailsButton| button_model(button))
}

/// The buttons that add or remove the app.
pub open spec fn add_buttons(state: DetailsState, has_fix: bool) -> Seq<
    (Seq<char>, bool, DetailsAction, Seq<char>),
> {
    if state.is_added {
        seq![
            (
                "UPDATE"@,
                !state.busy,
                DetailsAction::AddToSteam,
                "Re-fetch and re-install the latest unlock Lua"@,
            ),
            ("REMOVE FROM STEAM"@, !state.busy, DetailsAction::RemoveFromSteam, ""@),
        ]
    } else if state.service_current {
        seq![
            (
                "ADD LATEST VERSION TO STEAM"@,
                !state.busy,
                DetailsAction::AddToSteam,
                "Add the normal unlock so Steam installs the latest build"@,
            ),
        ] + (if has_fix {
            seq![
                (
                    "ADD CRACKED VERSION TO STEAM"@,
                    !state.busy,
                    DetailsAction::AddCracked,
                    "Add the build-locked unlock that pins the game to the cracked build"@,
                ),
            ]
        } else {
            Seq::empty()
        })
    } else {
        seq![
            (
                "INSTALL STEAM SERVICE"@,
                !state.busy,
                DetailsAction::InstallService,
                "The Steam Service must be installed before adding games. Click to install it now."@,
            ),
        ]
    }
}

/// What hovering over the fix button says.
pub open spec fn fix_hint(fix: FixPanelState, status: FixStatus) -> Seq<char> {
    if !fix.installed {
        "Install the game through Steam first."@
    } else if fix.busy {
        "A background action is already running."@
    } else {
        match status {
            FixStatus::Applied => "The verified fix Lua is installed. Re-apply to refresh the game files."@,
            FixStatus::IncompatibleLua => "A different Lua is installed for this app — applying replaces it with the verified fix Lua."@,
            FixStatus::NotApplied => ""@,
        }
    }
}

/// The button that applies the fix.
pub open spec fn fix_buttons(fix: Option<FixPanelState>) -> Seq<
    (Seq<char>, bool, DetailsAction, Seq<char>),
> {
    match fix {
        Some(fix) => match fix.denuvo {
            Some(status) => seq![
                (
                    if status == FixStatus::Applied {
                        "RE-APPLY DENUVO FIX"@
                    } else {
                        "APPLY DENUVO FIX"@
                    },
                    fix.installed && !fix.busy,
                    DetailsAction::ApplyDenuvoFix,
                    fix_hint(fix, status),
                ),
            ],
            None => Seq::empty(),
        },
        None => Seq::empty(),
    }
}

/// The button of one repacker, the name shown only where there are several.
pub open spec fn repack_button(repackers: Seq<Seq<char>>, at: int) -> (
    Seq<char>,
    bool,
    DetailsAction,
    Seq<char>,
) {
    (
        if repackers.len() == 1 {
            "DOWNLOAD REPACK"@
        } else {
            "DOWNLOAD REPACK ("@ + repackers[at] + ")"@
        },
        true,
        DetailsAction::Download(at as usize),
        "Open "@ + repackers[at] + " in your browser"@,
    )
}

/// The buttons of the repackers.
pub open spec fn repack_buttons(repack: Option<RepackPanelState>) -> Seq<
    (Seq<char>, bool, DetailsAction, Seq<char>),
> {
    match repack {
        Some(panel) => Seq::new(
            panel.repackers@.len(),
            |at: int| repack_button(texts(panel.repackers@), at),
        ),
        None => Seq::empty(),
    }
}

/// The button that goes to the activation page.
pub open spec fn activate_buttons(activation_required: bool) -> Seq<
    (Seq<char>, bool, DetailsAction, Seq<char>),
> {
    if activation_required {
        seq![
            (
                "ACTIVATE"@,
                true,
                DetailsAction::Activate,
                "Open Activation with this game preselected"@,
            ),
        ]
    } else {
        Seq::empty()
    }
}

fn push_button(
    buttons: &mut Vec<DetailsButton>,
    label: String,
    enabled: bool,
    action: DetailsAction,
    hint: String,
)
    ensures
        button_models(final(buttons)@) == button_models(old(buttons)@).push(
            (label@, enabled, action, hint@),
        ),
{
    let ghost before = button_models(buttons@);
    buttons.push(DetailsButton { label, enabled, action, hint });
    assert(button_models(buttons@) =~= before.push((label@, enabled, action, hint@)));
}

fn push_add_buttons(buttons: &mut Vec<DetailsButton>, state: DetailsState, has_fix: bool)
    ensures
        button_models(final(buttons)@) == button_models(old(buttons)@) + add_buttons(
            state,
            has_fix,
        ),
{
    let ghost before = button_models(buttons@);
    let ready = !state.busy;
    if state.is_added {
        push_button(
            buttons,
            "UPDATE".to_owned(),
            ready,
            DetailsAction::AddToSteam,
            "Re-fetch and re-install the latest unlock Lua".to_owned(),
        );
        push_button(
            buttons,
            "REMOVE FROM STEAM".to_owned(),
            ready,
            DetailsAction::RemoveFromSteam,
            "".to_owned(),
        );
    } else if state.service_current {
        push_button(
            buttons,
            "ADD LATEST VERSION TO STEAM".to_owned(),
            ready,
            DetailsAction::AddToSteam,
            "Add the normal unlock so Steam installs the latest build".to_owned(),
        );
        if has_fix {
            push_button(
                buttons,
                "ADD CRACKED VERSION TO STEAM".to_owned(),
                ready,
                DetailsAction::AddCracked,
                "Add the build-locked unlock that pins the game to the cracked build".to_owned(),
            );
        }
    } else {
        push_button(
            buttons,
            "INSTALL STEAM SERVICE".to_owned(),
            ready,
            DetailsAction::InstallService,
            "The Steam Service must be installed before adding games. Click to install it now.".to_owned(),
        );
    }
    assert(button_models(buttons@) =~= before + add_buttons(state, has_fix));
}

fn push_fix_buttons(buttons: &mut Vec<DetailsButton>, fix: Option<FixPanelState>)
    ensures
        button_models(final(buttons)@) == button_models(old(buttons)@) + fix_buttons(fix),
{
    let ghost before = button_models(buttons@);
    if let Some(fix) = fix {
        if let Some(status) = fix.denuvo {
            let label = match status {
                FixStatus::Applied => "RE-APPLY DENUVO FIX",
                _ => "APPLY DENUVO FIX",
            };
            let hint = if !fix.installed {
                "Install the game through Steam first."
            } else if fix.busy {
                "A background action is already running."
            } else {
                match status {
                    FixStatus::Applied => "The verified fix Lua is installed. Re-apply to refresh the game files.",
                    FixStatus::IncompatibleLua => "A different Lua is installed for this app — applying replaces it with the verified fix Lua.",
                    FixStatus::NotApplied => "",
                }
            };
            push_button(
                buttons,
                label.to_owned(),
                fix.installed && !fix.busy,
                DetailsAction::ApplyDenuvoFix,
                hint.to_owned(),
            );
        }
    }
    assert(button_models(buttons@) =~= before + fix_buttons(fix));
}

fn push_repack_buttons(buttons: &mut Vec<DetailsButton>, repack: Option<&RepackPanelState>)
    ensures
        button_models(final(buttons)@) == button_models(old(buttons)@) + repack_buttons(
            match repack {
                Some(panel) => Some(*panel),
                None => None,
            },
        ),
{
    let ghost before = button_models(buttons@);
    if let Some(panel) = repack {
        let ghost names = texts(panel.repackers@);
        let ghost all = repack_buttons(Some(*panel));
        let single = panel.repackers.len() == 1;
        let mut i: usize = 0;
        assert(before + all.take(0) =~= before);
        while i < panel.repackers.len()
            invariant
                i <= panel.repackers@.len(),
                names == texts(panel.repackers@),
                all == repack_buttons(Some(*panel)),
                single == (panel.repackers@.len() == 1),
                button_models(buttons@) == before + all.take(i as int),
            decreases panel.repackers@.len() - i,
        {
            let name = panel.repackers[i].as_str();
            let label = if single {
                "DOWNLOAD REPACK".to_owned()
            } else {
                cat3("DOWNLOAD REPACK (", name, ")")
            };
            let hint = cat3("Open ", name, " in your browser");
            push_button(buttons, label, true, DetailsAction::Download(i), hint);
            assert(all.take(i + 1) =~= all.take(i as int).push(all[i as int]));
            assert(all[i as int] == repack_button(names, i as int));
            assert(button_models(buttons@) =~= before + all.take(i + 1));
            i += 1;
        }
        assert(all.take(i as int) =~= all);
    } else {
        assert(button_models(buttons@) =~= before + Seq::<
            (Seq<char>, bool, DetailsAction, Seq<char>),
        >::empty());
    }
}

/// Whether a panel says that the app has a fix.
pub open spec fn has_fix(fix: Option<FixPanelState>) -> bool {
    fix matches Some(fix) && fix.denuvo is Some
}

/// The buttons of the details page, in order.
pub open spec fn button_row(
    state: DetailsState,
    fix: Option<FixPanelState>,
    repack: Option<RepackPanelState>,
    activation_required: bool,
) -> Seq<(Seq<char>, bool, DetailsAction, Seq<char>)> {
    add_buttons(state, has_fix(fix)) + fix_buttons(fix) + repack_buttons(repack) + activate_buttons(
        activation_required,
    )
}

/// The buttons of the details page, in order.
pub fn steam_button_row(
    state: DetailsState,
    fix: Option<FixPanelState>,
    repack: Option<&RepackPanelState>,
    activation_required: bool,
) -> (buttons: Vec<DetailsButton>)
    ensures
        button_models(buttons@) == button_row(
            state,
            fix,
            (match repack {
                Some(panel) => Some(*panel),
                None => None,
            }),
            activation_required,
        ),
{
    let mut buttons: Vec<DetailsButton> = Vec::new();
    let fixable = match &fix {
        Some(fix) => fix.denuvo.is_some(),
        None => false,
    };
    push_add_buttons(&mut buttons, state, fixable);
    push_fix_buttons(&mut buttons, fix);
    push_repack_buttons(&mut buttons, repack);
    let ghost before = button_models(buttons@);
    if activation_required {
        push_button(
            &mut buttons,
            "ACTIVATE".to_owned(),
            true,
            DetailsAction::Activate,
            "Open Activation with this game preselected".to_owned(),
        );
    }
    assert(button_models(buttons@) =~= before + activate_buttons(activation_required));
    assert(button_models(buttons@) =~= button_row(
        state,
        fix,
        (match repack {
            Some(panel) => Some(*panel),
            None => None,
        }),
        activation_required,
    ));
    buttons
}

/// An app can be added from its page only with a current Steam Service, and only while no other
/// work on the Service is in flight.
pub proof fn adding_needs_the_service(state: DetailsState, fixable: bool, i: int)
    requires
        0 <= i < add_buttons(state, fixable).len(),
        !state.is_added,
        add_buttons(state, fixable)[i].2 == DetailsAction::AddToSteam || add_buttons(
            state,
            fixable,
        )[i].2 == DetailsAction::AddCracked,
    ensures
        state.service_current,
        add_buttons(state, fixable)[i].1 == !state.busy,
{
}

impl DepotButtons {
    /// The label of the download button and what hovering over it says.
    pub fn download_button(&self) -> (button: (&'static str, &'static str))
        ensures
            button.0@ == (if self.busy {
                "ADD TO QUEUE"@
            } else if self.installed {
                "DOWNLOAD / REPAIR"@
            } else {
                "DOWNLOAD IN DRYDOCK"@
            }),
            button.1@ == (if self.busy {
                "Queue this game — it starts once the current download finishes"@
            } else {
                "Download the real game files into your Steam library (manifest + depot key → Steam CDN)"@
            }),
    {
        let label = if self.busy {
            "ADD TO QUEUE"
        } else if self.installed {
            "DOWNLOAD / REPAIR"
        } else {
            "DOWNLOAD IN DRYDOCK"
        };
        let hint = if self.busy {
            "Queue this game — it starts once the current download finishes"
        } else {
            "Download the real game files into your Steam library (manifest + depot key → Steam CDN)"
        };
        (label, hint)
    }

    /// Whether the files can be verified: `None` where there is no such button.
    pub fn verify_button(&self) -> (enabled: Option<bool>)
        ensures
            enabled == (if self.installed {
                Some(!self.busy)
            } else {
                None
            }),
    {
        if self.installed {
            Some(!self.busy)
        } else {
            None
        }
    }
}

/// A fact on the details page.
pub struct Fact {
    pub label: &'static str,
    pub value: String,
    pub tone: Tone,
}

/// The models of a list of facts.
pub open spec fn fact_models(facts: Seq<Fact>) -> Seq<(Seq<char>, Seq<char>, Tone)> {
    facts.map_values(|fact: Fact| (fact.label@, fact.value@, fact.tone))
}

/// Names in one line, or that they are not known.
pub open spec fn names_or_unknown(names: Seq<String>) -> Seq<char> {
    if names.len() == 0 {
        "Not available"@
    } else {
        joined(texts(names), ", "@)
    }
}

/// A text, or that it is not known.
pub open spec fn text_or_unknown(text: Seq<char>) -> Seq<char> {
    if blank(text) {
        "Not available"@
    } else {
        text
    }
}

fn push_fact(facts: &mut Vec<Fact>, label: &'static str, value: String, tone: Tone)
    ensures
        fact_models(final(facts)@) == fact_models(old(facts)@).push((label@, value@, tone)),
{
    let ghost before = fact_models(facts@);
    facts.push(Fact { label, value, tone });
    assert(fact_models(facts@) =~= before.push((label@, value@, tone)));
}

/// What the sidebar says of a game that needs activation.
pub open spec fn activation_notice(notice: Seq<char>) -> Seq<char> {
    if trimmed(notice).len() == 0 {
        "Denuvo — activation required"@
    } else {
        trimmed(notice) + " — activation required"@
    }
}

/// What the features say of a game's copy protection.
pub open spec fn protection_text(notice: Seq<char>, activation_required: bool) -> Seq<char> {
    if !activation_required {
        "None — no activation needed"@
    } else if trimmed(notice).len() == 0 {
        "Denuvo Anti-Tamper — Drydock activation required"@
    } else {
        trimmed(notice) + " — Drydock activation required"@
    }
}

impl SteamStoreDetails {
    /// The facts in the sidebar.
    pub open spec fn sidebar(&self, activation_required: bool) -> Seq<
        (Seq<char>, Seq<char>, Tone),
    > {
        seq![
            ("ALL REVIEWS"@, self.reviews@, Tone::AccentSoft),
            ("RELEASED"@, text_or_unknown(self.release_date@), Tone::Text),
            ("DEVELOPER"@, names_or_unknown(self.developers@), Tone::Accent),
            ("PUBLISHER"@, names_or_unknown(self.publishers@), Tone::Accent),
        ] + (if activation_required {
            seq![("DRM"@, activation_notice(self.drm_notice@), Tone::Amber)]
        } else {
            Seq::empty()
        })
    }

    /// The facts in the sidebar.
    pub fn details_store_sidebar(&self, activation_required: bool) -> (facts: Vec<Fact>)
        ensures
            fact_models(facts@) == self.sidebar(activation_required),
    {
        let mut facts: Vec<Fact> = Vec::new();
        push_fact(&mut facts, "ALL REVIEWS", self.reviews.clone(), Tone::AccentSoft);
        push_fact(
            &mut facts,
            "RELEASED",
            value_or_unknown(self.release_date.as_str()),
            Tone::Text,
        );
        push_fact(&mut facts, "DEVELOPER", joined_or_unknown(&self.developers), Tone::Accent);
        push_fact(&mut facts, "PUBLISHER", joined_or_unknown(&self.publishers), Tone::Accent);
        if activation_required {
            let notice = trim(self.drm_notice.as_str());
            let text = if no_text(notice.as_str()) {
                "Denuvo — activation required".to_owned()
            } else {
                cat2(notice.as_str(), " — activation required")
            };
            push_fact(&mut facts, "DRM", text, Tone::Amber);
        }
        assert(fact_models(facts@) =~= self.sidebar(activation_required));
        facts
    }

    /// The facts about features and copy protection.
    pub open spec fn features(&self, activation_required: bool) -> Seq<
        (Seq<char>, Seq<char>, Tone),
    > {
        seq![
            ("PLATFORMS"@, names_or_unknown(self.platforms@), Tone::Text),
            (
                "METACRITIC"@,
                match self.metacritic_score {
                    Some(score) => decimal_text(score as nat) + " / 100"@,
                    None => "Not rated"@,
                },
                Tone::Text,
            ),
            (
                "THIRD-PARTY DRM"@,
                protection_text(self.drm_notice@, activation_required),
                if activation_required {
                    Tone::Amber
                } else {
                    Tone::Text
                },
            ),
        ]
    }

    /// The facts about features and copy protection.
    pub fn details_features(&self, activation_required: bool) -> (facts: Vec<Fact>)
        ensures
            fact_models(facts@) == self.features(activation_required),
    {
        let mut facts: Vec<Fact> = Vec::new();
        push_fact(&mut facts, "PLATFORMS", joined_or_unknown(&self.platforms), Tone::Text);
        let score = match self.metacritic_score {
            Some(score) => {
                let number = decimal(score as u64);
                cat2(number.as_str(), " / 100")
            },
            None => "Not rated".to_owned(),
        };
        push_fact(&mut facts, "METACRITIC", score, Tone::Text);
        let protection = if activation_required {
            let notice = trim(self.drm_notice.as_str());
            if no_text(notice.as_str()) {
                "Denuvo Anti-Tamper — Drydock activation required".to_owned()
            } else {
                cat2(notice.as_str(), " — Drydock activation required")
            }
        } else {
            "None — no activation needed".to_owned()
        };
        let tone = if activation_required {
            Tone::Amber
        } else {
            Tone::Text
        };
        push_fact(&mut facts, "THIRD-PARTY DRM", protection, tone);
        assert(fact_models(facts@) =~= self.features(activation_required));
        facts
    }

    /// The description, and whether there is one.
    pub fn details_about(&self) -> (about: (String, bool))
        ensures
            about.1 == (self.about_the_game@.len() > 0),
            about.0@ == (if self.about_the_game@.len() > 0 {
                self.about_the_game@
            } else {
                "No description is available."@
            }),
    {
        if no_text(self.about_the_game.as_str()) {
            ("No description is available.".to_owned(), false)
        } else {
            (self.about_the_game.clone(), true)
        }
    }

    /// The tags that the sidebar shows: the first few genres.
    pub fn shown_genres(&self) -> (tags: Vec<String>)
        ensures
            tags@ == (if self.genres@.len() <= 14 {
                self.genres@
            } else {
                self.genres@.take(14)
            }),
    {
        let mut tags: Vec<String> = Vec::new();
        let mut i: usize = 0;
        while i < self.genres.len() && i < 14
            invariant
                i <= self.genres@.len(),
                i <= 14,
                tags@ =~= self.genres@.take(i as int),
            decreases self.genres@.len() - i,
        {
            tags.push(self.genres[i].clone());
            assert(self.genres@.take(i + 1) =~= self.genres@.take(i as int).push(
                self.genres@[i as int],
            ));
            i += 1;
        }
        assert(self.genres@.take(self.genres@.len() as int) =~= self.genres@);
        tags
    }
}

/// What a column of requirements says, and whether anything is known.
pub fn requirement_column(value: &str) -> (column: (String, bool))
    ensures
        column.1 == (value@.len() > 0),
        column.0@ == (if value@.len() > 0 {
            value@
        } else {
            "Not specified"@
        }),
{
    if no_text(value) {
        ("Not specified".to_owned(), false)
    } else {
        (value.to_owned(), true)
    }
}

impl DetailsPage {
    /// The picture that is shown, of `count`.
    pub open spec fn shown_picture(&self, count: nat) -> nat {
        if self.screenshot_index < count {
            self.screenshot_index as nat
        } else {
            (count - 1) as nat
        }
    }

    /// The picture that is shown, and the badge that counts it where there are several.
    pub fn screenshot_gallery(&self, count: usize) -> (shown: (usize, Option<String>))
        requires
            count > 0,
        ensures
            shown.0 == self.shown_picture(count as nat),
            shown.0 < count,
            shown.1 is Some <==> count > 1,
            shown.1 matches Some(badge) ==> badge@ == decimal_text(
                self.shown_picture(count as nat) + 1,
            ) + " / "@ + decimal_text(count as nat),
    {
        let at: usize = if self.screenshot_index < count {
            self.screenshot_index
        } else {
            count - 1
        };
        let badge = if count > 1 {
            let place = decimal((at + 1) as u64);
            let total = decimal(count as u64);
            Some(cat3(place.as_str(), " / ", total.as_str()))
        } else {
            None
        };
        (at, badge)
    }

    /// Goes to the picture before, round and round.
    pub fn previous_picture(&mut self, count: usize)
        requires
            count > 0,
        ensures
            *final(self) == (DetailsPage {
                screenshot_index: final(self).screenshot_index,
                ..*old(self)
            }),
            final(self).screenshot_index == (if old(self).shown_picture(count as nat) == 0 {
                count - 1
            } else {
                old(self).shown_picture(count as nat) - 1
            }),
    {
        let (at, _) = self.screenshot_gallery(count);
        self.screenshot_index = if at == 0 {
            count - 1
        } else {
            at - 1
        };
    }

    /// Goes to the next picture, round and round.
    pub fn next_picture(&mut self, count: usize)
        requires
            count > 0,
        ensures
            *final(self) == (DetailsPage {
                screenshot_index: final(self).screenshot_index,
                ..*old(self)
            }),
            final(self).screenshot_index == (if old(self).shown_picture(count as nat) + 1
                == count {
                0
            } else {
                old(self).shown_picture(count as nat) + 1
            }),
    {
        let (at, _) = self.screenshot_gallery(count);
        self.screenshot_index = if at + 1 == count {
            0
        } else {
            at + 1
        };
    }

    /// Whether `after` is this page opened for an app.
    pub open spec fn opened(app_id: u32) -> DetailsPage {
        DetailsPage {
            app_id: Some(app_id),
            store_details: None,
            loading: true,
            screenshot_index: 0,
        }
    }

    /// This page with the store's answer.
    pub open spec fn answered(&self, details: Option<SteamStoreDetails>) -> DetailsPage {
        DetailsPage {
            loading: false,
            store_details: match details {
                Some(details) => Some(details),
                None => self.store_details,
            },
            ..*self
        }
    }
}

/// What the status bar says of loaded details.
pub open spec fn loaded_text(details: SteamStoreDetails) -> Seq<char> {
    if details.stale_cache {
        "Loaded cached "@ + details.name@ + " details; Steam Store is unavailable"@
    } else {
        "Loaded "@ + details.name@
    }
}

/// Whether the first entry of an app among the repacks has a source at a place.
pub open spec fn has_source(repacks: Seq<RepackApp>, app_id: u32, index: usize) -> bool {
    exists|i: int| #[trigger]
        first_at(repack_ids(repacks), app_id, i) && index < repacks[i].sources@.len()
}

/// The details page as it stands.
pub enum DetailsView {
    /// The store is being asked.
    Loading { heading: String },
    /// The store had no answer: what is known of the app itself, and whether it needs activation.
    Unavailable { heading: String, lines: Vec<String>, activation_required: bool },
    /// The store's answer is there.
    Loaded,
}

impl DrydockApp {
    /// Opens the details page of an app. The store is then to be asked.
    pub fn open_details(&mut self, app_id: u32)
        ensures
            old(self).keeps_all_but(set![Part::Page, Part::Details, Part::ListJobs], *final(self)),
            final(self).page == Page::Details,
            final(self).details == DetailsPage::opened(app_id),
            final(self).list_jobs == (ListJobs { store: true, ..old(self).list_jobs }),
    {
        self.page = Page::Details;
        self.details = DetailsPage {
            app_id: Some(app_id),
            store_details: None,
            loading: true,
            screenshot_index: 0,
        };
        self.list_jobs.store = true;
    }

    /// Takes the store's answer. One for an app whose page is no longer open is dropped.
    pub fn poll_store_details(&mut self, reply: Reply<(u32, Result<SteamStoreDetails, String>)>)
        ensures
            old(self).keeps_all_but(
                set![Part::Details, Part::ListJobs, Part::Line],
                *final(self),
            ),
            final(self).list_jobs == (ListJobs {
                store: old(self).list_jobs.store && reply is Waiting,
                ..old(self).list_jobs
            }),
            !old(self).list_jobs.store || reply is Waiting ==> {
                &&& final(self).details == old(self).details
                &&& final(self).line == old(self).line
            },
            old(self).list_jobs.store ==> match reply {
                Reply::Waiting => true,
                Reply::Lost => {
                    &&& final(self).details == old(self).details.answered(None)
                    &&& final(self).line.says(
                        "The store request ended unexpectedly"@,
                        true,
                        old(self).line.busy,
                    )
                },
                Reply::Done((app_id, result)) => if old(self).details.app_id != Some(app_id) {
                    &&& final(self).details == old(self).details
                    &&& final(self).line == old(self).line
                } else {
                    match result {
                        Ok(details) => {
                            &&& final(self).details == old(self).details.answered(Some(details))
                            &&& final(self).line.says(
                                loaded_text(details),
                                details.stale_cache,
                                old(self).line.busy,
                            )
                        },
                        Err(error) => {
                            &&& final(self).details == old(self).details.answered(None)
                            &&& final(self).line.says(
                                "Store details could not be loaded: "@ + error@,
                                true,
                                old(self).line.busy,
                            )
                        },
                    }
                },
            },
    {
        if !self.list_jobs.store {
            return;
        }
        match reply {
            Reply::Waiting => {},
            Reply::Lost => {
                self.list_jobs.store = false;
                self.details.loading = false;
                self.report("The store request ended unexpectedly".to_owned(), true);
            },
            Reply::Done((app_id, result)) => {
                self.list_jobs.store = false;
                let current = match self.details.app_id {
                    Some(open) => open == app_id,
                    None => false,
                };
                if current {
                    self.take_details(result);
                }
            },
        }
    }

    fn take_details(&mut self, result: Result<SteamStoreDetails, String>)
        ensures
            old(self).keeps_all_but(set![Part::Details, Part::Line], *final(self)),
            match result {
                Ok(details) => {
                    &&& final(self).details == old(self).details.answered(Some(details))
                    &&& final(self).line.says(
                        loaded_text(details),
                        details.stale_cache,
                        old(self).line.busy,
                    )
                },
                Err(error) => {
                    &&& final(self).details == old(self).details.answered(None)
                    &&& final(self).line.says(
                        "Store details could not be loaded: "@ + error@,
                        true,
                        old(self).line.busy,
                    )
                },
            },
    {
        self.details.loading = false;
        match result {
            Ok(details) => {
                let stale = details.stale_cache;
                let text = if stale {
                    cat3(
                        "Loaded cached ",
                        details.name.as_str(),
                        " details; Steam Store is unavailable",
                    )
                } else {
                    cat2("Loaded ", details.name.as_str())
                };
                self.report(text, stale);
                self.details.store_details = Some(details);
            },
            Err(error) => {
                let text = cat2("Store details could not be loaded: ", error.as_str());
                self.report(text, true);
            },
        }
    }

    /// The fix panel of an app, where it has a build-locked fix. `on_disk` is how the fix stands in
    /// the Steam folder; without a Steam folder it is not applied.
    pub fn details_fix_panel(&self, app_id: u32, on_disk: FixStatus) -> (panel: Option<
        FixPanelState,
    >)
        ensures
            panel == (if self.catalog.offers_denuvo_fix(app_id) {
                Some(
                    FixPanelState {
                        busy: self.steam_jobs.background,
                        installed: manifest_ids(self.steam.manifests@).contains(app_id),
                        denuvo: Some(
                            if self.steam.root is Some {
                                on_disk
                            } else {
                                FixStatus::NotApplied
                            },
                        ),
                    },
                )
            } else {
                None
            }),
    {
        if !self.catalog.has_denuvo_fix(app_id) {
            return None;
        }
        let status = if self.steam.root.is_some() {
            on_disk
        } else {
            FixStatus::NotApplied
        };
        Some(
            FixPanelState {
                busy: self.steam_jobs.background,
                installed: manifest_at(&self.steam.manifests, app_id).is_some(),
                denuvo: Some(status),
            },
        )
    }

    /// The repack panel of an app, where it has repacks.
    pub fn details_repack_panel(&self, app_id: Option<u32>) -> (panel: Option<RepackPanelState>)
        ensures
            match app_id {
                None => panel is None,
                Some(id) => {
                    &&& panel is Some <==> repack_ids(self.catalog.repacks@).contains(id)
                    &&& panel matches Some(panel) ==> exists|i: int| #[trigger]
                        first_at(repack_ids(self.catalog.repacks@), id, i) && texts(
                            panel.repackers@,
                        ) == repackers(self.catalog.repacks@[i].sources@)
                },
            },
    {
        let id: u32 = match app_id {
            Some(id) => id,
            None => {
                return None;
            },
        };
        match self.catalog.repack_for(id) {
            None => None,
            Some(repack) => {
                let names = repacker_names(&repack.sources);
                Some(RepackPanelState { repackers: names })
            },
        }
    }

    /// What decides which buttons the details page has.
    pub fn details_state(&self) -> (state: DetailsState)
        ensures
            state.is_added == (self.details.app_id matches Some(app_id) && self.app_is_added(
                app_id,
            )),
            state.service_current == self.service_is_current(),
            state.busy == self.steam_jobs.service,
    {
        DetailsState {
            is_added: match self.details.app_id {
                Some(app_id) => self.is_app_added(app_id),
                None => false,
            },
            service_current: match &self.steam.service_status {
                Some(status) => status.state == SteamServiceState::Current,
                None => false,
            },
            busy: self.steam_jobs.service,
        }
    }

    /// Whether a game needs activation: the watch list says so, or the store does.
    pub fn activation_required(&self, details: &SteamStoreDetails) -> (required: bool)
        ensures
            required == ((self.catalog.denuvo_loaded && self.catalog.denuvo_appids@.contains(
                details.app_id,
            )) || details.uses_denuvo),
    {
        let watched = match self.catalog.needs_activation(details.app_id) {
            Some(answer) => answer,
            None => false,
        };
        watched || details.uses_denuvo
    }

    /// The state of the download buttons. Every game is offered: whether its files can be had only
    /// shows at the download.
    pub fn depot_buttons(&self, details: &SteamStoreDetails) -> (depot: DepotButtons)
        ensures
            depot.downloadable == is_game(details.app_id, details.name@),
            depot.installed == manifest_ids(self.steam.manifests@).contains(details.app_id),
            depot.busy == self.downloads.is_running(),
    {
        DepotButtons {
            downloadable: is_real_game(details.app_id, details.name.as_str()),
            installed: manifest_at(&self.steam.manifests, details.app_id).is_some(),
            busy: self.downloads.running(),
        }
    }

    /// The repacker and the link of a repack source, where there is one at this place.
    pub fn open_repack_source(&self, app_id: u32, index: usize) -> (source: Option<(String, String)>)
        ensures
            source is Some <==> has_source(self.catalog.repacks@, app_id, index),
            source matches Some((repacker, link)) ==> exists|i: int| #[trigger]
                first_at(repack_ids(self.catalog.repacks@), app_id, i) && {
                    let chosen = self.catalog.repacks@[i].sources@[index as int];
                    repacker == chosen.repacker && link == chosen.link
                },
    {
        match self.catalog.repack_for(app_id) {
            None => {
                proof {
                    assert forall|i: int| !#[trigger] first_at(
                        repack_ids(self.catalog.repacks@),
                        app_id,
                        i,
                    ) by {
                        if first_at(repack_ids(self.catalog.repacks@), app_id, i) {
                            assert(repack_ids(self.catalog.repacks@).contains(app_id));
                        }
                    }
                }
                None
            },
            Some(repack) => {
                proof {
                    let ids = repack_ids(self.catalog.repacks@);
                    let at = choose|at: int| #[trigger]
                        first_at(ids, app_id, at) && *repack == self.catalog.repacks@[at];
                    assert forall|i: int| #[trigger] first_at(ids, app_id, i) implies i == at by {}
                }
                if index < repack.sources.len() {
                    let source = &repack.sources[index];
                    Some((source.repacker.clone(), source.link.clone()))
                } else {
                    None
                }
            },
        }
    }

    /// Reports how opening a repack's link went.
    pub fn repack_opened(&mut self, repacker: &str, opened: Result<(), String>)
        ensures
            old(self).keeps_all_but(set![Part::Line], *final(self)),
            final(self).line.says(
                (match opened {
                    Ok(_) => "Opening "@ + repacker@ + " in your browser"@,
                    Err(error) => error@,
                }),
                opened is Err,
                old(self).line.busy,
            ),
    {
        match opened {
            Ok(_) => {
                let text = cat3("Opening ", repacker, " in your browser");
                self.report(text, false);
            },
            Err(error) => {
                self.report(error, true);
            },
        }
    }

    /// The name of the app on the details page: as the catalog has it, else as Steam has it.
    pub open spec fn heading_is(&self, heading: Seq<char>) -> bool {
        match self.details.app_id {
            None => heading == "GAME DETAILS"@,
            Some(app_id) => if app_ids(self.catalog.apps@).contains(app_id) {
                exists|i: int| #[trigger]
                    first_at(app_ids(self.catalog.apps@), app_id, i) && heading
                        == self.catalog.apps@[i].name@
            } else if manifest_ids(self.steam.manifests@).contains(app_id) {
                exists|i: int| #[trigger]
                    first_at(manifest_ids(self.steam.manifests@), app_id, i) && heading
                        == self.steam.manifests@[i].name@
            } else {
                heading == "GAME DETAILS"@
            },
        }
    }

    /// The name of the app on the details page.
    pub fn details_heading(&self) -> (heading: String)
        ensures
            self.heading_is(heading@),
    {
        let app_id: u32 = match self.details.app_id {
            Some(app_id) => app_id,
            None => {
                return "GAME DETAILS".to_owned();
            },
        };
        if let Some(at) = self.catalog.place_of(app_id) {
            return self.catalog.apps[at].name.clone();
        }
        if let Some(at) = manifest_at(&self.steam.manifests, app_id) {
            return self.steam.manifests[at].name.clone();
        }
        "GAME DETAILS".to_owned()
    }

    /// What is known of the app itself where the store has no answer.
    pub open spec fn known_lines(&self, lines: Seq<Seq<char>>) -> bool {
        match self.details.app_id {
            None => lines.len() == 0,
            Some(app_id) => {
                &&& lines.len() == 2
                &&& lines[0] == "APP "@ + decimal_text(app_id as nat)
                &&& if manifest_ids(self.steam.manifests@).contains(app_id) {
                    exists|i: int| #[trigger]
                        first_at(manifest_ids(self.steam.manifests@), app_id, i) && lines[1]
                            == self.steam.manifests@[i].install_dir@
                } else {
                    lines[1] == "Not installed through Steam"@
                }
            },
        }
    }

    /// The details page as it stands.
    pub fn details_page(&self) -> (view: DetailsView)
        ensures
            self.details.loading ==> (view matches DetailsView::Loading { heading }
                && self.heading_is(heading@)),
            !self.details.loading && self.details.store_details is None ==> (
            view matches DetailsView::Unavailable { heading, lines, activation_required }
                && self.heading_is(heading@) && self.known_lines(texts(lines@))
                && activation_required == (self.details.app_id matches Some(app_id)
                && self.catalog.denuvo_loaded && self.catalog.denuvo_appids@.contains(app_id))),
            !self.details.loading && self.details.store_details is Some ==> view is Loaded,
    {
        if self.details.loading {
            return DetailsView::Loading { heading: self.details_heading() };
        }
        if self.details.store_details.is_some() {
            return DetailsView::Loaded;
        }
        let heading = self.details_heading();
        let mut lines: Vec<String> = Vec::new();
        let mut activation_required = false;
        if let Some(app_id) = self.details.app_id {
            activation_required = self.catalog.needs_activation(app_id) == Some(true);
            let id = decimal(app_id as u64);
            lines.push(cat2("APP ", id.as_str()));
            match manifest_at(&self.steam.manifests, app_id) {
                Some(at) => {
                    assert(first_at(manifest_ids(self.steam.manifests@), app_id, at as int));
                    lines.push(self.steam.manifests[at].install_dir.clone());
                },
                None => {
                    lines.push("Not installed through Steam".to_owned());
                },
            }
        }
        DetailsView::Unavailable { heading, lines, activation_required }
    }
}

fn repacker_names(sources: &Vec<RepackSource>) -> (names: Vec<String>)
    ensures
        texts(names@) == repackers(sources@),
{
    let mut names: Vec<String> = Vec::new();
    let mut i: usize = 0;
    while i < sources.len()
        invariant
            i <= sources@.len(),
            names@.len() == i,
            forall|k: int| 0 <= k < i ==> #[trigger] names@[k] == sources@[k].repacker,
        decreases sources@.len() - i,
    {
        names.push(sources[i].repacker.clone());
        i += 1;
    }
    assert(texts(names@) =~= repackers(sources@));
    names
}

impl Catalog {
    /// The place of an app in the catalog.
    pub fn place_of(&self, app_id: u32) -> (at: Option<usize>)
        ensures
            at is None <==> !app_ids(self.apps@).contains(app_id),
            at matches Some(i) ==> first_at(app_ids(self.apps@), app_id, i as int),
    {
        let ghost ids = app_ids(self.apps@);
        let mut i: usize = 0;
        while i < self.apps.len()
            invariant
                i <= self.apps@.len(),
                ids == app_ids(self.apps@),
                forall|k: int| 0 <= k < i ==> ids[k] != app_id,
            decreases self.apps@.len() - i,
        {
            if self.apps[i].app_id == app_id {
                assert(ids[i as int] == app_id);
                return Some(i);
            }
            i += 1;
        }
        None
    }
}

} // verus!
