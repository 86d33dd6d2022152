//! The guide: how an activation and how a fix goes, in three stages each.
use crate::state::{DrydockApp, Part};
use crate::text::{cat2, decimal, decimal_text};
use crate::types::{GuideFlow, Page};
use vstd::prelude::*;

verus! {

/// The stages of a walkthrough.
#[derive(Clone, Copy, Debug, PartialEq, Eq, Structural)]
pub enum GuidePart {
    First,
    Second,
    Third,
}

/// A stage of a walkthrough: its title, its subtitle, and the title and detail of each step.
pub open spec fn stage_of(flow: GuideFlow, part: GuidePart) -> (
    Seq<char>,
    Seq<char>,
    Seq<(Seq<char>, Seq<char>)>,
) {
    match flow {
        GuideFlow::Activation => match part {
            GuidePart::First => (
                "PREPARE"@,
                "Set up your Steam folder and download the game."@,
                seq![
                    ("Set your Steam folder"@, "Open Settings, point Drydock at your Steam folder, and it reads your installed games."@),
                    ("Install the Steam Service"@, "In Settings, install the Steam Service — it is required before a game can be added to Steam."@),
                    ("Download the game fully"@, "Add a supported game and let Steam finish downloading it completely before activating."@),
                ],
            ),
            GuidePart::Second => (
                "ACTIVATE"@,
                "Turn a request code into a signed entitlement."@,
                seq![
                    ("Generate a request code"@, "Open Activation, pick the installed game, generate the request code, and copy it."@),
                    ("Submit it in Discord"@, "Open a Steam ticket in Discord, choose Activation Code, and paste the request code."@),
                    ("Enter the response code"@, "Type the eight-character response code the bot returns, then select Activate."@),
                ],
            ),
            GuidePart::Third => (
                "PLAY"@,
                "Verified, protected, and ready to launch."@,
                seq![
                    ("Automatic verification"@, "Drydock checks the signature, device, machine, App ID, lifetime, and payload integrity."@),
                    ("Keep updates paused"@, "Leave game updates disabled for the entitlement so it keeps working, then launch and play."@),
                ],
            ),
        },
        GuideFlow::Fixes => match part {
            GuidePart::First => (
                "PREPARE"@,
                "Install the game you want to fix."@,
                seq![
                    ("Set your Steam folder"@, "Open Settings and point Drydock at your Steam folder so it can see your installed games."@),
                    ("Install the Steam Service"@, "In Settings, install the Steam Service — it must be current before a fix can be applied."@),
                    ("Install the game fully"@, "Add the game and let Steam finish downloading it completely, so there are files to patch."@),
                ],
            ),
            GuidePart::Second => (
                "APPLY THE FIX"@,
                "One click installs everything the fix needs."@,
                seq![
                    ("Open the Fixes tab"@, "Pick a game that has a build-locked fix, then open its details page."@),
                    ("Select Apply Fix"@, "Drydock installs the matching unlock and downloads the fix files over your game install."@),
                    ("Let it finish"@, "Large fixes take a while to download and unpack — keep Drydock open until it reports success."@),
                ],
            ),
            GuidePart::Third => (
                "PLAY"@,
                "Fixed, locked to a working build, and ready."@,
                seq![
                    ("Updates are paused for you"@, "The fix targets one game build, so Drydock blocks Steam updates to keep an update from breaking it."@),
                    ("Launch and play"@, "Start the game from Steam as usual — the fix is already in place."@),
                ],
            ),
        },
    }
}

/// The place of a stage in its walkthrough, counted from one.
pub open spec fn place_of(part: GuidePart) -> nat {
    match part {
        GuidePart::First => 1,
        GuidePart::Second => 2,
        GuidePart::Third => 3,
    }
}

/// How many steps a stage has.
pub open spec fn steps_in(flow: GuideFlow, part: GuidePart) -> nat {
    stage_of(flow, part).2.len()
}

/// The number of a stage's first step: the steps are counted over the whole walkthrough.
pub open spec fn first_step(flow: GuideFlow, part: GuidePart) -> nat {
    match part {
        GuidePart::First => 1,
        GuidePart::Second => 1 + steps_in(flow, GuidePart::First),
        GuidePart::Third => 1 + steps_in(flow, GuidePart::First) + steps_in(
            flow,
            GuidePart::Second,
        ),
    }
}

/// A step of a walkthrough.
pub struct GuideStep {
    pub number: usize,
    pub title: &'static str,
    pub detail: &'static str,
}

/// A stage of a walkthrough, as it is shown.
pub struct GuideStage {
    /// Its place, in two digits.
    pub badge: String,
    pub title: &'static str,
    pub subtitle: &'static str,
    pub steps: Vec<GuideStep>,
}

/// What the guide page says around its stages.
pub struct GuideView {
    pub title: &'static str,
    pub summary: &'static str,
    pub question: &'static str,
    pub button: &'static str,
    /// Where the button leads.
    pub target: Page,
}

fn stage_table(flow: GuideFlow, part: GuidePart) -> (table: (
    &'static str,
    &'static str,
    Vec<(&'static str, &'static str)>,
))
    ensures
        ({
            let stage = stage_of(flow, part);
            &&& table.0@ == stage.0
            &&& table.1@ == stage.1
            &&& table.2@.len() == stage.2.len()
            &&& forall|i: int|
                0 <= i < stage.2.len() ==> ((#[trigger] table.2@[i]).0@, table.2@[i].1@)
                    == stage.2[i]
        }),
        table.2@.len() <= 3,
{
    match flow {
        GuideFlow::Activation => match part {
            GuidePart::First => (
                "PREPARE",
                "Set up your Steam folder and download the game.",
                vec![
                    ("Set your Steam folder", "Open Settings, point Drydock at your Steam folder, and it reads your installed games."),
                    ("Install the Steam Service", "In Settings, install the Steam Service — it is required before a game can be added to Steam."),
                    ("Download the game fully", "Add a supported game and let Steam finish downloading it completely before activating."),
                ],
            ),
            GuidePart::Second => (
                "ACTIVATE",
                "Turn a request code into a signed entitlement.",
                vec![
                    ("Generate a request code", "Open Activation, pick the installed game, generate the request code, and copy it."),
                    ("Submit it in Discord", "Open a Steam ticket in Discord, choose Activation Code, and paste the request code."),
                    ("Enter the response code", "Type the eight-character response code the bot returns, then select Activate."),
                ],
            ),
            GuidePart::Third => (
                "PLAY",
                "Verified, protected, and ready to launch.",
                vec![
                    ("Automatic verification", "Drydock checks the signature, device, machine, App ID, lifetime, and payload integrity."),
                    ("Keep updates paused", "Leave game updates disabled for the entitlement so it keeps working, then launch and play."),
                ],
            ),
        },
        GuideFlow::Fixes => match part {
            GuidePart::First => (
                "PREPARE",
                "Install the game you want to fix.",
                vec![
                    ("Set your Steam folder", "Open Settings and point Drydock at your Steam folder so it can see your installed games."),
                    ("Install the Steam Service", "In Settings, install the Steam Service — it must be current before a fix can be applied."),
                    ("Install the game fully", "Add the game and let Steam finish downloading it completely, so there are files to patch."),
                ],
            ),
            GuidePart::Second => (
                "APPLY THE FIX",
                "One click installs everything the fix needs.",
                vec![
                    ("Open the Fixes tab", "Pick a game that has a build-locked fix, then open its details page."),
                    ("Select Apply Fix", "Drydock installs the matching unlock and downloads the fix files over your game install."),
                    ("Let it finish", "Large fixes take a while to download and unpack — keep Drydock open until it reports success."),
                ],
            ),
            GuidePart::Third => (
                "PLAY",
                "Fixed, locked to a working build, and ready.",
                vec![
                    ("Updates are paused for you", "The fix targets one game build, so Drydock blocks Steam updates to keep an update from breaking it."),
                    ("Launch and play", "Start the game from Steam as usual — the fix is already in place."),
                ],
            ),
        },
    }
}

/// A stage of a walkthrough, its steps numbered on from the stages before.
pub fn guide_stage(flow: GuideFlow, part: GuidePart) -> (shown: GuideStage)
    ensures
        ({
            let stage = stage_of(flow, part);
            &&& shown.badge@ == "0"@ + decimal_text(place_of(part))
            &&& shown.title@ == stage.0
            &&& shown.subtitle@ == stage.1
            &&& shown.steps@.len() == stage.2.len()
            &&& forall|i: int|
                0 <= i < stage.2.len() ==> {
                    &&& (#[trigger] shown.steps@[i]).number == first_step(flow, part) + i
                    &&& (shown.steps@[i].title@, shown.steps@[i].detail@) == stage.2[i]
                }
        }),
{
    let (title, subtitle, table) = stage_table(flow, part);
    let (place, first): (u64, usize) = match part {
        GuidePart::First => (1, 1),
        GuidePart::Second => (2, 4),
        GuidePart::Third => (3, 7),
    };
    assert(first == first_step(flow, part));
    let mut steps: Vec<GuideStep> = Vec::new();
    let mut i: usize = 0;
    while i < table.len()
        invariant
            i <= table@.len() <= 3,
            first <= 7,
            steps@.len() == i,
            forall|k: int|
                0 <= k < i ==> {
                    &&& (#[trigger] steps@[k]).number == first + k
                    &&& steps@[k].title@ == table@[k].0@
                    &&& steps@[k].detail@ == table@[k].1@
                },
        decreases table@.len() - i,
    {
        let (title, detail) = table[i];
        steps.push(GuideStep { number: first + i, title, detail });
        i += 1;
    }
    let number = decimal(place);
    GuideStage { badge: cat2("0", number.as_str()), title, subtitle, steps }
}

impl DrydockApp {
    /// Shows a walkthrough.
    pub fn show_walkthrough(&mut self, flow: GuideFlow)
        ensures
            old(self).keeps_all_but(set![Part::GuideFlow], *final(self)),
            final(self).guide_flow == flow,
    {
        self.guide_flow = flow;
    }

    /// What the guide page says around its stages.
    pub fn guide_page(&self) -> (view: GuideView)
        ensures
            self.guide_flow == GuideFlow::Activation ==> {
                &&& view.title@ == "GAME ACTIVATION & SIGNED ENTITLEMENTS"@
                &&& view.summary@
                    == "Activate Denuvo and DRM-protected games offline. Generate hardware-bound request codes, receive cryptographically signed response tokens, and launch directly through Steam with update protection."@
                &&& view.question@ == "Ready to generate an activation code?"@
                &&& view.button@ == "OPEN ACTIVATION PAGE"@
                &&& view.target == Page::Activation
            },
            self.guide_flow == GuideFlow::Fixes ==> {
                &&& view.title@ == "BUILD-LOCKED GAME FIXES & COMPATIBILITY"@
                &&& view.summary@
                    == "Install build-locked fixes, language files, and bypasses with a single click. Drydock downloads matched unpack files and locks Steam updates so game updates cannot break your setup."@
                &&& view.question@ == "Ready to explore available fixes and utilities?"@
                &&& view.button@ == "OPEN TOOLS & UTILITIES"@
                &&& view.target == Page::Tools
            },
    {
        match self.guide_flow {
            GuideFlow::Activation => GuideView {
                title: "GAME ACTIVATION & SIGNED ENTITLEMENTS",
                summary: "Activate Denuvo and DRM-protected games offline. Generate hardware-bound request codes, receive cryptographically signed response tokens, and launch directly through Steam with update protection.",
                question: "Ready to generate an activation code?",
                button: "OPEN ACTIVATION PAGE",
                target: Page::Activation,
            },
            GuideFlow::Fixes => GuideView {
                title: "BUILD-LOCKED GAME FIXES & COMPATIBILITY",
                summary: "Install build-locked fixes, language files, and bypasses with a single click. Drydock downloads matched unpack files and locks Steam updates so game updates cannot break your setup.",
                question: "Ready to explore available fixes and utilities?",
                button: "OPEN TOOLS & UTILITIES",
                target: Page::Tools,
            },
        }
    }
}

/// The steps of a walkthrough are numbered from one, and each stage goes on where the one before
/// ends.
pub proof fn steps_are_numbered_through(flow: GuideFlow)
    ensures
        first_step(flow, GuidePart::First) == 1,
        first_step(flow, GuidePart::Second) == first_step(flow, GuidePart::First) + steps_in(
            flow,
            GuidePart::First,
        ),
        first_step(flow, GuidePart::Third) == first_step(flow, GuidePart::Second) + steps_in(
            flow,
            GuidePart::Second,
        ),
{
}

} // verus!
