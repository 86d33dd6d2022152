//! What the activation page shows.
use crate::activation::{response_complete, response_is_complete, verify_percent};
use crate::helpers::{is_short_activation_code, short_code};
use crate::state::{ActivationState, DrydockApp, VerifiedEntitlement};
use crate::text::{blank, cat3, cat4, decimal, decimal_text, is_blank, no_text};
use vstd::prelude::*;

verus! {

/// The first card of an activation: the game and its folder.
pub struct FolderCard {
    /// Whether the folder can be chosen: a game is selected.
    pub has_game: bool,
    /// The note while the game list is not there yet.
    pub loading: Option<&'static str>,
    /// How far a verify has come.
    pub verify_line: Option<String>,
    pub busy: bool,
    /// Whether the card's button can be pressed.
    pub ready: bool,
}

/// The second card of an activation: the code to send and the response to enter.
pub struct CodeCard {
    pub code: String,
    /// Whether the code is short enough to be shown large.
    pub short: bool,
    pub heading: &'static str,
    pub hint: &'static str,
    /// Whether a response is being verified.
    pub verifying: bool,
    pub verifying_label: &'static str,
    /// Whether the response can be sent off.
    pub ready: bool,
    /// What was installed.
    pub installed: Option<String>,
}

/// What the Steam card says of an installed activation.
pub open spec fn entitlement_text(entitlement: VerifiedEntitlement) -> Seq<char> {
    "SIGNED ENTITLEMENT VERIFIED · "@ + decimal_text(entitlement.payload_bytes as nat)
        + " protected bytes · Valid until "@ + entitlement.expires_utc@
}

/// What the Ubisoft card says of an installed activation.
pub open spec fn token_text(entitlement: VerifiedEntitlement) -> Seq<char> {
    "TOKEN INSTALLED · "@ + decimal_text(entitlement.payload_bytes as nat)
        + " bytes · Valid until "@ + entitlement.expires_utc@
}

impl DrydockApp {
    /// Whether a step of a Steam activation before its response is under way.
    pub open spec fn activation_is_busy(&self) -> bool {
        self.activation_jobs.check || self.activation_jobs.remove || self.activation_jobs.request
            || self.activation.awaiting_verify is Some
    }

    /// How far the verify that an activation waits for has come.
    pub open spec fn awaited_percent(&self) -> nat {
        match self.downloads.job {
            Some(job) => match job.progress {
                Some(progress) => ActivationState::percent(
                    progress.done_bytes,
                    progress.total_bytes,
                ),
                None => 0,
            },
            None => 0,
        }
    }

    fn percent_of_verify(&self) -> (percent: u64)
        ensures
            percent == self.awaited_percent(),
    {
        match &self.downloads.job {
            Some(job) => match &job.progress {
                Some(progress) => verify_percent(progress.done_bytes, progress.total_bytes),
                None => 0,
            },
            None => 0,
        }
    }

    fn loading_note(&self) -> (note: Option<&'static str>)
        ensures
            note is Some <==> self.selected_app is None && self.catalog.apps@.len() == 0,
            note matches Some(text) ==> text@ == "Loading game catalog…"@,
    {
        if self.selected_app.is_none() && self.catalog.apps.len() == 0 {
            Some("Loading game catalog…")
        } else {
            None
        }
    }

    /// The first card of a Steam activation.
    pub fn activation_steam_body(&self) -> (card: FolderCard)
        ensures
            card.has_game == (self.selected_app is Some),
            card.loading is Some <==> self.selected_app is None && self.catalog.apps@.len() == 0,
            card.loading matches Some(text) ==> text@ == "Loading game catalog…"@,
            card.verify_line is Some <==> self.activation.awaiting_verify is Some,
            card.verify_line matches Some(text) ==> text@ == "Verifying the game files… "@
                + decimal_text(self.awaited_percent()) + "%"@,
            card.busy == self.activation_is_busy(),
            card.ready == (!blank(self.activation.path@) && !self.activation_is_busy()),
    {
        let busy = self.activation_jobs.check || self.activation_jobs.remove
            || self.activation_jobs.request || self.activation.awaiting_verify.is_some();
        let verify_line = if self.activation.awaiting_verify.is_some() {
            let percent = decimal(self.percent_of_verify());
            Some(cat3("Verifying the game files… ", percent.as_str(), "%"))
        } else {
            None
        };
        FolderCard {
            has_game: self.selected_app.is_some(),
            loading: self.loading_note(),
            verify_line,
            busy,
            ready: !is_blank(self.activation.path.as_str()) && !busy,
        }
    }

    /// The second card of a Steam activation, once there is a request code.
    pub fn activation_steam_code(&self) -> (card: Option<CodeCard>)
        ensures
            card is Some <==> self.activation.request_code@.len() > 0,
            card matches Some(card) ==> {
                let short = short_code(self.activation.request_code@);
                &&& card.code == self.activation.request_code
                &&& card.short == short
                &&& card.heading@ == if short {
                    "YOUR ACTIVATION REQUEST CODE"@
                } else {
                    "COMPLETE FALLBACK REQUEST"@
                }
                &&& card.hint@ == if short {
                    "Send this short request code in your activation ticket. It expires after 30 minutes."@
                } else {
                    "The upload service could not be reached. Copy this complete fallback request into your ticket."@
                }
                &&& card.verifying == self.activation_jobs.verify
                &&& card.verifying_label@ == "Verifying entitlement…"@
                &&& card.ready == (response_is_complete(self.activation.response_code)
                    && !self.activation_jobs.verify)
                &&& match self.activation.verified_entitlement {
                    Some(entitlement) => card.installed matches Some(text) && text@
                        == entitlement_text(entitlement),
                    None => card.installed is None,
                }
            },
    {
        if no_text(self.activation.request_code.as_str()) {
            return None;
        }
        let short = is_short_activation_code(self.activation.request_code.as_str());
        let installed = match &self.activation.verified_entitlement {
            Some(entitlement) => {
                let bytes = decimal(entitlement.payload_bytes);
                Some(
                    cat4(
                        "SIGNED ENTITLEMENT VERIFIED · ",
                        bytes.as_str(),
                        " protected bytes · Valid until ",
                        entitlement.expires_utc.as_str(),
                    ),
                )
            },
            None => None,
        };
        Some(
            CodeCard {
                code: self.activation.request_code.clone(),
                short,
                heading: if short {
                    "YOUR ACTIVATION REQUEST CODE"
                } else {
                    "COMPLETE FALLBACK REQUEST"
                },
                hint: if short {
                    "Send this short request code in your activation ticket. It expires after 30 minutes."
                } else {
                    "The upload service could not be reached. Copy this complete fallback request into your ticket."
                },
                verifying: self.activation_jobs.verify,
                verifying_label: "Verifying entitlement…",
                ready: response_complete(&self.activation.response_code)
                    && !self.activation_jobs.verify,
                installed,
            },
        )
    }

    /// The first card of a Ubisoft activation.
    pub fn activation_ubisoft_body(&self) -> (card: FolderCard)
        ensures
            card.has_game == (self.selected_app is Some),
            card.loading is Some <==> self.selected_app is None && self.catalog.apps@.len() == 0,
            card.loading matches Some(text) ==> text@ == "Loading game catalog…"@,
            card.verify_line is None,
            card.busy == self.activation_jobs.ubisoft_prepare,
            card.ready == (!blank(self.activation.path@) && !self.activation_jobs.ubisoft_prepare),
    {
        let busy = self.activation_jobs.ubisoft_prepare;
        FolderCard {
            has_game: self.selected_app.is_some(),
            loading: self.loading_note(),
            verify_line: None,
            busy,
            ready: !is_blank(self.activation.path.as_str()) && !busy,
        }
    }

    /// The second card of a Ubisoft activation, once there is an activation code.
    pub fn activation_ubisoft_code(&self) -> (card: Option<CodeCard>)
        ensures
            card is Some <==> self.activation.ubisoft_code@.len() > 0,
            card matches Some(card) ==> {
                &&& card.code == self.activation.ubisoft_code
                &&& card.short
                &&& card.heading@ == "UBISOFT ACTIVATION CODE"@
                &&& card.hint@
                    == "Send this code in your Ubisoft ticket. It expires after 30 minutes."@
                &&& card.verifying == self.activation_jobs.verify
                &&& card.verifying_label@ == "Verifying token…"@
                &&& card.ready == (response_is_complete(self.activation.response_code)
                    && !self.activation_jobs.verify)
                &&& match self.activation.verified_entitlement {
                    Some(entitlement) => card.installed matches Some(text) && text@ == token_text(
                        entitlement,
                    ),
                    None => card.installed is None,
                }
            },
    {
        if no_text(self.activation.ubisoft_code.as_str()) {
            return None;
        }
        let installed = match &self.activation.verified_entitlement {
            Some(entitlement) => {
                let bytes = decimal(entitlement.payload_bytes);
                Some(
                    cat4(
                        "TOKEN INSTALLED · ",
                        bytes.as_str(),
                        " bytes · Valid until ",
                        entitlement.expires_utc.as_str(),
                    ),
                )
            },
            None => None,
        };
        Some(
            CodeCard {
                code: self.activation.ubisoft_code.clone(),
                short: true,
                heading: "UBISOFT ACTIVATION CODE",
                hint: "Send this code in your Ubisoft ticket. It expires after 30 minutes.",
                verifying: self.activation_jobs.verify,
                verifying_label: "Verifying token…",
                ready: response_complete(&self.activation.response_code)
                    && !self.activation_jobs.verify,
                installed,
            },
        )
    }
}

} // verus!
