//! Activating a game: the folder check, the request code, and the signed response.
use crate::catalog::{display_name, first_at};
use crate::downloads::JobOrder;
use crate::helpers::{
    field_texts, is_short_activation_code, normalize_response_fragment, normalized, short_code,
};
use crate::state::{
    empty_response_code, fields_are_empty, ActivationJobs, ActivationState, DownloadKind,
    DrydockApp, Part, PendingCrack, Settings, StatusLine, VerifiedEntitlement,
};
use crate::steam::{manifest_at, manifest_ids};
use crate::text::{
    ascii_alphanumeric, cat2, cat3, chars_of, decimal, decimal_text, is_ascii_alphanumeric,
};
use crate::types::{ActivationProvider, CatalogApp, Page, Reply};
use vstd::prelude::*;

verus! {

/// What the check of a game folder found.
pub enum ActivationCheck {
    /// The folder is clean.
    Ready { root: String },
    /// The folder holds files that have to go first.
    NeedsRemoval { root: String, files: Vec<String> },
}

/// What an activation goes on with.
pub enum ActivationNext {
    Nothing,
    /// Create the request code for the app.
    Request { app_id: u32 },
    /// Verify the game's files first.
    Verify { order: JobOrder },
}

/// How a finished verify concerns an activation.
#[derive(Clone, Copy, Debug, PartialEq, Eq, Structural)]
pub enum AfterVerify {
    /// No activation waited for it.
    NotAwaited,
    /// The activation that waited for it ends here.
    Refused,
    /// The activation that waited for it goes on with its request code.
    Request,
}

/// What installing a response needs.
pub struct ResponseOrder {
    /// The response code.
    pub code: String,
    /// Where the payload goes.
    pub target: String,
}

/// What preparing a Ubisoft game gave.
pub struct UbisoftPrepared {
    pub activation_code: String,
    pub exe_dir: String,
}

/// The executables to verify a chosen folder against, or what to tell the user.
pub fn executables_to_check(chosen_is_folder: bool, listed: Result<Vec<String>, String>) -> (result:
    Result<Vec<String>, String>)
    ensures
        !chosen_is_folder ==> result is Err && result->Err_0@ == "Select the game's folder first."@,
        chosen_is_folder ==> match listed {
            Err(error) => result == Err::<Vec<String>, String>(error),
            Ok(list) => if list@.len() == 0 {
                &&& result is Err
                &&& result->Err_0@
                    == "Steam lists no launch executable for this game to verify against."@
            } else {
                result == Ok::<Vec<String>, String>(list)
            },
        },
{
    if !chosen_is_folder {
        return Err("Select the game's folder first.".to_owned());
    }
    match listed {
        Err(error) => Err(error),
        Ok(list) => if list.len() == 0 {
            Err("Steam lists no launch executable for this game to verify against.".to_owned())
        } else {
            Ok(list)
        },
    }
}

/// The verdict on a chosen folder: `root` is the game's root where the folder holds the game, and
/// `files` the paths found in it that have to go.
pub fn activation_verdict(root: Option<String>, files: Vec<String>) -> (verdict: Result<
    ActivationCheck,
    String,
>)
    ensures
        match root {
            None => verdict is Err && verdict->Err_0@
                == "These files don't look like the selected game. Pick the correct game folder."@,
            Some(root) => verdict == Ok::<ActivationCheck, String>(
                if files@.len() == 0 {
                    ActivationCheck::Ready { root }
                } else {
                    ActivationCheck::NeedsRemoval { root, files }
                },
            ),
        },
{
    match root {
        None => Err(
            "These files don't look like the selected game. Pick the correct game folder.".to_owned(),
        ),
        Some(root) => if files.len() == 0 {
            Ok(ActivationCheck::Ready { root })
        } else {
            Ok(ActivationCheck::NeedsRemoval { root, files })
        },
    }
}

/// What a failed removal is reported as.
pub fn removal_error(error: &str) -> (text: String)
    ensures
        text@ == "Could not remove the crack files: "@ + error@,
{
    cat2("Could not remove the crack files: ", error)
}

/// Texts one after the other.
pub open spec fn concatenated(parts: Seq<Seq<char>>) -> Seq<char>
    decreases parts.len(),
{
    if parts.len() == 0 {
        Seq::empty()
    } else {
        concatenated(parts.drop_last()) + parts.last()
    }
}

/// The response code in its eight fields, as one text.
pub fn response_text(fields: &[String; 8]) -> (text: String)
    ensures
        text@ == concatenated(field_texts(*fields)),
{
    let mut text = String::new();
    let mut i: usize = 0;
    let ghost parts = field_texts(*fields);
    assert(parts.take(0) =~= Seq::<Seq<char>>::empty());
    while i < 8
        invariant
            i <= 8,
            parts == field_texts(*fields),
            parts.len() == 8,
            text@ == concatenated(parts.take(i as int)),
        decreases 8 - i,
    {
        proof {
            let now = parts.take(i + 1);
            assert(now.drop_last() =~= parts.take(i as int));
            assert(now.last() == fields@[i as int]@);
        }
        text.append(fields[i].as_str());
        i += 1;
    }
    assert(parts.take(8) =~= parts);
    text
}

/// Whether all eight fields are filled.
pub open spec fn response_is_complete(fields: [String; 8]) -> bool {
    forall|i: int|
        0 <= i < 8 ==> (#[trigger] fields@[i])@.len() == 1 && ascii_alphanumeric(fields@[i]@[0])
}

/// Whether all eight fields are filled.
pub fn response_complete(fields: &[String; 8]) -> (complete: bool)
    ensures
        complete == response_is_complete(*fields),
{
    let mut i: usize = 0;
    while i < 8
        invariant
            i <= 8,
            forall|k: int|
                0 <= k < i ==> (#[trigger] fields@[k])@.len() == 1 && ascii_alphanumeric(
                    fields@[k]@[0],
                ),
        decreases 8 - i,
    {
        let list = chars_of(fields[i].as_str());
        if list.len() != 1 {
            assert(fields@[i as int]@.len() != 1);
            return false;
        }
        if !is_ascii_alphanumeric(list[0]) {
            assert(!ascii_alphanumeric(fields@[i as int]@[0]));
            return false;
        }
        i += 1;
    }
    true
}

/// The response code of complete fields has eight characters, all of them letters or digits.
pub proof fn complete_response_has_eight_characters(fields: [String; 8])
    requires
        response_is_complete(fields),
    ensures
        concatenated(field_texts(fields)).len() == 8,
        forall|i: int|
            0 <= i < 8 ==> ascii_alphanumeric(#[trigger] concatenated(field_texts(fields))[i]),
{
    let parts = field_texts(fields);
    assert forall|i: int| 0 <= i < 8 implies (#[trigger] parts[i]).len() == 1
        && ascii_alphanumeric(parts[i][0]) by {
        assert(fields@[i]@.len() == 1);
    }
    single_characters_concatenate(parts);
}

proof fn single_characters_concatenate(parts: Seq<Seq<char>>)
    requires
        forall|i: int|
            0 <= i < parts.len() ==> (#[trigger] parts[i]).len() == 1 && ascii_alphanumeric(
                parts[i][0],
            ),
    ensures
        concatenated(parts).len() == parts.len(),
        forall|i: int|
            0 <= i < parts.len() ==> ascii_alphanumeric(#[trigger] concatenated(parts)[i]),
    decreases parts.len(),
{
    if parts.len() > 0 {
        let rest = parts.drop_last();
        assert forall|i: int| 0 <= i < rest.len() implies (#[trigger] rest[i]).len() == 1
            && ascii_alphanumeric(rest[i][0]) by {
            assert(parts[i].len() == 1);
        }
        single_characters_concatenate(rest);
        assert(parts[parts.len() - 1].len() == 1);
    }
}

/// The text that a field keeps of what was typed into it: the first letter or digit, as a capital.
pub open spec fn kept_character(typed: Seq<char>) -> Seq<char> {
    if normalized(typed).len() == 0 {
        Seq::empty()
    } else {
        normalized(typed).take(1)
    }
}

/// Takes what was typed into a field, and tells which field gets the focus: the next one, once
/// this one is filled.
pub fn field_changed(fields: &mut [String; 8], index: usize, typed: &str) -> (focus: Option<usize>)
    requires
        index < 8,
    ensures
        field_texts(*final(fields)) == field_texts(*old(fields)).update(
            index as int,
            kept_character(typed@),
        ),
        focus == (if kept_character(typed@).len() > 0 && index + 1 < 8 {
            Some((index + 1) as usize)
        } else {
            None
        }),
{
    let ghost before = field_texts(*fields);
    let fragment = normalize_response_fragment(typed);
    let list = chars_of(fragment.as_str());
    let mut kept = String::new();
    if list.len() > 0 {
        kept.push(list[0]);
    }
    assert(kept@ =~= kept_character(typed@));
    let filled = list.len() > 0;
    fields[index] = kept;
    assert(field_texts(*fields) =~= before.update(index as int, kept_character(typed@)));
    if filled && index + 1 < 8 {
        Some(index + 1)
    } else {
        None
    }
}

/// The keys that move between the fields.
#[derive(Clone, Copy, Debug, PartialEq, Eq, Structural)]
pub struct FieldKeys {
    pub left: bool,
    pub right: bool,
    pub backspace: bool,
}

/// The field that gets the focus after a key, and whether that field is emptied: a backspace in an
/// empty field takes the character before it away.
pub open spec fn moved_focus(index: nat, was_empty: bool, keys: FieldKeys) -> (Option<nat>, bool) {
    let back = was_empty && keys.backspace;
    if (keys.left || back) && index > 0 {
        (Some((index - 1) as nat), back)
    } else if keys.right && index + 1 < 8 {
        (Some(index + 1), false)
    } else {
        (None, false)
    }
}

/// Takes a key in the field at `index`, and tells which field gets the focus.
pub fn field_key(fields: &mut [String; 8], index: usize, was_empty: bool, keys: FieldKeys) -> (
focus: Option<usize>)
    requires
        index < 8,
    ensures
        match moved_focus(index as nat, was_empty, keys).0 {
            Some(to) => focus == Some(to as usize),
            None => focus is None,
        },
        field_texts(*final(fields)) == (if moved_focus(index as nat, was_empty, keys).1 {
            field_texts(*old(fields)).update(index - 1, Seq::empty())
        } else {
            field_texts(*old(fields))
        }),
{
    let back = was_empty && keys.backspace;
    if (keys.left || back) && index > 0 {
        if back {
            let ghost before = field_texts(*fields);
            fields[index - 1] = String::new();
            assert(field_texts(*fields) =~= before.update(index - 1, Seq::<char>::empty()));
        }
        Some(index - 1)
    } else if keys.right && index + 1 < 8 {
        Some(index + 1)
    } else {
        None
    }
}

/// The focus stays on one of the eight fields.
pub proof fn focus_stays_on_the_fields(index: nat, was_empty: bool, keys: FieldKeys)
    requires
        index < 8,
    ensures
        moved_focus(index, was_empty, keys).0 matches Some(to) ==> to < 8,
{
}

/// The name that the search field shows for an app.
pub open spec fn search_name(apps: Seq<CatalogApp>, app_id: u32) -> Seq<char>
    decreases apps.len(),
{
    if apps.len() == 0 {
        "APP "@ + decimal_text(app_id as nat)
    } else if apps[0].app_id == app_id {
        apps[0].name@
    } else {
        search_name(apps.drop_first(), app_id)
    }
}

fn name_for_search(apps: &Vec<CatalogApp>, app_id: u32) -> (name: String)
    ensures
        name@ == search_name(apps@, app_id),
{
    let mut i: usize = 0;
    assert(apps@.skip(0) =~= apps@);
    while i < apps.len()
        invariant
            i <= apps@.len(),
            search_name(apps@, app_id) == search_name(apps@.skip(i as int), app_id),
        decreases apps@.len() - i,
    {
        if apps[i].app_id == app_id {
            return apps[i].name.clone();
        }
        assert(apps@.skip(i as int).drop_first() =~= apps@.skip(i + 1));
        i += 1;
    }
    let id = decimal(app_id as u64);
    cat2("APP ", id.as_str())
}

/// The label of a provider's segment.
pub fn provider_label(provider: ActivationProvider) -> (label: &'static str)
    ensures
        label@ == (match provider {
            ActivationProvider::Steam => "STEAM"@,
            ActivationProvider::Ubisoft => "UBISOFT"@,
            ActivationProvider::Ea => "EA"@,
        }),
{
    match provider {
        ActivationProvider::Steam => "STEAM",
        ActivationProvider::Ubisoft => "UBISOFT",
        ActivationProvider::Ea => "EA",
    }
}

impl ActivationState {
    /// Whether `after` is this activation without its codes and without an earlier success.
    pub open spec fn restarted(&self, after: ActivationState) -> bool {
        &&& after == (ActivationState {
            request_code: after.request_code,
            response_code: after.response_code,
            verified_entitlement: None,
            success_app: None,
            ..*self
        })
        &&& after.request_code@ == Seq::<char>::empty()
        &&& fields_are_empty(after.response_code)
    }

    fn restart(&mut self)
        ensures
            old(self).restarted(*final(self)),
    {
        self.clear_codes();
        self.verified_entitlement = None;
        self.success_app = None;
    }

    /// Whether `after` is this activation with the check of a folder for `app_id` begun.
    pub open spec fn check_begun(&self, app_id: u32, after: ActivationState) -> bool {
        (ActivationState { root: None, check_app: Some(app_id), ..*self }).restarted(after)
    }

    /// Whether `after` is this activation with `app_id` selected, under `name` and with `path` as
    /// its folder.
    pub open spec fn selected(
        &self,
        name: Seq<char>,
        path: Seq<char>,
        after: ActivationState,
    ) -> bool {
        &&& (ActivationState {
            root: None,
            search: after.search,
            path: after.path,
            ..*self
        }).restarted(after)
        &&& after.search@ == name
        &&& after.path@ == path
    }

    /// This activation with the game's root verified.
    pub open spec fn rooted(&self, root: String) -> ActivationState {
        ActivationState { path: root, root: Some(root), ..*self }
    }

    fn set_root(&mut self, root: String)
        ensures
            *final(self) == old(self).rooted(root),
    {
        self.path = root.clone();
        self.root = Some(root);
    }

    /// How far the verify that the activation waits for has come, in percent.
    pub open spec fn percent(done: u64, total: u64) -> nat {
        if total == 0 {
            0
        } else if done * 100 > u64::MAX {
            (u64::MAX / total) as nat
        } else {
            ((done * 100) / (total as int)) as nat
        }
    }
}

/// How far a verify has come, in percent.
pub fn verify_percent(done: u64, total: u64) -> (percent: u64)
    ensures
        percent == ActivationState::percent(done, total),
{
    if total == 0 {
        0
    } else {
        let scaled: u64 = match done.checked_mul(100) {
            Some(product) => product,
            None => u64::MAX,
        };
        scaled / total
    }
}

/// A verify that has not done more than there is to do has come no further than a hundred percent.
pub proof fn percent_stays_bounded(done: u64, total: u64)
    requires
        done <= total,
    ensures
        ActivationState::percent(done, total) <= 100,
{
    if total > 0 {
        let numerator = if done * 100 > u64::MAX {
            u64::MAX as int
        } else {
            done * 100
        };
        assert(numerator <= 100 * total);
        assert(numerator / (total as int) <= 100) by (nonlinear_arith)
            requires
                0 <= numerator <= 100 * total,
                total > 0,
        ;
    }
}

impl DrydockApp {
    /// Whether the check of a game folder may start.
    pub open spec fn check_is_free(&self) -> bool {
        !self.activation_jobs.check && !self.activation_jobs.request && !self.activation_jobs.remove
    }

    /// Begins the check of a chosen game folder, before a request code is created. Tells whether it
    /// is to be run.
    pub fn start_activation_check(&mut self, app_id: u32) -> (run: bool)
        ensures
            run == old(self).check_is_free(),
            !run ==> *final(self) == *old(self),
            run ==> {
                &&& old(self).keeps_all_but(
                    set![Part::Activation, Part::ActivationJobs, Part::Line],
                    *final(self),
                )
                &&& final(self).activation_jobs == (ActivationJobs {
                    check: true,
                    ..old(self).activation_jobs
                })
                &&& old(self).activation.check_begun(app_id, final(self).activation)
                &&& final(self).line.text@ == "Verifying the game folder…"@
                &&& !final(self).line.error
                &&& final(self).line.is_busy_with("Verifying the game folder…"@)
            },
    {
        if self.activation_jobs.check || self.activation_jobs.request
            || self.activation_jobs.remove {
            return false;
        }
        self.activation.root = None;
        self.activation.check_app = Some(app_id);
        self.activation.restart();
        self.line = StatusLine {
            text: "Verifying the game folder…".to_owned(),
            error: false,
            busy: Some("Verifying the game folder…".to_owned()),
        };
        self.activation_jobs.check = true;
        true
    }

    /// Whether creating a request code leads from this shell to `after`.
    pub open spec fn request_begun(&self, after: DrydockApp) -> bool {
        if self.activation_jobs.request {
            &&& after.activation == self.activation
            &&& after.activation_jobs == self.activation_jobs
            &&& after.line == self.line
        } else {
            &&& self.activation.restarted(after.activation)
            &&& after.activation_jobs == (ActivationJobs { request: true, ..self.activation_jobs })
            &&& after.line.text == self.line.text
            &&& after.line.error == self.line.error
            &&& after.line.is_busy_with("Creating a protected activation request…"@)
        }
    }

    /// Begins the creation of a request code. Tells whether it is to be run.
    pub fn generate_activation_request(&mut self) -> (run: bool)
        ensures
            run == !old(self).activation_jobs.request,
            old(self).keeps_all_but(
                set![Part::Activation, Part::ActivationJobs, Part::Line],
                *final(self),
            ),
            old(self).request_begun(*final(self)),
    {
        if self.activation_jobs.request {
            return false;
        }
        self.activation.restart();
        self.line.busy = Some("Creating a protected activation request…".to_owned());
        self.activation_jobs.request = true;
        true
    }

    /// Whether an activation with a clean folder leads from this shell to `after`: the game's files
    /// are verified first where the user asked for that, because an activation installs files of
    /// its own, which a later verify would find damaged.
    #[verifier::opaque]
    pub open spec fn continued(
        self,
        app_id: u32,
        root: String,
        after: DrydockApp,
        next: ActivationNext,
    ) -> bool {
        let rooted = DrydockApp { activation: self.activation.rooted(root), ..self };
        &&& self.keeps_all_but(
            set![Part::Activation, Part::ActivationJobs, Part::Line, Part::Downloads],
            after,
        )
        &&& if !self.settings.verify_before_activation {
            &&& after.downloads == self.downloads
            &&& rooted.request_begun(after)
            &&& next == if self.activation_jobs.request {
                ActivationNext::Nothing
            } else {
                ActivationNext::Request { app_id }
            }
        } else if self.downloads.is_running() {
            &&& after.downloads == self.downloads
            &&& after.activation == rooted.activation
            &&& after.activation_jobs == self.activation_jobs
            &&& next is Nothing
            &&& after.line.says(
                "A download is running, so the game can't be verified now. Wait for it to finish, or turn off the verification."@,
                true,
                self.line.busy,
            )
        } else {
            &&& next matches ActivationNext::Verify { order }
            &&& order == self.order_for(app_id, order.name, DownloadKind::Verify, Some(root))
            &&& order.name@ == display_name(self.catalog.apps@, app_id)
            &&& after.downloads == self.downloads.with_job(
                app_id,
                order.name,
                DownloadKind::Verify,
            )
            &&& after.activation == (ActivationState {
                awaiting_verify: Some((app_id, root)),
                ..rooted.activation
            })
            &&& after.activation_jobs == self.activation_jobs
            &&& after.line.says(
                "Verifying the game files before activation…"@,
                false,
                self.line.busy,
            )
        }
    }

    /// Goes on with an activation whose folder is clean.
    pub fn continue_activation(&mut self, app_id: u32, root: String) -> (next: ActivationNext)
        ensures
            old(self).continued(app_id, root, *final(self), next),
    {
        reveal(DrydockApp::continued);
        let copy = root.clone();
        self.activation.set_root(copy);
        if !self.settings.verify_before_activation {
            let run = self.generate_activation_request();
            if run {
                return ActivationNext::Request { app_id };
            }
            return ActivationNext::Nothing;
        }
        if self.downloads.running() {
            self.report(
                "A download is running, so the game can't be verified now. Wait for it to finish, or turn off the verification.".to_owned(),
                true,
            );
            return ActivationNext::Nothing;
        }
        let name = self.catalog.app_display_name(app_id);
        let copy = root.clone();
        let order = self.spawn_job(app_id, name, DownloadKind::Verify, Some(copy));
        self.activation.awaiting_verify = Some((app_id, root));
        self.report("Verifying the game files before activation…".to_owned(), false);
        ActivationNext::Verify { order }
    }

    /// This shell once the folder check has ended.
    pub open spec fn check_ended(&self) -> DrydockApp {
        DrydockApp {
            activation_jobs: ActivationJobs { check: false, ..self.activation_jobs },
            line: StatusLine { busy: None, ..self.line },
            activation: ActivationState { check_app: None, ..self.activation },
            ..*self
        }
    }

    /// Whether a folder check that found `check` leads from this shell to `after`.
    #[verifier::opaque]
    pub open spec fn checked(
        self,
        check: ActivationCheck,
        after: DrydockApp,
        next: ActivationNext,
    ) -> bool {
        let ended = self.check_ended();
        match check {
            ActivationCheck::Ready { root } => match self.activation.check_app {
                Some(app_id) => ended.continued(app_id, root, after, next),
                None => {
                    &&& next is Nothing
                    &&& ended.keeps_all_but(set![Part::Activation], after)
                    &&& after.activation == ended.activation.rooted(root)
                },
            },
            ActivationCheck::NeedsRemoval { root, files } => {
                &&& next is Nothing
                &&& ended.keeps_all_but(set![Part::Activation], after)
                &&& after.activation == (ActivationState {
                    path: root,
                    pending_crack: match self.activation.check_app {
                        Some(app_id) => Some(PendingCrack { app_id, root, files }),
                        None => ended.activation.pending_crack,
                    },
                    ..ended.activation
                })
            },
        }
    }

    fn take_check(&mut self, check: ActivationCheck) -> (next: ActivationNext)
        ensures
            old(self).checked(check, *final(self), next),
    {
        reveal(DrydockApp::checked);
        let app = self.end_check();
        match check {
            ActivationCheck::Ready { root } => {
                if let Some(app_id) = app {
                    return self.continue_activation(app_id, root);
                }
                self.activation.set_root(root);
                ActivationNext::Nothing
            },
            ActivationCheck::NeedsRemoval { root, files } => {
                self.activation.path = root.clone();
                if let Some(app_id) = app {
                    self.activation.pending_crack = Some(PendingCrack { app_id, root, files });
                }
                ActivationNext::Nothing
            },
        }
    }

    /// Takes the end of the folder check.
    pub fn poll_activation_check(&mut self, reply: Reply<Result<ActivationCheck, String>>) -> (next:
        ActivationNext)
        ensures
            !old(self).activation_jobs.check || reply is Waiting ==> next is Nothing
                && *final(self) == *old(self),
            old(self).activation_jobs.check && reply is Lost ==> {
                &&& next is Nothing
                &&& old(self).keeps_all_but(set![Part::ActivationJobs], *final(self))
                &&& final(self).activation_jobs == (ActivationJobs {
                    check: false,
                    ..old(self).activation_jobs
                })
            },
            old(self).activation_jobs.check && reply is Done && reply->Done_0 is Err ==> {
                &&& next is Nothing
                &&& old(self).keeps_all_but(
                    set![Part::ActivationJobs, Part::Activation, Part::Line],
                    *final(self),
                )
                &&& final(self).activation_jobs == (ActivationJobs {
                    check: false,
                    ..old(self).activation_jobs
                })
                &&& final(self).activation == (ActivationState {
                    check_app: None,
                    ..old(self).activation
                })
                &&& final(self).line == (StatusLine {
                    text: reply->Done_0->Err_0,
                    error: true,
                    busy: None,
                })
            },
            old(self).activation_jobs.check && reply is Done && reply->Done_0 is Ok ==> old(self).checked(reply->Done_0->Ok_0, *final(self), next),
    {
        if !self.activation_jobs.check {
            return ActivationNext::Nothing;
        }
        match reply {
            Reply::Waiting => ActivationNext::Nothing,
            Reply::Lost => {
                self.activation_jobs.check = false;
                ActivationNext::Nothing
            },
            Reply::Done(Err(error)) => {
                self.activation_jobs.check = false;
                self.activation.check_app = None;
                self.line = StatusLine { text: error, error: true, busy: None };
                ActivationNext::Nothing
            },
            Reply::Done(Ok(check)) => {
                let next = self.take_check(check);
                next
            },
        }
    }

    fn end_check(&mut self) -> (app: Option<u32>)
        ensures
            *final(self) == old(self).check_ended(),
            app == old(self).activation.check_app,
    {
        self.activation_jobs.check = false;
        self.line.busy = None;
        let app = self.activation.check_app;
        self.activation.check_app = None;
        app
    }

    /// Begins the removal of the files that the check found, and returns them.
    pub fn start_crack_removal(&mut self) -> (order: Option<PendingCrack>)
        ensures
            order == (if old(self).activation_jobs.remove {
                None
            } else {
                old(self).activation.pending_crack
            }),
            order is None ==> *final(self) == *old(self),
            order is Some ==> {
                &&& old(self).keeps_all_but(
                    set![Part::Activation, Part::ActivationJobs, Part::Line],
                    *final(self),
                )
                &&& final(self).activation == (ActivationState {
                    pending_crack: None,
                    ..old(self).activation
                })
                &&& final(self).activation_jobs == (ActivationJobs {
                    remove: true,
                    ..old(self).activation_jobs
                })
                &&& final(self).line.text@ == "Removing crack files…"@
                &&& !final(self).line.error
                &&& final(self).line.is_busy_with("Removing crack files…"@)
            },
    {
        if self.activation_jobs.remove {
            return None;
        }
        let pending = self.activation.pending_crack.take();
        if pending.is_none() {
            return None;
        }
        self.line = StatusLine {
            text: "Removing crack files…".to_owned(),
            error: false,
            busy: Some("Removing crack files…".to_owned()),
        };
        self.activation_jobs.remove = true;
        pending
    }

    /// Takes the end of the removal.
    pub fn poll_activation_remove(&mut self, reply: Reply<Result<(u32, String), String>>) -> (next:
        ActivationNext)
        ensures
            !old(self).activation_jobs.remove || reply is Waiting ==> next is Nothing
                && *final(self) == *old(self),
            old(self).activation_jobs.remove ==> match reply {
                Reply::Waiting => true,
                Reply::Lost => {
                    &&& next is Nothing
                    &&& old(self).keeps_all_but(set![Part::ActivationJobs], *final(self))
                    &&& final(self).activation_jobs == (ActivationJobs {
                        remove: false,
                        ..old(self).activation_jobs
                    })
                },
                Reply::Done(Err(error)) => {
                    &&& next is Nothing
                    &&& old(self).keeps_all_but(
                        set![Part::ActivationJobs, Part::Line],
                        *final(self),
                    )
                    &&& final(self).activation_jobs == (ActivationJobs {
                        remove: false,
                        ..old(self).activation_jobs
                    })
                    &&& final(self).line == (StatusLine { text: error, error: true, busy: None })
                },
                Reply::Done(Ok((app_id, root))) => exists|removed: DrydockApp| #[trigger]
                    old(self).removal_ended(removed) && removed.continued(
                        app_id,
                        root,
                        *final(self),
                        next,
                    ),
            },
    {
        if !self.activation_jobs.remove {
            return ActivationNext::Nothing;
        }
        match reply {
            Reply::Waiting => ActivationNext::Nothing,
            Reply::Lost => {
                self.activation_jobs.remove = false;
                ActivationNext::Nothing
            },
            Reply::Done(Err(error)) => {
                self.activation_jobs.remove = false;
                self.line = StatusLine { text: error, error: true, busy: None };
                ActivationNext::Nothing
            },
            Reply::Done(Ok((app_id, root))) => {
                self.activation_jobs.remove = false;
                self.line = StatusLine {
                    text: "Crack files removed.".to_owned(),
                    error: false,
                    busy: None,
                };
                proof {
                    assert(old(self).removal_ended(*self));
                }
                self.continue_activation(app_id, root)
            },
        }
    }

    /// Whether `after` is this shell with the removal done.
    pub open spec fn removal_ended(&self, after: DrydockApp) -> bool {
        &&& self.keeps_all_but(set![Part::ActivationJobs, Part::Line], after)
        &&& after.activation_jobs == (ActivationJobs { remove: false, ..self.activation_jobs })
        &&& after.line.says("Crack files removed."@, false, None)
    }

    /// Goes on with an activation that waited for its verify: the request code is created only
    /// where every file checked out.
    pub fn finish_activation_verify(
        &mut self,
        app_id: u32,
        verified: Option<bool>,
        result: &Result<String, String>,
    ) -> (after: AfterVerify)
        ensures
            ({
                let awaited = old(self).activation.awaiting_verify matches Some((pending, _))
                    && pending == app_id;
                let resumed = DrydockApp {
                    activation: ActivationState {
                        awaiting_verify: None,
                        ..old(self).activation
                    },
                    ..*old(self)
                };
                let intact = *result is Ok && verified == Some(true);
                &&& !awaited ==> after == AfterVerify::NotAwaited && *final(self) == *old(self)
                &&& awaited && intact ==> {
                    &&& after == if old(self).activation_jobs.request {
                        AfterVerify::Refused
                    } else {
                        AfterVerify::Request
                    }
                    &&& old(self).keeps_all_but(
                        set![Part::Activation, Part::ActivationJobs, Part::Line],
                        *final(self),
                    )
                    &&& resumed.request_begun(*final(self))
                }
                &&& awaited && !intact ==> {
                    &&& after == AfterVerify::Refused
                    &&& resumed.keeps_all_but(set![Part::Line], *final(self))
                    &&& final(self).line.says(
                        (match *result {
                            Ok(summary) => summary@
                                + ". Repair the game before activating it, or turn off the verification."@,
                            Err(error) => "The game could not be verified: "@ + error@
                                + ". Try again, or turn off the verification."@,
                        }),
                        true,
                        old(self).line.busy,
                    )
                }
            }),
    {
        let awaited = match &self.activation.awaiting_verify {
            Some((pending, _)) => *pending == app_id,
            None => false,
        };
        if !awaited {
            return AfterVerify::NotAwaited;
        }
        self.activation.awaiting_verify = None;
        match result {
            Ok(summary) => {
                let intact = match verified {
                    Some(true) => true,
                    _ => false,
                };
                if intact {
                    let run = self.generate_activation_request();
                    if run {
                        return AfterVerify::Request;
                    }
                    return AfterVerify::Refused;
                }
                let text = cat2(
                    summary.as_str(),
                    ". Repair the game before activating it, or turn off the verification.",
                );
                self.report(text, true);
            },
            Err(error) => {
                let text = cat3(
                    "The game could not be verified: ",
                    error.as_str(),
                    ". Try again, or turn off the verification.",
                );
                self.report(text, true);
            },
        }
        AfterVerify::Refused
    }

    /// Takes the end of the creation of a request code.
    pub fn poll_activation_request(&mut self, reply: Reply<Result<String, String>>)
        ensures
            old(self).keeps_all_but(
                set![Part::Activation, Part::ActivationJobs, Part::Line],
                *final(self),
            ),
            final(self).activation_jobs == (ActivationJobs {
                request: old(self).activation_jobs.request && reply is Waiting,
                ..old(self).activation_jobs
            }),
            !old(self).activation_jobs.request || reply is Waiting ==> {
                &&& final(self).activation == old(self).activation
                &&& final(self).line == old(self).line
            },
            old(self).activation_jobs.request ==> match reply {
                Reply::Waiting => true,
                Reply::Lost => {
                    &&& final(self).activation == old(self).activation
                    &&& final(self).line.says(
                        "The activation request ended unexpectedly"@,
                        true,
                        None,
                    )
                },
                Reply::Done(Err(error)) => {
                    &&& final(self).activation == old(self).activation
                    &&& final(self).line.says(
                        "Activation request failed: "@ + error@,
                        true,
                        None,
                    )
                },
                Reply::Done(Ok(code)) => {
                    &&& final(self).activation == (ActivationState {
                        request_code: code,
                        ..old(self).activation
                    })
                    &&& final(self).line.says(
                        if short_code(code@) {
                            "Short activation request created"@
                        } else {
                            "The short-code service is unavailable. A complete fallback request was created."@
                        },
                        false,
                        None,
                    )
                },
            },
    {
        if !self.activation_jobs.request {
            return;
        }
        match reply {
            Reply::Waiting => {},
            Reply::Lost => {
                self.end_request("The activation request ended unexpectedly".to_owned(), true);
            },
            Reply::Done(Err(error)) => {
                let text = cat2("Activation request failed: ", error.as_str());
                self.end_request(text, true);
            },
            Reply::Done(Ok(code)) => {
                let text = if is_short_activation_code(code.as_str()) {
                    "Short activation request created".to_owned()
                } else {
                    "The short-code service is unavailable. A complete fallback request was created.".to_owned()
                };
                self.end_request(text, false);
                self.activation.request_code = code;
            },
        }
    }

    fn end_request(&mut self, text: String, error: bool)
        ensures
            old(self).keeps_all_but(set![Part::ActivationJobs, Part::Line], *final(self)),
            final(self).activation_jobs == (ActivationJobs {
                request: false,
                ..old(self).activation_jobs
            }),
            final(self).line == (StatusLine { text, error, busy: None }),
    {
        self.activation_jobs.request = false;
        self.line = StatusLine { text, error, busy: None };
    }

    /// Begins the check and installation of a response, into the folder that was verified when the
    /// request code was created.
    pub fn verify_activation_response(&mut self) -> (order: Option<ResponseOrder>)
        ensures
            old(self).keeps_all_but(
                set![Part::Activation, Part::ActivationJobs, Part::Line],
                *final(self),
            ),
            order is Some <==> !old(self).activation_jobs.verify && old(self).activation.root is Some,
            order is None ==> {
                &&& final(self).activation == old(self).activation
                &&& final(self).activation_jobs == old(self).activation_jobs
            },
            old(self).activation_jobs.verify ==> final(self).line == old(self).line,
            !old(self).activation_jobs.verify && order is None ==> final(self).line.says(
                "Verify the game folder and generate a request code first."@,
                true,
                old(self).line.busy,
            ),
            order matches Some(order) ==> {
                &&& order.code@ == concatenated(field_texts(old(self).activation.response_code))
                &&& Some(order.target) == old(self).activation.root
                &&& final(self).activation == (ActivationState {
                    verified_entitlement: None,
                    success_app: None,
                    ..old(self).activation
                })
                &&& final(self).activation_jobs == (ActivationJobs {
                    verify: true,
                    ..old(self).activation_jobs
                })
                &&& final(self).line.text == old(self).line.text
                &&& final(self).line.error == old(self).line.error
                &&& final(self).line.is_busy_with("Verifying and installing the activation…"@)
            },
    {
        if self.activation_jobs.verify {
            return None;
        }
        let target = match &self.activation.root {
            Some(root) => root.clone(),
            None => {
                self.report(
                    "Verify the game folder and generate a request code first.".to_owned(),
                    true,
                );
                return None;
            },
        };
        let code = response_text(&self.activation.response_code);
        self.activation.verified_entitlement = None;
        self.activation.success_app = None;
        self.line.busy = Some("Verifying and installing the activation…".to_owned());
        self.activation_jobs.verify = true;
        Some(ResponseOrder { code, target })
    }

    /// Takes the end of the check and installation of a response.
    #[verifier::spinoff_prover]
    pub fn poll_activation_verification(
        &mut self,
        reply: Reply<Result<VerifiedEntitlement, String>>,
    )
        ensures
            old(self).keeps_all_but(
                set![Part::Activation, Part::ActivationJobs, Part::Line],
                *final(self),
            ),
            final(self).activation_jobs == (ActivationJobs {
                verify: old(self).activation_jobs.verify && reply is Waiting,
                ..old(self).activation_jobs
            }),
            !old(self).activation_jobs.verify || reply is Waiting ==> {
                &&& final(self).activation == old(self).activation
                &&& final(self).line == old(self).line
            },
            old(self).activation_jobs.verify ==> match reply {
                Reply::Waiting => true,
                Reply::Lost => {
                    &&& final(self).activation == old(self).activation
                    &&& final(self).line.says(
                        "Activation verification ended unexpectedly"@,
                        true,
                        None,
                    )
                },
                Reply::Done(Err(error)) => {
                    &&& final(self).activation == old(self).activation
                    &&& final(self).line.says(error@, true, None)
                },
                Reply::Done(Ok(entitlement)) => {
                    &&& final(self).activation == (ActivationState {
                        success_app: final(self).activation.success_app,
                        verified_entitlement: Some(entitlement),
                        ..old(self).activation
                    })
                    &&& final(self).activation.success_app matches Some(name) && name@
                        == display_name(
                        old(self).catalog.apps@,
                        entitlement.app_id,
                    )
                    &&& final(self).line.says(
                        "Activation applied for App "@ + decimal_text(entitlement.app_id as nat)
                            + " — game files installed."@,
                        false,
                        None,
                    )
                },
            },
    {
        if !self.activation_jobs.verify {
            return;
        }
        match reply {
            Reply::Waiting => {},
            Reply::Lost => {
                self.end_verification(
                    "Activation verification ended unexpectedly".to_owned(),
                    true,
                );
            },
            Reply::Done(Err(error)) => {
                self.end_verification(error, true);
            },
            Reply::Done(Ok(entitlement)) => {
                let name = self.catalog.app_display_name(entitlement.app_id);
                let id = decimal(entitlement.app_id as u64);
                let text = cat3(
                    "Activation applied for App ",
                    id.as_str(),
                    " — game files installed.",
                );
                self.end_verification(text, false);
                self.activation.success_app = Some(name);
                self.activation.verified_entitlement = Some(entitlement);
            },
        }
    }

    fn end_verification(&mut self, text: String, error: bool)
        ensures
            old(self).keeps_all_but(set![Part::ActivationJobs, Part::Line], *final(self)),
            final(self).activation_jobs == (ActivationJobs {
                verify: false,
                ..old(self).activation_jobs
            }),
            final(self).line == (StatusLine { text, error, busy: None }),
    {
        self.activation_jobs.verify = false;
        self.line = StatusLine { text, error, busy: None };
    }

    /// The folder of an app that Steam has installed, else no text.
    pub open spec fn steam_folder(&self, app_id: u32, path: Seq<char>) -> bool {
        if manifest_ids(self.steam.manifests@).contains(app_id) {
            exists|i: int| #[trigger]
                first_at(manifest_ids(self.steam.manifests@), app_id, i) && path
                    == self.steam.manifests@[i].install_dir@
        } else {
            path.len() == 0
        }
    }

    /// Selects a game for activation: the search field shows its name, the folder is filled in
    /// where Steam has the game installed, and the codes of before are dropped.
    pub fn select_activation_game(&mut self, app_id: u32)
        ensures
            old(self).keeps_all_but(set![Part::Activation, Part::SelectedApp], *final(self)),
            final(self).selected_app == Some(app_id),
            old(self).activation.selected(
                search_name(old(self).catalog.apps@, app_id),
                final(self).activation.path@,
                final(self).activation,
            ),
            old(self).steam_folder(app_id, final(self).activation.path@),
    {
        let name = name_for_search(&self.catalog.apps, app_id);
        let path = match manifest_at(&self.steam.manifests, app_id) {
            Some(at) => {
                assert(first_at(manifest_ids(self.steam.manifests@), app_id, at as int));
                self.steam.manifests[at].install_dir.clone()
            },
            None => String::new(),
        };
        self.selected_app = Some(app_id);
        self.activation.search = name;
        self.activation.root = None;
        self.activation.path = path;
        self.activation.restart();
    }

    /// Opens the activation page with a game selected.
    pub fn go_to_activation(&mut self, app_id: u32)
        ensures
            old(self).keeps_all_but(
                set![Part::Activation, Part::SelectedApp, Part::Page],
                *final(self),
            ),
            final(self).page == Page::Activation,
            final(self).selected_app == Some(app_id),
            old(self).activation.selected(
                search_name(old(self).catalog.apps@, app_id),
                final(self).activation.path@,
                final(self).activation,
            ),
            old(self).steam_folder(app_id, final(self).activation.path@),
    {
        self.select_activation_game(app_id);
        self.page = Page::Activation;
    }

    /// Takes a chosen game folder: it has to be verified anew.
    pub fn choose_activation_folder(&mut self, folder: String)
        ensures
            old(self).keeps_all_but(set![Part::Activation], *final(self)),
            final(self).activation == (ActivationState {
                path: folder,
                root: None,
                ..old(self).activation
            }),
    {
        self.activation.path = folder;
        self.activation.root = None;
    }

    /// Takes a chosen folder of a Ubisoft game: its activation code has to be made anew.
    pub fn choose_ubisoft_folder(&mut self, folder: String)
        ensures
            old(self).keeps_all_but(set![Part::Activation], *final(self)),
            final(self).activation == (ActivationState {
                path: folder,
                ubisoft_code: final(self).activation.ubisoft_code,
                ..old(self).activation
            }),
            final(self).activation.ubisoft_code@ == Seq::<char>::empty(),
    {
        self.activation.path = folder;
        self.activation.ubisoft_code = String::new();
    }

    /// Takes the outcome of saving a changed verify setting. One that could not be saved is taken
    /// back.
    pub fn verify_setting_saved(&mut self, previous: bool, written: Result<(), String>)
        ensures
            old(self).keeps_all_but(set![Part::Settings, Part::Line], *final(self)),
            written is Ok ==> {
                &&& final(self).settings == old(self).settings
                &&& final(self).line == old(self).line
            },
            written matches Err(error) ==> {
                &&& final(self).settings == (Settings {
                    verify_before_activation: previous,
                    ..old(self).settings
                })
                &&& final(self).line.says(
                    "The verification setting could not be saved: "@ + error@,
                    true,
                    old(self).line.busy,
                )
            },
    {
        if let Err(error) = written {
            self.settings.verify_before_activation = previous;
            let text = cat2("The verification setting could not be saved: ", error.as_str());
            self.report(text, true);
        }
    }

    /// Reports that a code was copied.
    pub fn code_copied(&mut self)
        ensures
            old(self).keeps_all_but(set![Part::Line], *final(self)),
            final(self).line.says(
                "Activation code copied to clipboard"@,
                false,
                old(self).line.busy,
            ),
    {
        self.report("Activation code copied to clipboard".to_owned(), false);
    }

    /// Begins the preparation of a Ubisoft game. Tells whether it is to be run.
    pub fn start_ubisoft_prepare(&mut self) -> (run: bool)
        ensures
            run == (!old(self).activation_jobs.ubisoft_prepare && !old(self).activation_jobs.verify),
            !run ==> *final(self) == *old(self),
            run ==> {
                &&& old(self).keeps_all_but(
                    set![Part::Activation, Part::ActivationJobs, Part::Line],
                    *final(self),
                )
                &&& final(self).activation == (ActivationState {
                    ubisoft_code: final(self).activation.ubisoft_code,
                    ubisoft_exe_dir: None,
                    verified_entitlement: None,
                    response_code: final(self).activation.response_code,
                    ..old(self).activation
                })
                &&& final(self).activation.ubisoft_code@ == Seq::<char>::empty()
                &&& fields_are_empty(final(self).activation.response_code)
                &&& final(self).activation_jobs == (ActivationJobs {
                    ubisoft_prepare: true,
                    ..old(self).activation_jobs
                })
                &&& final(self).line.text@ == "Preparing Ubisoft activation…"@
                &&& !final(self).line.error
                &&& final(self).line.is_busy_with("Adding magicfiles and launching the game…"@)
            },
    {
        if self.activation_jobs.ubisoft_prepare || self.activation_jobs.verify {
            return false;
        }
        self.activation.ubisoft_code = String::new();
        self.activation.ubisoft_exe_dir = None;
        self.activation.verified_entitlement = None;
        self.activation.response_code = empty_response_code();
        self.line = StatusLine {
            text: "Preparing Ubisoft activation…".to_owned(),
            error: false,
            busy: Some("Adding magicfiles and launching the game…".to_owned()),
        };
        self.activation_jobs.ubisoft_prepare = true;
        true
    }

    /// Takes the end of the preparation of a Ubisoft game.
    #[verifier::spinoff_prover]
    pub fn poll_ubisoft_prepare(&mut self, reply: Reply<Result<UbisoftPrepared, String>>)
        ensures
            old(self).keeps_all_but(
                set![Part::Activation, Part::ActivationJobs, Part::Line],
                *final(self),
            ),
            final(self).activation_jobs == (ActivationJobs {
                ubisoft_prepare: old(self).activation_jobs.ubisoft_prepare && reply is Waiting,
                ..old(self).activation_jobs
            }),
            !old(self).activation_jobs.ubisoft_prepare || !(reply is Done) ==> {
                &&& final(self).activation == old(self).activation
                &&& final(self).line == old(self).line
            },
            old(self).activation_jobs.ubisoft_prepare && reply is Done ==> match reply->Done_0 {
                Ok(prepared) => {
                    &&& final(self).activation == (ActivationState {
                        ubisoft_code: prepared.activation_code,
                        ubisoft_exe_dir: Some(prepared.exe_dir),
                        ..old(self).activation
                    })
                    &&& final(self).line.says(
                        "Token request captured. Send the activation code in your Ubisoft ticket."@,
                        false,
                        None,
                    )
                },
                Err(error) => {
                    &&& final(self).activation == old(self).activation
                    &&& final(self).line.says(error@, true, None)
                },
            },
    {
        if !self.activation_jobs.ubisoft_prepare {
            return;
        }
        match reply {
            Reply::Waiting => {},
            Reply::Lost => {
                self.activation_jobs.ubisoft_prepare = false;
            },
            Reply::Done(Ok(prepared)) => {
                self.activation_jobs.ubisoft_prepare = false;
                self.activation.ubisoft_code = prepared.activation_code;
                self.activation.ubisoft_exe_dir = Some(prepared.exe_dir);
                self.line = StatusLine {
                    text: "Token request captured. Send the activation code in your Ubisoft ticket.".to_owned(),
                    error: false,
                    busy: None,
                };
            },
            Reply::Done(Err(error)) => {
                self.activation_jobs.ubisoft_prepare = false;
                self.line = StatusLine { text: error, error: true, busy: None };
            },
        }
    }

    /// Begins the check and installation of a response for a Ubisoft game.
    pub fn verify_ubisoft_response(&mut self) -> (order: Option<ResponseOrder>)
        ensures
            old(self).keeps_all_but(
                set![Part::Activation, Part::ActivationJobs, Part::Line],
                *final(self),
            ),
            order is Some <==> !old(self).activation_jobs.verify && old(self).activation.ubisoft_exe_dir is Some,
            order is None ==> {
                &&& final(self).activation == old(self).activation
                &&& final(self).activation_jobs == old(self).activation_jobs
            },
            old(self).activation_jobs.verify ==> final(self).line == old(self).line,
            !old(self).activation_jobs.verify && order is None ==> final(self).line.says(
                "Prepare the Ubisoft activation first."@,
                true,
                old(self).line.busy,
            ),
            order matches Some(order) ==> {
                &&& order.code@ == concatenated(field_texts(old(self).activation.response_code))
                &&& Some(order.target) == old(self).activation.ubisoft_exe_dir
                &&& final(self).activation == (ActivationState {
                    verified_entitlement: None,
                    ..old(self).activation
                })
                &&& final(self).activation_jobs == (ActivationJobs {
                    verify: true,
                    ..old(self).activation_jobs
                })
                &&& final(self).line.text == old(self).line.text
                &&& final(self).line.error == old(self).line.error
                &&& final(self).line.is_busy_with("Verifying and installing token.ini…"@)
            },
    {
        if self.activation_jobs.verify {
            return None;
        }
        let target = match &self.activation.ubisoft_exe_dir {
            Some(folder) => folder.clone(),
            None => {
                self.report("Prepare the Ubisoft activation first.".to_owned(), true);
                return None;
            },
        };
        let code = response_text(&self.activation.response_code);
        self.activation.verified_entitlement = None;
        self.line.busy = Some("Verifying and installing token.ini…".to_owned());
        self.activation_jobs.verify = true;
        Some(ResponseOrder { code, target })
    }
}

/// With the verify setting on, a clean folder never leads straight to a request code: the game's
/// files are verified first, or the user is told why that cannot be done now.
pub proof fn verification_comes_first(
    app: DrydockApp,
    app_id: u32,
    root: String,
    after: DrydockApp,
    next: ActivationNext,
)
    requires
        app.settings.verify_before_activation,
        app.continued(app_id, root, after, next),
    ensures
        !(next is Request),
        after.activation_jobs.request == app.activation_jobs.request,
        app.downloads.is_running() ==> after.line.error && next is Nothing,
        !app.downloads.is_running() ==> after.activation.awaiting_verify == Some((app_id, root)),
{
    reveal(DrydockApp::continued);
}

} // verus!
