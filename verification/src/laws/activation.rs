//! What activation promises: the folder check, the verify before it, the request code and the
//! response follow each other for the same game and the same folder.
use crate::activation::{
    activation_verdict, concatenated, executables_to_check, field_changed, field_key, response_complete,
    response_text, verify_percent, ActivationCheck, ActivationNext, AfterVerify, FieldKeys,
    ResponseOrder, UbisoftPrepared,
};
use crate::activation_page::{CodeCard, FolderCard};
use crate::helpers::{distribute_response_code, normalize_response_fragment, normalized};
use crate::laws::text::is_padding;
use crate::state::{DownloadKind, DrydockApp, PendingCrack, VerifiedEntitlement};
use crate::text::{ascii_alphanumeric, ascii_upper, texts};
use crate::types::{Page, Reply};
use vstd::prelude::*;

verus! {

/// Whether every one of the eight response fields is empty.
pub open spec fn no_response(fields: [String; 8]) -> bool {
    forall|i: int| 0 <= i < 8 ==> (#[trigger] fields@[i])@.len() == 0
}

/// A folder is checked against what Steam lists: a folder that holds the game is ready where
/// nothing has to be removed first, and what has to be removed is handed on as it was found.
pub proof fn a_folder_is_told_apart(
    is_folder: bool,
    listed: Result<Vec<String>, String>,
    used: Result<Vec<String>, String>,
    root: Option<String>,
    files: Vec<String>,
    verdict: Result<ActivationCheck, String>,
)
    requires
        call_ensures(executables_to_check, (is_folder, listed), used),
        call_ensures(activation_verdict, (root, files), verdict),
    ensures
        used is Ok <==> is_folder && (listed matches Ok(list) && list@.len() > 0),
        used is Ok ==> used == listed,
        is_folder && listed is Err ==> used == listed,
        verdict is Ok <==> root is Some,
        verdict matches Ok(ActivationCheck::Ready { root: found }) ==> Some(found) == root
            && files@.len() == 0,
        verdict matches Ok(ActivationCheck::NeedsRemoval { root: found, files: left }) ==> Some(found)
            == root && left == files && files@.len() > 0,
{
}

/// A folder that is ready goes straight to the request code where no verify is asked for: the
/// request is for the game that the check was started for, in the folder that was found. Codes of
/// an earlier request are gone.
pub proof fn a_ready_folder_leads_to_a_request(
    app: &mut DrydockApp,
    app_id: u32,
    run: bool,
    polled: &mut DrydockApp,
    root: String,
    next: ActivationNext,
)
    requires
        call_ensures(DrydockApp::start_activation_check, (app, app_id), run),
        run,
        !old(app).settings.verify_before_activation,
        *old(polled) == *final(app),
        call_ensures(
            DrydockApp::poll_activation_check,
            (
                polled,
                Reply::Done(Ok::<ActivationCheck, String>(ActivationCheck::Ready { root })),
            ),
            next,
        ),
    ensures
        next == (ActivationNext::Request { app_id }),
        final(polled).activation.root == Some(root),
        final(polled).activation.path == root,
        final(polled).activation.request_code@.len() == 0,
        final(polled).activation.verified_entitlement is None,
        no_response(final(polled).activation.response_code),
        final(polled).activation_jobs.request,
        !final(polled).activation_jobs.check,
        final(polled).downloads == old(app).downloads,
        final(polled).settings == old(app).settings,
{
    reveal(DrydockApp::checked);
    reveal(DrydockApp::continued);
}

/// Where a verify is asked for it comes first, on the same game and folder, and the request waits
/// for it. It is refused while another depot job is at work.
pub proof fn a_ready_folder_is_verified_first(
    app: &mut DrydockApp,
    app_id: u32,
    run: bool,
    polled: &mut DrydockApp,
    root: String,
    next: ActivationNext,
)
    requires
        call_ensures(DrydockApp::start_activation_check, (app, app_id), run),
        run,
        old(app).settings.verify_before_activation,
        *old(polled) == *final(app),
        call_ensures(
            DrydockApp::poll_activation_check,
            (
                polled,
                Reply::Done(Ok::<ActivationCheck, String>(ActivationCheck::Ready { root })),
            ),
            next,
        ),
    ensures
        !final(polled).activation_jobs.request,
        final(polled).activation.root == Some(root),
        (old(app).downloads.job matches Some(job) && job.finished is None) <==> next is Nothing,
        next is Nothing ==> final(polled).line.error && final(polled).downloads
            == old(app).downloads,
        !(next is Nothing) ==> {
            &&& next matches ActivationNext::Verify { order }
            &&& order.app_id == app_id
            &&& order.root == Some(root)
            &&& order.kind == DownloadKind::Verify
            &&& final(polled).activation.awaiting_verify == Some((app_id, root))
            &&& final(polled).downloads.job matches Some(job) && job.app_id == app_id && job.kind
                == DownloadKind::Verify && job.finished is None
        },
{
    reveal(DrydockApp::checked);
    reveal(DrydockApp::continued);
}

/// The request goes out after a verify that found every file intact, and after no other. A verify
/// of another game changes nothing.
pub proof fn only_an_intact_game_is_requested_for(
    app: &mut DrydockApp,
    app_id: u32,
    verified: Option<bool>,
    result: &Result<String, String>,
    after: AfterVerify,
)
    requires
        call_ensures(
            DrydockApp::finish_activation_verify,
            (app, app_id, verified, result),
            after,
        ),
        !old(app).activation_jobs.request,
    ensures
        after == AfterVerify::NotAwaited <==> !(
        old(app).activation.awaiting_verify matches Some((pending, _)) && pending == app_id),
        after == AfterVerify::NotAwaited ==> *final(app) == *old(app),
        after == AfterVerify::Request ==> *result is Ok && verified == Some(true)
            && final(app).activation_jobs.request && final(app).activation.root
            == old(app).activation.root,
        after == AfterVerify::Refused ==> (*result is Err || verified != Some(true))
            && final(app).line.error && !final(app).activation_jobs.request,
        after != AfterVerify::NotAwaited ==> final(app).activation.awaiting_verify is None,
{
}

/// What has to be removed is shown with its files, handed out once the removal is confirmed, and
/// after the removal the activation goes on with the same game and folder.
pub proof fn a_removal_is_asked_for_first(
    app: &mut DrydockApp,
    app_id: u32,
    run: bool,
    polled: &mut DrydockApp,
    root: String,
    files: Vec<String>,
    next: ActivationNext,
    removing: &mut DrydockApp,
    order: Option<PendingCrack>,
    removed: &mut DrydockApp,
    after: ActivationNext,
)
    requires
        call_ensures(DrydockApp::start_activation_check, (app, app_id), run),
        run,
        !old(app).settings.verify_before_activation,
        *old(polled) == *final(app),
        call_ensures(
            DrydockApp::poll_activation_check,
            (
                polled,
                Reply::Done(
                    Ok::<ActivationCheck, String>(ActivationCheck::NeedsRemoval { root, files }),
                ),
            ),
            next,
        ),
        *old(removing) == *final(polled),
        call_ensures(DrydockApp::start_crack_removal, (removing,), order),
        *old(removed) == *final(removing),
        call_ensures(
            DrydockApp::poll_activation_remove,
            (removed, Reply::Done(Ok::<(u32, String), String>((app_id, root)))),
            after,
        ),
    ensures
        next is Nothing,
        order == Some(PendingCrack { app_id, root, files }),
        final(removing).activation.pending_crack is None,
        after == (ActivationNext::Request { app_id }),
        final(removed).activation.root == Some(root),
        !final(removed).activation_jobs.remove,
{
    reveal(DrydockApp::checked);
    reveal(DrydockApp::continued);
}

/// One check runs at a time, and none beside a removal or a request. A lost or failed check makes
/// room for the next, and a failure is told of.
pub proof fn one_check_at_a_time(
    app: &mut DrydockApp,
    app_id: u32,
    run: bool,
    again: &mut DrydockApp,
    other: u32,
    second: bool,
    polled: &mut DrydockApp,
    error: String,
    next: ActivationNext,
)
    requires
        call_ensures(DrydockApp::start_activation_check, (app, app_id), run),
        *old(again) == *final(app),
        call_ensures(DrydockApp::start_activation_check, (again, other), second),
        *old(polled) == *final(app),
        run,
        call_ensures(
            DrydockApp::poll_activation_check,
            (polled, Reply::Done(Err::<ActivationCheck, String>(error))),
            next,
        ),
    ensures
        !second,
        *final(again) == *final(app),
        next is Nothing,
        !final(polled).activation_jobs.check,
        final(polled).line.error,
        final(polled).line.text == error,
        final(polled).activation.root is None,
        final(polled).activation.check_app is None,
{
}

/// The request code that arrives is the one shown, and a failed request shows none and says why.
pub proof fn the_request_code_is_shown(
    app: &mut DrydockApp,
    run: bool,
    polled: &mut DrydockApp,
    answer: Result<String, String>,
    after: &DrydockApp,
    card: Option<CodeCard>,
)
    requires
        call_ensures(DrydockApp::generate_activation_request, (app,), run),
        run,
        *old(polled) == *final(app),
        call_ensures(DrydockApp::poll_activation_request, (polled, Reply::Done(answer)), ()),
        *after == *final(polled),
        call_ensures(DrydockApp::activation_steam_code, (after,), card),
    ensures
        !final(polled).activation_jobs.request,
        answer matches Ok(code) ==> code@.len() > 0 ==> (card matches Some(card) && card.code == code
            && !card.ready && card.installed is None),
        answer is Err ==> card is None && final(polled).line.error,
        answer is Ok ==> !final(polled).line.error,
        final(polled).activation.root == old(app).activation.root,
{
    if let Some(card) = card {
        assert(final(polled).activation.response_code@[0]@.len() == 0);
    }
}

proof fn single_characters_spell(parts: Seq<Seq<char>>, code: Seq<char>)
    requires
        parts.len() == code.len(),
        forall|i: int| 0 <= i < parts.len() ==> #[trigger] parts[i] == seq![code[i]],
    ensures
        concatenated(parts) == code,
    decreases parts.len(),
{
    if parts.len() > 0 {
        let head = parts.drop_last();
        assert forall|i: int| 0 <= i < head.len() implies #[trigger] head[i] == seq![
            code.drop_last()[i],
        ] by {
            assert(head[i] == parts[i]);
        }
        single_characters_spell(head, code.drop_last());
        assert(parts.last() == seq![code.last()]);
        assert(concatenated(parts) =~= code);
    }
}

proof fn codes_are_alphanumeric(text: Seq<char>)
    ensures
        forall|i: int|
            0 <= i < normalized(text).len() ==> ascii_alphanumeric(#[trigger] normalized(text)[i]),
    decreases text.len(),
{
    reveal(Seq::filter);
    if text.len() > 0 {
        let head = text.drop_last();
        let keep = |c: char| ascii_alphanumeric(c);
        let up = |c: char| ascii_upper(c);
        codes_are_alphanumeric(head);
        assert(normalized(text) =~= if keep(text.last()) {
            normalized(head).push(ascii_upper(text.last()))
        } else {
            normalized(head)
        });
        assert forall|i: int| 0 <= i < normalized(text).len() implies ascii_alphanumeric(
            #[trigger] normalized(text)[i],
        ) by {
            if i < normalized(head).len() {
                assert(normalized(text)[i] == normalized(head)[i]);
            }
        }
    }
}

/// A code of eight letters and digits that is pasted into the first field fills the response, and
/// the response then reads as that code.
pub proof fn a_pasted_code_is_the_response(
    fields: &mut [String; 8],
    value: &str,
    next: usize,
    code: String,
    text: String,
    complete: bool,
)
    requires
        call_ensures(distribute_response_code, (fields, 0usize, value), next),
        call_ensures(normalize_response_fragment, (value,), code),
        code@.len() == 8,
        call_ensures(response_text, (&*final(fields),), text),
        call_ensures(response_complete, (&*final(fields),), complete),
    ensures
        text@ == code@,
        complete,
        next == 7,
{
    let after = texts(final(fields)@);
    assert forall|i: int| 0 <= i < 8 implies #[trigger] after[i] == seq![code@[i]] by {}
    single_characters_spell(after, code@);
    codes_are_alphanumeric(value@);
    assert forall|i: int| 0 <= i < 8 implies (#[trigger] final(fields)@[i])@.len() == 1
        && ascii_alphanumeric(final(fields)@[i]@[0]) by {
        assert(after[i] == final(fields)@[i]@);
        assert(ascii_alphanumeric(normalized(value@)[i]));
    }
}

/// A response is complete exactly where each of its fields holds one letter or digit.
pub proof fn a_response_is_complete_field_by_field(fields: &[String; 8], complete: bool, i: int)
    requires
        call_ensures(response_complete, (fields,), complete),
        0 <= i < 8,
    ensures
        complete ==> fields@[i]@.len() == 1,
        complete ==> {
            ||| '0' <= fields@[i]@[0] <= '9'
            ||| 'a' <= fields@[i]@[0] <= 'z'
            ||| 'A' <= fields@[i]@[0] <= 'Z'
        },
        fields@[i]@.len() != 1 ==> !complete,
{
}

/// Typing into a field leaves the first letter or digit that was typed in it, or nothing, and
/// touches no other field. The focus moves on where a character was kept and a field follows.
pub proof fn typing_fills_one_field(
    fields: &mut [String; 8],
    index: usize,
    typed: &str,
    focus: Option<usize>,
    code: String,
    i: int,
)
    requires
        index < 8,
        call_ensures(field_changed, (fields, index, typed), focus),
        call_ensures(normalize_response_fragment, (typed,), code),
        0 <= i < 8,
    ensures
        i != index ==> final(fields)@[i]@ == old(fields)@[i]@,
        code@.len() == 0 ==> final(fields)@[index as int]@.len() == 0 && focus is None,
        code@.len() > 0 ==> final(fields)@[index as int]@ == seq![code@[0]],
        code@.len() > 0 && index < 7 ==> focus == Some((index + 1) as usize),
        code@.len() > 0 && index == 7 ==> focus is None,
{
    let before = texts(old(fields)@);
    let after = texts(final(fields)@);
    assert(after[i] == final(fields)@[i]@ && before[i] == old(fields)@[i]@);
    assert(after[index as int] == final(fields)@[index as int]@);
    if code@.len() > 0 {
        assert(code@.take(1) =~= seq![code@[0]]);
    }
}

/// The arrow keys move between neighbouring fields and change none. Backspace in an empty field
/// goes back one field and clears it.
pub proof fn keys_move_between_neighbours(
    fields: &mut [String; 8],
    index: usize,
    was_empty: bool,
    keys: FieldKeys,
    focus: Option<usize>,
    i: int,
)
    requires
        index < 8,
        call_ensures(field_key, (fields, index, was_empty, keys), focus),
        0 <= i < 8,
    ensures
        focus matches Some(to) ==> to < 8 && (to == index + 1 || to + 1 == index),
        keys.left && index > 0 ==> focus == Some((index - 1) as usize),
        keys.backspace && was_empty && index > 0 ==> focus == Some((index - 1) as usize)
            && final(fields)@[index - 1]@.len() == 0,
        keys.right && !keys.left && !(keys.backspace && was_empty) && index < 7 ==> focus == Some(
            (index + 1) as usize,
        ),
        !keys.left && !keys.right && !keys.backspace ==> focus is None,
        !(keys.backspace && was_empty && index > 0 && i == index - 1) ==> final(fields)@[i]@
            == old(fields)@[i]@,
{
    let before = texts(old(fields)@);
    let after = texts(final(fields)@);
    assert(after[i] == final(fields)@[i]@ && before[i] == old(fields)@[i]@);
    if index > 0 {
        assert(after[index - 1] == final(fields)@[index - 1]@);
    }
}

/// The response that is checked is the one in the fields, for the folder that was found, and what
/// comes back is shown: the entitlement, or the error.
pub proof fn the_response_in_the_fields_is_checked(
    app: &mut DrydockApp,
    text: String,
    order: Option<ResponseOrder>,
    polled: &mut DrydockApp,
    answer: Result<VerifiedEntitlement, String>,
)
    requires
        call_ensures(response_text, (&old(app).activation.response_code,), text),
        call_ensures(DrydockApp::verify_activation_response, (app,), order),
        order is Some,
        *old(polled) == *final(app),
        call_ensures(DrydockApp::poll_activation_verification, (polled, Reply::Done(answer)), ()),
    ensures
        order->0.code@ == text@,
        Some(order->0.target) == old(app).activation.root,
        !old(app).activation_jobs.verify,
        !final(polled).activation_jobs.verify,
        answer matches Ok(entitlement) ==> final(polled).activation.verified_entitlement == Some(
            entitlement,
        ) && final(polled).activation.success_app is Some && !final(polled).line.error,
        answer matches Err(error) ==> final(polled).activation.verified_entitlement is None
            && final(polled).line.error && final(polled).line.text@ == error@,
        final(polled).activation.request_code == old(app).activation.request_code,
{
}

/// Without a folder that was found no response is checked, and the user is told.
pub proof fn a_response_needs_a_folder(app: &mut DrydockApp, order: Option<ResponseOrder>)
    requires
        call_ensures(DrydockApp::verify_activation_response, (app,), order),
    ensures
        order is Some <==> old(app).activation.root is Some && !old(app).activation_jobs.verify,
        old(app).activation.root is None && !old(app).activation_jobs.verify
            ==> final(app).line.error,
{
}

/// A Ubisoft activation goes the same way: what was prepared gives the code to show and the folder
/// that the response goes to.
pub proof fn a_ubisoft_activation_goes_to_its_folder(
    app: &mut DrydockApp,
    run: bool,
    polled: &mut DrydockApp,
    prepared: UbisoftPrepared,
    page: &DrydockApp,
    card: Option<CodeCard>,
    checking: &mut DrydockApp,
    order: Option<ResponseOrder>,
)
    requires
        call_ensures(DrydockApp::start_ubisoft_prepare, (app,), run),
        run,
        *old(polled) == *final(app),
        call_ensures(
            DrydockApp::poll_ubisoft_prepare,
            (polled, Reply::Done(Ok::<UbisoftPrepared, String>(prepared))),
            (),
        ),
        *page == *final(polled),
        call_ensures(DrydockApp::activation_ubisoft_code, (page,), card),
        *old(checking) == *final(polled),
        call_ensures(DrydockApp::verify_ubisoft_response, (checking,), order),
    ensures
        !final(polled).activation_jobs.ubisoft_prepare,
        prepared.activation_code@.len() > 0 ==> (card matches Some(card) && card.code
            == prepared.activation_code && !card.ready),
        order matches Some(order) && order.target == prepared.exe_dir,
        final(checking).activation_jobs.verify,
{
    if let Some(card) = card {
        assert(final(polled).activation.response_code@[0]@.len() == 0);
    }
}

/// Selecting a game forgets the codes and the folder of the one before, and starts at the folder
/// that Steam has it in.
pub proof fn a_new_game_starts_afresh(app: &mut DrydockApp, app_id: u32, m: int)
    requires
        call_ensures(DrydockApp::go_to_activation, (app, app_id), ()),
        0 <= m <= old(app).steam.manifests@.len(),
        m < old(app).steam.manifests@.len() ==> old(app).steam.manifests@[m].app_id == app_id,
        forall|k: int| 0 <= k < m ==> (#[trigger] old(app).steam.manifests@[k]).app_id != app_id,
    ensures
        final(app).page == Page::Activation,
        final(app).selected_app == Some(app_id),
        final(app).activation.root is None,
        final(app).activation.request_code@.len() == 0,
        no_response(final(app).activation.response_code),
        final(app).activation.verified_entitlement is None,
        m < old(app).steam.manifests@.len() ==> final(app).activation.path@
            == old(app).steam.manifests@[m].install_dir@,
        m == old(app).steam.manifests@.len() ==> final(app).activation.path@.len() == 0,
{
    let ids = crate::steam::manifest_ids(old(app).steam.manifests@);
    assert forall|k: int| 0 <= k < ids.len() implies #[trigger] ids[k]
        == old(app).steam.manifests@[k].app_id by {}
    if m < ids.len() {
        assert(ids[m] == app_id);
        assert(ids.contains(app_id));
        let i = choose|i: int| #[trigger]
            crate::catalog::first_at(ids, app_id, i) && final(app).activation.path@
                == old(app).steam.manifests@[i].install_dir@;
        if i < m {
            assert(old(app).steam.manifests@[i].app_id != app_id);
        }
        assert(i == m);
    } else if ids.contains(app_id) {
        let i = choose|i: int| 0 <= i < ids.len() && ids[i] == app_id;
        assert(old(app).steam.manifests@[i].app_id != app_id);
    }
}

/// Choosing another folder makes the earlier check void.
pub proof fn another_folder_is_unchecked(app: &mut DrydockApp, folder: String)
    requires
        call_ensures(DrydockApp::choose_activation_folder, (app, folder), ()),
    ensures
        final(app).activation.path == folder,
        final(app).activation.root is None,
        final(app).activation.response_code == old(app).activation.response_code,
{
}

/// The percentage of a verify is the part that is done, rounded down, and a hundred at its end.
pub proof fn the_percentage_is_the_part_done(done: u64, total: u64, percent: u64)
    requires
        call_ensures(verify_percent, (done, total), percent),
        done <= total,
        done * 100 <= u64::MAX,
    ensures
        total == 0 ==> percent == 0,
        total > 0 ==> percent * total <= done * 100 && done * 100 < (percent + 1) * total,
        total > 0 && done == total ==> percent == 100,
        done == 0 ==> percent == 0,
{
    if total > 0 {
        let a = (done * 100) as int;
        let b = total as int;
        vstd::arithmetic::div_mod::lemma_fundamental_div_mod(a, b);
        assert(b * (a / b) == (a / b) * b) by (nonlinear_arith);
        assert((percent + 1) * total == percent * total + total) by (nonlinear_arith);
        if done == total {
            assert(percent == 100) by (nonlinear_arith)
                requires
                    percent * total <= total * 100,
                    total * 100 < (percent + 1) * total,
                    total > 0,
            ;
        }
        if done == 0 {
            assert(percent == 0) by (nonlinear_arith)
                requires
                    percent * total <= 0,
                    total > 0,
            ;
        }
    }
}

/// The check can be started from the page exactly where a folder is named and nothing runs, and a
/// response can be sent exactly where it is complete and none is being checked.
pub proof fn the_page_offers_what_can_be_done(
    app: &DrydockApp,
    card: FolderCard,
    code: Option<CodeCard>,
    complete: bool,
)
    requires
        call_ensures(DrydockApp::activation_steam_body, (app,), card),
        call_ensures(DrydockApp::activation_steam_code, (app,), code),
        call_ensures(response_complete, (&app.activation.response_code,), complete),
    ensures
        card.has_game <==> app.selected_app is Some,
        card.busy <==> app.activation_jobs.check || app.activation_jobs.remove
            || app.activation_jobs.request || app.activation.awaiting_verify is Some,
        card.ready <==> !card.busy && !is_padding(app.activation.path@),
        card.verify_line is Some <==> app.activation.awaiting_verify is Some,
        code is Some <==> app.activation.request_code@.len() > 0,
        code matches Some(code) ==> (code.ready <==> complete && !app.activation_jobs.verify),
        code matches Some(code) ==> (code.installed is Some
            <==> app.activation.verified_entitlement is Some),
{
    assert(is_padding(app.activation.path@) == crate::text::blank(app.activation.path@));
}

/// While a verify is waited for, the page tells how much of it is done: nothing before its first
/// report.
pub proof fn the_page_tells_how_far_the_verify_is(
    app: &DrydockApp,
    card: FolderCard,
    done: u64,
    total: u64,
    percent: u64,
)
    requires
        call_ensures(DrydockApp::activation_steam_body, (app,), card),
        app.activation.awaiting_verify is Some,
        call_ensures(verify_percent, (done, total), percent),
    ensures
        card.verify_line is Some,
        app.downloads.job is None ==> card.verify_line->0@ == "Verifying the game files… "@
            + crate::text::decimal_text(0) + "%"@,
        (app.downloads.job matches Some(job) && job.progress is None) ==> card.verify_line->0@
            == "Verifying the game files… "@ + crate::text::decimal_text(0) + "%"@,
        (app.downloads.job matches Some(job) && (job.progress matches Some(progress)
            && progress.done_bytes == done && progress.total_bytes == total))
            ==> card.verify_line->0@ == "Verifying the game files… "@ + crate::text::decimal_text(
            percent as nat,
        ) + "%"@,
{
}

} // verus!
