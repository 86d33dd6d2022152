//! What the user is told after something was done: a failure is always an error that gives the
//! reason, a success never is, and nothing else of the shell changes by the telling.
use crate::activation::removal_error;
use crate::catalog::Catalog;
use crate::helpers::{added_note, joined_or_unknown, ubisoft_folder, ubisoft_root, value_or_unknown};
use crate::laws::text::is_padding;
use crate::service::{
    build_locked_note, fix_applied_note, removed_note, service_installed_note,
    service_removed_note,
};
use crate::state::{DrydockApp, StatusLine};
use crate::text::decimal_text;
use crate::tools::missing_file_text;
use crate::unlocks::UnlockUpdateSweep;
use vstd::prelude::*;

verus! {

/// Whether a text has a part somewhere in it.
pub open spec fn mentions(text: Seq<char>, part: Seq<char>) -> bool {
    exists|a: Seq<char>, b: Seq<char>| text == #[trigger] (a + part + b)
}

proof fn a_part_in_the_middle(a: Seq<char>, part: Seq<char>, b: Seq<char>)
    ensures
        mentions(a + part + b, part),
{
}

proof fn a_part_at_the_end(a: Seq<char>, part: Seq<char>)
    ensures
        mentions(a + part, part),
{
    assert(a + part =~= a + part + Seq::<char>::empty());
}

proof fn a_part_at_the_start(part: Seq<char>, b: Seq<char>)
    ensures
        mentions(part + b, part),
        mentions(part, part),
{
    assert(part + b =~= Seq::<char>::empty() + part + b);
    assert(part =~= Seq::<char>::empty() + part + Seq::<char>::empty());
}

/// Whether the outcome of something is told rightly: an error exactly where it failed, with its
/// reason.
pub open spec fn tells_outcome(
    before: StatusLine,
    outcome: Result<(), String>,
    after: StatusLine,
) -> bool {
    &&& after.error == (outcome is Err)
    &&& outcome matches Err(error) ==> mentions(after.text@, error@)
    &&& after.busy == before.busy
}

/// What was asked of Steam is told, with what was restored before; both must have gone well.
pub proof fn steam_is_asked_openly(
    app: &mut DrydockApp,
    restored: &Result<(bool, usize), String>,
    asked: Result<(), String>,
    other: &mut DrydockApp,
)
    requires
        call_ensures(DrydockApp::install_steam_game, (app, restored, asked), ()),
        call_ensures(DrydockApp::uninstall_steam_game, (other, asked), ()),
    ensures
        final(app).line.error <==> *restored is Err || asked is Err,
        asked matches Err(error) ==> mentions(final(app).line.text@, error@),
        *restored matches Err(error) ==> mentions(final(app).line.text@, error@),
        (*restored matches Ok((_, manifests)) && manifests > 0) ==> mentions(
            final(app).line.text@,
            decimal_text((restored->Ok_0).1 as nat),
        ),
        asked is Ok ==> mentions(final(app).line.text@, "Asking Steam to install the game"@),
        (*restored matches Ok((_, manifests)) && manifests == 0) && asked is Ok
            ==> final(app).line.text@ == "Asking Steam to install the game"@,
        tells_outcome(old(other).line, asked, final(other).line),
        asked is Ok ==> final(other).line.text@ == "Asking Steam to uninstall the game"@,
        final(app).settings == old(app).settings,
        final(app).downloads == old(app).downloads,
        final(other).settings == old(other).settings,
        final(other).steam == old(other).steam,
{
    let note = crate::library_actions::restore_text(*restored);
    if let Err(error) = asked {
        a_part_at_the_end(note, error@);
        a_part_at_the_start(error@, Seq::<char>::empty());
    } else {
        a_part_at_the_end(note, "Asking Steam to install the game"@);
    }
    let rest = match asked {
        Ok(_) => "Asking Steam to install the game"@,
        Err(error) => error@,
    };
    match *restored {
        Err(error) => {
            let a = "The stored files could not be restored ("@;
            assert(final(app).line.text@ =~= a + error@ + ("). "@ + rest));
        },
        Ok((lua, manifests)) => {
            if manifests > 0 {
                let a = "Restored the "@ + (if lua {
                    "unlock and "@
                } else {
                    Seq::empty()
                });
                assert(final(app).line.text@ =~= a + decimal_text(manifests as nat) + (
                " depot manifest(s). "@ + rest));
            } else {
                assert(final(app).line.text@ =~= rest);
            }
        },
    }
}

/// What was saved of the library is told by the name of the game; what could not be saved is an
/// error.
pub proof fn library_changes_are_told(
    a: &mut DrydockApp,
    b: &mut DrydockApp,
    c: &mut DrydockApp,
    name: &str,
    written: &Result<(), String>,
    d: &mut DrydockApp,
    error: &str,
)
    requires
        call_ensures(DrydockApp::launch_path_saved, (a, written), ()),
        call_ensures(DrydockApp::uninstall_saved, (b, name, written), ()),
        call_ensures(DrydockApp::add_game_saved, (c, name, written), ()),
        call_ensures(DrydockApp::folder_not_opened, (d, error), ()),
    ensures
        final(a).line.error <==> *written is Err,
        final(b).line.error <==> *written is Err,
        final(c).line.error <==> *written is Err,
        mentions(final(b).line.text@, name@),
        mentions(final(c).line.text@, name@),
        final(d).line.error,
        mentions(final(d).line.text@, error@),
        final(a).settings == old(a).settings,
        final(b).settings == old(b).settings,
        final(c).settings == old(c).settings,
        final(d).settings == old(d).settings,
        final(a).line.busy == old(a).line.busy,
{
    let end = if *written is Err {
        "\" was deleted, but the change could not be saved"@
    } else {
        "\" was uninstalled"@
    };
    a_part_in_the_middle("\""@, name@, end);
    let added = if *written is Err {
        "\" was added, but the change could not be saved"@
    } else {
        "\" was added to your Drydock library"@
    };
    a_part_in_the_middle("\""@, name@, added);
    a_part_at_the_end("Could not open folder: "@, error@);
}

/// The question before a Lua is deleted names the game.
pub proof fn the_question_names_the_game(
    app: &DrydockApp,
    app_id: u32,
    question: String,
    shown: String,
)
    requires
        call_ensures(DrydockApp::remove_lua_question, (app, app_id), question),
        call_ensures(Catalog::app_display_name, (&app.catalog, app_id), shown),
    ensures
        mentions(question@, shown@),
{
    a_part_in_the_middle(
        "Delete the unlock Lua for \""@,
        shown@,
        "\" from Steam? You can add it again any time."@,
    );
}

/// What became of the cloud is told: the version that was installed, the provider that was chosen,
/// or why it could not be done.
pub proof fn cloud_changes_are_told(
    a: &mut DrydockApp,
    version: &str,
    b: &mut DrydockApp,
    c: &mut DrydockApp,
    provider: &str,
    outcome: Result<(), String>,
)
    requires
        call_ensures(DrydockApp::hook_deployed, (a, version, outcome), ()),
        call_ensures(DrydockApp::hook_removed, (b, outcome), ()),
        call_ensures(DrydockApp::cloud_saved, (c, provider, outcome), ()),
    ensures
        tells_outcome(old(a).line, outcome, final(a).line),
        tells_outcome(old(b).line, outcome, final(b).line),
        tells_outcome(old(c).line, outcome, final(c).line),
        outcome is Ok ==> mentions(final(a).line.text@, version@),
        outcome is Ok ==> mentions(final(c).line.text@, provider@),
        final(a).cloud == old(a).cloud,
        final(b).cloud == old(b).cloud,
        final(c).cloud == old(c).cloud,
        final(a).settings == old(a).settings,
{
    a_part_in_the_middle("CloudRedirect "@, version@, " installed next to steam.exe"@);
    a_part_in_the_middle(
        "Cloud configuration saved for "@,
        provider@,
        ". Restart Steam to apply."@,
    );
    if let Err(error) = outcome {
        a_part_at_the_end("CloudRedirect could not be installed: "@, error@);
        a_part_at_the_end("Could not remove DLL: "@, error@);
        a_part_at_the_end("Could not save cloud configuration: "@, error@);
    }
}

/// What became of the settings and the tools is told the same way.
pub proof fn other_changes_are_told(
    a: &mut DrydockApp,
    b: &mut DrydockApp,
    repacker: &str,
    outcome: Result<(), String>,
    c: &mut DrydockApp,
    applied: Result<String, String>,
    reload: bool,
    d: &mut DrydockApp,
    previous: bool,
    e: &mut DrydockApp,
    note: String,
)
    requires
        call_ensures(DrydockApp::fresh_settings_written, (a, outcome), ()),
        call_ensures(DrydockApp::repack_opened, (b, repacker, outcome), ()),
        call_ensures(DrydockApp::language_applied, (c, applied), reload),
        call_ensures(DrydockApp::verify_setting_saved, (d, previous, outcome), ()),
        call_ensures(DrydockApp::service_saved, (e, note, &outcome), ()),
    ensures
        tells_outcome(old(a).line, outcome, final(a).line),
        tells_outcome(old(b).line, outcome, final(b).line),
        outcome is Ok ==> mentions(final(b).line.text@, repacker@),
        reload <==> applied is Ok,
        final(c).line.error <==> applied is Err,
        applied matches Ok(language) ==> mentions(final(c).line.text@, language@),
        applied matches Err(error) ==> final(c).line.text@ == error@,
        outcome is Err ==> final(d).settings.verify_before_activation == previous
            && final(d).line.error && mentions(final(d).line.text@, outcome->Err_0@),
        outcome is Ok ==> final(d).settings == old(d).settings && final(d).line == old(d).line,
        final(d).settings.installed_games == old(d).settings.installed_games,
        final(d).settings.download_queue == old(d).settings.download_queue,
        final(e).line.text == note,
        final(e).line.error <==> outcome is Err,
        final(a).settings == old(a).settings,
        final(b).settings == old(b).settings,
        final(c).settings == old(c).settings,
{
    a_part_in_the_middle("Opening "@, repacker@, " in your browser"@);
    if let Err(error) = outcome {
        a_part_at_the_end("A fresh settings file could not be written: "@, error@);
        a_part_at_the_start(error@, Seq::<char>::empty());
        a_part_at_the_end("The verification setting could not be saved: "@, error@);
    }
    if let Ok(language) = applied {
        a_part_at_the_end("Language changed to "@, language@);
    }
}

/// A limit that was saved clears an error of the line; one that was not is an error itself.
pub proof fn a_saved_limit_clears_the_error(app: &mut DrydockApp, written: Result<(), String>)
    requires
        call_ensures(DrydockApp::limit_saved, (app, written), ()),
    ensures
        final(app).line.error <==> written is Err,
        written is Ok ==> final(app).line.text@ == old(app).line.text@,
        final(app).line.busy == old(app).line.busy,
        final(app).settings == old(app).settings,
{
}

/// The emulator's files are fetched once at a time, and the user is told.
pub proof fn emulator_files_are_fetched_once(
    app: &mut DrydockApp,
    first: bool,
    again: &mut DrydockApp,
    second: bool,
)
    requires
        call_ensures(DrydockApp::start_emu_toolchain_refresh, (app,), first),
        *old(again) == *final(app),
        call_ensures(DrydockApp::start_emu_toolchain_refresh, (again,), second),
    ensures
        first <==> !old(app).steam_jobs.emu,
        !second,
        final(app).steam_jobs.emu,
        first ==> !final(app).line.error,
        final(again).line == final(app).line,
        final(app).steam_jobs.service == old(app).steam_jobs.service,
{
}

/// What is told of the service says that it was done, and why Steam could not be started where it
/// could not.
pub proof fn the_service_tells_of_steam(
    started: &Result<(), String>,
    installed: String,
    removed: String,
)
    requires
        call_ensures(service_installed_note, (started,), installed),
        call_ensures(service_removed_note, (started,), removed),
    ensures
        *started matches Err(error) ==> mentions(installed@, error@) && mentions(removed@, error@),
        *started is Ok ==> installed@ == "Steam Service installed. Steam started."@ && removed@
            == "Steam Service removed. Steam started."@,
{
    if let Err(error) = *started {
        a_part_at_the_end(
            "The Steam Service was installed, but Steam could not be restarted: "@,
            error@,
        );
        a_part_at_the_end(
            "The Steam Service was removed, but Steam could not be restarted: "@,
            error@,
        );
    }
}

/// A note on a game names it, and counts the files that came with it.
pub proof fn notes_name_the_game(
    name: &str,
    manifests: &Result<usize, String>,
    added: String,
    locked: String,
    backed: &Result<(usize, String), String>,
    removed: String,
    count: usize,
    fixed: String,
)
    requires
        call_ensures(added_note, (name, manifests), added),
        call_ensures(build_locked_note, (name, backed), locked),
        call_ensures(removed_note, (name,), removed),
        call_ensures(fix_applied_note, (count,), fixed),
    ensures
        mentions(added@, name@),
        mentions(locked@, name@),
        mentions(removed@, name@),
        mentions(fixed@, decimal_text(count as nat)),
        (*manifests matches Ok(n) && n > 0) ==> mentions(
            added@,
            decimal_text(manifests->Ok_0 as nat),
        ),
        (*backed matches Ok((n, _)) && n > 0) ==> mentions(
            locked@,
            decimal_text((backed->Ok_0).0 as nat),
        ),
        *backed matches Ok((_, backup)) ==> mentions(locked@, backup@),
{
    a_part_in_the_middle("\""@, name@, "\" removed from Steam."@);
    a_part_in_the_middle(
        "Denuvo fix applied — verified unlock installed, "@,
        decimal_text(count as nat),
        " game files replaced."@,
    );
    match *manifests {
        Ok(n) => {
            if n == 0 {
                a_part_in_the_middle(
                    "\""@,
                    name@,
                    "\" added to Steam. No depot manifests were packaged for it."@,
                );
            } else {
                let head = "\""@ + name@ + "\" added to Steam, with "@;
                a_part_in_the_middle(
                    head,
                    decimal_text(n as nat),
                    " depot manifest(s) cached."@,
                );
                assert(added@ =~= "\""@ + name@ + ("\" added to Steam, with "@ + decimal_text(
                    n as nat,
                ) + " depot manifest(s) cached."@));
            }
        },
        Err(_) => {
            a_part_in_the_middle(
                "\""@,
                name@,
                "\" added to Steam. Depot manifests could not be cached."@,
            );
        },
    }
    let files = match *backed {
        Ok((n, _)) => if n == 0 {
            Seq::empty()
        } else {
            " with "@ + decimal_text(n as nat) + " depot manifest(s)"@
        },
        Err(_) => Seq::empty(),
    };
    let backup = match *backed {
        Ok((_, backup)) => backup@,
        Err(_) => Seq::empty(),
    };
    let end = ". Apply the Denuvo fix, then restart Steam."@;
    assert(locked@ =~= "Cracked version of \""@ + name@ + ("\" added to Steam"@ + files + end
        + backup));
    a_part_at_the_end("Cracked version of \""@ + name@ + "\" added to Steam"@ + files + end, backup);
    if let Ok((n, _)) = *backed {
        if n > 0 {
            assert(locked@ =~= "Cracked version of \""@ + name@ + "\" added to Steam"@ + " with "@
                + decimal_text(n as nat) + (" depot manifest(s)"@ + end + backup));
        }
    }
}

/// Small notes give what they are about.
pub proof fn small_notes_give_their_subject(
    error: &str,
    removal: String,
    name: &str,
    missing: String,
    app: &mut DrydockApp,
)
    requires
        call_ensures(removal_error, (error,), removal),
        call_ensures(missing_file_text, (name,), missing),
        call_ensures(DrydockApp::code_copied, (app,), ()),
    ensures
        mentions(removal@, error@),
        mentions(missing@, name@),
        !final(app).line.error,
        final(app).activation == old(app).activation,
        final(app).line.busy == old(app).line.busy,
{
    a_part_at_the_end("Could not remove the crack files: "@, error@);
    a_part_in_the_middle(
        "Emu file "@,
        name@,
        " is missing — your antivirus likely removed it. Add a Windows Security exclusion for the Drydock cache and game folders, then click RE-DOWNLOAD EMU FILES."@,
    );
}

/// Blocks that could not be lifted are told of as an error with their number and the first reason;
/// lifted ones only where no other error stands.
pub proof fn old_blocks_are_told(
    app: &mut DrydockApp,
    failed: &Vec<(u32, String)>,
    released: usize,
)
    requires
        call_ensures(DrydockApp::release_old_update_blocks, (app, failed, released), ()),
    ensures
        failed@.len() > 0 ==> final(app).line.error && mentions(
            final(app).line.text@,
            decimal_text(failed@.len()),
        ) && mentions(final(app).line.text@, failed@[0].1@),
        failed@.len() == 0 && old(app).line.error ==> final(app).line == old(app).line,
        failed@.len() == 0 && released == 0 ==> final(app).line == old(app).line,
        failed@.len() == 0 && released > 0 && !old(app).line.error ==> !final(app).line.error
            && mentions(final(app).line.text@, decimal_text(released as nat)),
        final(app).settings == old(app).settings,
{
    a_part_in_the_middle(
        "Steam can update "@,
        decimal_text(released as nat),
        " game(s) again: the update block older Drydock versions set was lifted."@,
    );
    if failed@.len() > 0 {
        let n = decimal_text(failed@.len());
        let id = decimal_text(failed@[0].0 as nat);
        let reason = failed@[0].1@;
        let a = "The old Steam update block of "@;
        let b = " game(s) could not be lifted (App "@;
        let c = "). Drydock tries again at the next start."@;
        assert(final(app).line.text@ =~= a + n + (b + id + ": "@ + reason + c));
        assert(final(app).line.text@ =~= (a + n + b + id + ": "@) + reason + c);
    }
}

/// A sweep that updated nothing says nothing; one that did is no error, and names its first app.
pub proof fn updates_are_told_by_name(
    app: &mut DrydockApp,
    sweep: &UnlockUpdateSweep,
    shown: String,
)
    requires
        call_ensures(DrydockApp::report_unlock_updates, (app, sweep), ()),
        sweep.updated@.len() > 0 ==> call_ensures(
            Catalog::app_display_name,
            (&old(app).catalog, sweep.updated@[0]),
            shown,
        ),
    ensures
        sweep.updated@.len() == 0 ==> final(app).line == old(app).line,
        sweep.updated@.len() > 0 ==> !final(app).line.error,
        sweep.updated@.len() == 1 ==> final(app).line.text@ == "Updated the Lua and manifests of "@
            + shown@ + " to the latest version."@,
        sweep.updated@.len() == 3 ==> exists|names: Seq<char>|
            final(app).line.text@ == #[trigger] ("Updated the Lua and manifests of "@ + shown@
                + ", "@ + names + " to the latest version."@),
        sweep.updated@.len() > 3 ==> mentions(
            final(app).line.text@,
            decimal_text((sweep.updated@.len() - 3) as nat),
        ),
        final(app).settings == old(app).settings,
{
    let updated = sweep.updated@;
    if updated.len() == 1 {
        let names = crate::steam::names_of(old(app).catalog, updated);
        assert(names[0] == shown@);
        reveal_with_fuel(crate::text::joined, 2);
        assert(final(app).line.text@ =~= "Updated the Lua and manifests of "@ + shown@
            + " to the latest version."@);
    }
    if updated.len() == 3 {
        let names = crate::steam::names_of(old(app).catalog, updated);
        assert(names.len() == 3);
        assert(names[0] == shown@);
        reveal_with_fuel(crate::text::joined, 4);
        let two = names.drop_last();
        assert(two.drop_last()[0] == shown@);
        assert(crate::text::joined(two, ", "@) =~= shown@ + ", "@ + names[1]);
        assert(crate::text::joined(names, ", "@) =~= shown@ + ", "@ + names[1] + ", "@ + names[2]);
        assert(final(app).line.text@ =~= "Updated the Lua and manifests of "@ + shown@ + ", "@ + (
        names[1] + ", "@ + names[2]) + " to the latest version."@);
    }
    if updated.len() > 3 {
        let names = crate::text::joined(
            crate::steam::names_of(old(app).catalog, updated.take(3)),
            ", "@,
        );
        let n = decimal_text((updated.len() - 3) as nat);
        assert(final(app).line.text@ =~= ("Updated the Lua and manifests of "@ + names + " and "@)
            + n + (" more"@ + " to the latest version."@));
    }
}

/// A value that is not known is called so; one that is known is shown as it is.
pub proof fn the_unknown_is_called_so(
    value: &str,
    text: String,
    values: &Vec<String>,
    joined: String,
    root: Option<String>,
    checked: Result<String, String>,
    folder: Result<String, String>,
)
    requires
        call_ensures(value_or_unknown, (value,), text),
        call_ensures(joined_or_unknown, (values,), joined),
        call_ensures(ubisoft_root, (root,), checked),
        call_ensures(ubisoft_folder, (root,), folder),
    ensures
        is_padding(value@) ==> text@ == "Not available"@,
        !is_padding(value@) ==> text@ == value@,
        values@.len() == 0 ==> joined@ == "Not available"@,
        values@.len() == 1 ==> joined@ == values@[0]@,
        values@.len() == 2 ==> joined@ == values@[0]@ + ", "@ + values@[1]@,
        checked is Ok <==> root is Some,
        root matches Some(path) ==> checked == Ok::<String, String>(path) && folder == Ok::<
            String,
            String,
        >(path),
        folder is Ok <==> root is Some,
{
    crate::text::blank_means_trimmed_away(value@);
    crate::laws::details::names_are_joined(values@);
}

} // verus!
