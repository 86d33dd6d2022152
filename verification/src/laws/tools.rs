//! What the tools promise: the emulator files fit the game's architecture and lie where they belong,
//! and a language is written to the folder it was chosen for.
use crate::helpers::{arch_from_depot_paths, arch_of_path, arch_of_paths, PeArch};
use crate::laws::text::{
    a_part_is_found_wherever_it_stands, core_is_left, is_padding, is_tight,
    lowering_ignores_the_case, same_but_for_case,
};
use crate::state::{DrydockApp, EmuArch, GameLanguageOptions};
use crate::text::{decimal, numeral, texts, trimmed};
use crate::tools::{
    achievements_schema, beside_exe, count_achievements, emu_files, emu_library, emu_target,
    exe_lead, exe_prefix, file_list, led_by, occurrences, replaced, resolve_arch, EmuOrder,
    EmuPanel, ToolsView,
};
use crate::types::Reply;
use crate::unlocks::NamedFile;
use vstd::prelude::*;

verus! {

/// Whether `small` is a text in small letters, up to the case of its ASCII letters.
pub open spec fn small_form(text: Seq<char>, small: Seq<char>) -> bool {
    &&& text.len() == small.len()
    &&& forall|i: int|
        0 <= i < text.len() ==> same_but_for_case(text[i], #[trigger] small[i]) && !('A' <= small[i]
            <= 'Z')
}

/// Whether a path in small letters is that of a Windows program or library.
pub open spec fn is_program(small: Seq<char>) -> bool {
    ||| exists|a: Seq<char>| small == #[trigger] (a + ".exe"@)
    ||| exists|a: Seq<char>| small == #[trigger] (a + ".dll"@)
}

/// Whether a text has a part somewhere in it.
pub open spec fn has(text: Seq<char>, part: Seq<char>) -> bool {
    exists|a: Seq<char>, b: Seq<char>| text == #[trigger] (a + part + b)
}

/// Whether a path in small letters names a word size of 64 bits.
pub open spec fn names_wide(small: Seq<char>) -> bool {
    has(small, "win64"@) || has(small, "bin64"@) || has(small, "x64"@)
}

/// Whether a path in small letters names a word size of 32 bits.
pub open spec fn names_narrow(small: Seq<char>) -> bool {
    has(small, "win32"@) || has(small, "bin32"@) || has(small, "x86"@)
}

proof fn a_path_tells(path: Seq<char>, small: Seq<char>)
    requires
        small_form(path, small),
    ensures
        arch_of_path(path) == Some(PeArch::X64) <==> is_program(small) && names_wide(small),
        arch_of_path(path) == Some(PeArch::X86) <==> is_program(small) && !names_wide(small)
            && names_narrow(small),
{
    lowering_ignores_the_case(path, small);
    a_part_is_found_wherever_it_stands(small, "win64"@);
    a_part_is_found_wherever_it_stands(small, "bin64"@);
    a_part_is_found_wherever_it_stands(small, "x64"@);
    a_part_is_found_wherever_it_stands(small, "win32"@);
    a_part_is_found_wherever_it_stands(small, "bin32"@);
    a_part_is_found_wherever_it_stands(small, "x86"@);
    an_end_is_found(small, ".exe"@);
    an_end_is_found(small, ".dll"@);
}

proof fn an_end_is_found(text: Seq<char>, end: Seq<char>)
    ensures
        end.is_suffix_of(text) <==> exists|a: Seq<char>| text == #[trigger] (a + end),
{
    if end.is_suffix_of(text) {
        assert(text =~= text.take(text.len() - end.len()) + end);
    }
    if exists|a: Seq<char>| text == #[trigger] (a + end) {
        let a = choose|a: Seq<char>| text == #[trigger] (a + end);
        assert(end.is_suffix_of(a + end));
    }
}

proof fn the_first_telling_path_decides(paths: Seq<Seq<char>>, i: int)
    requires
        0 <= i < paths.len(),
        arch_of_path(paths[i]) is Some,
        forall|k: int| 0 <= k < i ==> arch_of_path(#[trigger] paths[k]) is None,
    ensures
        arch_of_paths(paths) == arch_of_path(paths[i]),
    decreases paths.len(),
{
    if i > 0 {
        assert(arch_of_path(paths[0]) is None);
        let rest = paths.drop_first();
        assert(rest[i - 1] == paths[i]);
        assert forall|k: int| 0 <= k < i - 1 implies arch_of_path(#[trigger] rest[k]) is None by {
            assert(rest[k] == paths[k + 1]);
        }
        the_first_telling_path_decides(rest, i - 1);
    }
}

proof fn paths_that_do_not_tell(paths: Seq<Seq<char>>)
    requires
        forall|k: int| 0 <= k < paths.len() ==> arch_of_path(#[trigger] paths[k]) is None,
    ensures
        arch_of_paths(paths) is None,
    decreases paths.len(),
{
    if paths.len() > 0 {
        assert(arch_of_path(paths[0]) is None);
        let rest = paths.drop_first();
        assert forall|k: int| 0 <= k < rest.len() implies arch_of_path(#[trigger] rest[k]) is None by {
            assert(rest[k] == paths[k + 1]);
        }
        paths_that_do_not_tell(rest);
    }
}

/// The depot's paths tell the architecture: the first program or library under a path that names a
/// word size decides, in any case. `win64`, `bin64` and `x64` stand for 64 bits, and `win32`,
/// `bin32` and `x86` for 32 where no name of 64 bits stands in the same path. `small` are the paths
/// in small letters.
pub proof fn paths_tell_the_architecture(
    paths: &Vec<String>,
    arch: Option<PeArch>,
    small: Seq<Seq<char>>,
    i: int,
)
    requires
        call_ensures(arch_from_depot_paths, (paths,), arch),
        small.len() == paths@.len(),
        forall|k: int| 0 <= k < small.len() ==> small_form(paths@[k]@, #[trigger] small[k]),
        0 <= i <= small.len(),
        forall|k: int|
            0 <= k < i ==> !(is_program(#[trigger] small[k]) && (names_wide(small[k])
                || names_narrow(small[k]))),
    ensures
        i < small.len() && is_program(small[i]) && names_wide(small[i]) ==> arch == Some(
            PeArch::X64,
        ),
        i < small.len() && is_program(small[i]) && !names_wide(small[i]) && names_narrow(small[i])
            ==> arch == Some(PeArch::X86),
        i == small.len() ==> arch is None,
{
    let all = texts(paths@);
    assert forall|k: int| 0 <= k < i implies arch_of_path(#[trigger] all[k]) is None by {
        assert(small_form(paths@[k]@, small[k]));
        a_path_tells(all[k], small[k]);
        let found = arch_of_path(all[k]);
        assert(found != Some(PeArch::X64) && found != Some(PeArch::X86));
    }
    if i < small.len() {
        assert(small_form(paths@[i]@, small[i]));
        a_path_tells(all[i], small[i]);
        if is_program(small[i]) && (names_wide(small[i]) || names_narrow(small[i])) {
            the_first_telling_path_decides(all, i);
        }
    } else {
        paths_that_do_not_tell(all);
    }
}

/// The architecture that is used is the one chosen; without a choice the executable decides, then
/// Steam, then the depot. Nothing is used that none of them says, and it fails only where none says
/// anything.
pub proof fn the_nearest_source_decides(
    choice: EmuArch,
    from_exe: Option<PeArch>,
    from_steam: Option<bool>,
    from_depot: Option<PeArch>,
    arch: Result<PeArch, String>,
)
    requires
        call_ensures(resolve_arch, (choice, from_exe, from_steam, from_depot), arch),
    ensures
        choice == EmuArch::X64 ==> arch == Ok::<PeArch, String>(PeArch::X64),
        choice == EmuArch::X86 ==> arch == Ok::<PeArch, String>(PeArch::X86),
        choice == EmuArch::Auto && from_exe is Some ==> arch == Ok::<PeArch, String>(from_exe->0),
        choice == EmuArch::Auto && from_exe is None && from_steam == Some(true) ==> arch == Ok::<
            PeArch,
            String,
        >(PeArch::X64),
        choice == EmuArch::Auto && from_exe is None && from_steam == Some(false) ==> arch == Ok::<
            PeArch,
            String,
        >(PeArch::X86),
        choice == EmuArch::Auto && from_exe is None && from_steam is None && from_depot is Some
            ==> arch == Ok::<PeArch, String>(from_depot->0),
        arch is Err <==> choice == EmuArch::Auto && from_exe is None && from_steam is None
            && from_depot is None,
{
}

/// Replacing a character touches no other one, and leaves none of the replaced.
pub proof fn only_the_replaced_changes(text: &str, from: char, to: char, result: String, i: int)
    requires
        call_ensures(replaced, (text, from, to), result),
        0 <= i < text@.len(),
    ensures
        result@.len() == text@.len(),
        text@[i] == from ==> result@[i] == to,
        text@[i] != from ==> result@[i] == text@[i],
{
}

/// The folder of an executable is written with backslashes, and a file beside the executable lies
/// in that folder, or right in the game's folder where the executable does.
pub proof fn files_lie_beside_the_executable(
    folder: Option<String>,
    prefix: String,
    lead: &str,
    name: &str,
    path: String,
)
    requires
        call_ensures(exe_prefix, (folder,), prefix),
        lead@ == prefix@,
        call_ensures(beside_exe, (lead, name), path),
    ensures
        folder is None ==> path@ == name@,
        folder matches Some(folder) ==> folder@.len() == 0 ==> path@ == name@,
        folder matches Some(folder) ==> folder@.len() > 0 ==> path@ == prefix@ + "\\"@ + name@
            && prefix@.len() == folder@.len() && (forall|i: int|
            0 <= i < folder@.len() ==> #[trigger] prefix@[i] == (if folder@[i] == '/' {
                '\\'
            } else {
                folder@[i]
            })),
{
    assert(Seq::<char>::empty() + name@ =~= name@);
}

/// Each emulator file has its own place, name and contents: the configuration first and as it is,
/// then the libraries beside the executable, the sound, the stubs, REFramework, and the images.
pub proof fn every_emu_file_has_its_place(
    prefix: &str,
    settings_dir: &str,
    configs: Vec<NamedFile>,
    libraries: Vec<NamedFile>,
    sound: Option<Vec<u8>>,
    stubs: Vec<NamedFile>,
    reframework: Option<Vec<u8>>,
    images: Vec<NamedFile>,
    files: Vec<NamedFile>,
    i: int,
)
    requires
        call_ensures(
            emu_files,
            (prefix, settings_dir, configs, libraries, sound, stubs, reframework, images),
            files,
        ),
    ensures
        ({
            let after_configs = configs@.len() as int;
            let after_libraries = after_configs + libraries@.len();
            let after_sound = after_libraries + if sound is Some {
                1int
            } else {
                0
            };
            let after_stubs = after_sound + stubs@.len();
            let after_reframework = after_stubs + if reframework is Some {
                1int
            } else {
                0
            };
            let beside = if prefix@.len() == 0 {
                Seq::empty()
            } else {
                prefix@ + "\\"@
            };
            &&& files@.len() == after_reframework + images@.len()
            &&& 0 <= i < configs@.len() ==> files@[i].name@ == configs@[i].name@ && files@[i].bytes@
                == configs@[i].bytes@
            &&& 0 <= i < libraries@.len() ==> files@[after_configs + i].name@ == beside
                + libraries@[i].name@ && files@[after_configs + i].bytes@ == libraries@[i].bytes@
            &&& sound matches Some(bytes) ==> files@[after_libraries].name@ == settings_dir@
                + "sounds\\overlay_achievement_notification.wav"@ && files@[after_libraries].bytes@
                == bytes@
            &&& 0 <= i < stubs@.len() ==> files@[after_sound + i].name@ == settings_dir@
                + stubs@[i].name@ && files@[after_sound + i].bytes@ == stubs@[i].bytes@
            &&& reframework matches Some(bytes) ==> files@[after_stubs].name@ == beside
                + "dinput8.dll"@ && files@[after_stubs].bytes@ == bytes@
            &&& 0 <= i < images@.len() ==> files@[after_reframework + i].name@ == settings_dir@
                + "image\\"@ + images@[i].name@ && files@[after_reframework + i].bytes@
                == images@[i].bytes@
        }),
{
    let all = file_list(files@);
    let after_configs = configs@.len() as int;
    let after_libraries = after_configs + libraries@.len();
    let after_sound = after_libraries + if sound is Some {
        1int
    } else {
        0
    };
    let after_stubs = after_sound + stubs@.len();
    let after_reframework = after_stubs + if reframework is Some {
        1int
    } else {
        0
    };
    crate::tools::every_emu_file_is_written_once(
        prefix@,
        settings_dir@,
        configs@,
        libraries@,
        sound,
        stubs@,
        reframework,
        images@,
    );
    assert(all.len() == files@.len());
    assert forall|k: int| 0 <= k < files@.len() implies #[trigger] all[k] == (
        files@[k].name@,
        files@[k].bytes@,
    ) by {}
    if 0 <= i < configs@.len() {
        assert(all[i] == file_list(configs@)[i]);
    }
    if 0 <= i < libraries@.len() {
        assert(all[after_configs + i] == led_by(exe_lead(prefix@), libraries@)[i]);
    }
    if let Some(bytes) = sound {
        assert(all[after_libraries] == (
            settings_dir@ + "sounds\\overlay_achievement_notification.wav"@,
            bytes@,
        ));
    }
    if 0 <= i < stubs@.len() {
        assert(all[after_sound + i] == led_by(settings_dir@, stubs@)[i]);
    }
    if let Some(bytes) = reframework {
        assert(all[after_stubs] == (exe_lead(prefix@) + "dinput8.dll"@, bytes@));
    }
    if 0 <= i < images@.len() {
        assert(all[after_reframework + i] == led_by(settings_dir@ + "image\\"@, images@)[i]);
    }
}

/// A file is written at its path in the folder, and only where that is not the folder itself. A
/// library that is missing from the cache ends the build with an error that names it.
pub proof fn what_cannot_be_written_is_told_of(
    folder: &str,
    path: &str,
    target: Option<&str>,
    name: String,
    read: Option<Vec<u8>>,
    library: Result<NamedFile, String>,
)
    requires
        call_ensures(emu_target, (folder, path), target),
        call_ensures(emu_library, (name, read), library),
    ensures
        folder@ == path@ <==> target is None,
        target matches Some(target) ==> target@ == path@,
        library is Ok <==> read is Some,
        library matches Ok(file) ==> file.name == name && Some(file.bytes) == read,
        library matches Err(text) ==> exists|a: Seq<char>, b: Seq<char>|
            text@ == #[trigger] (a + name@ + b),
{
    if let Err(text) = library {
        let b =
            " is missing — your antivirus likely removed it. Add a Windows Security exclusion for the Drydock cache and game folders, then click RE-DOWNLOAD EMU FILES."@;
        assert(text@ == "Emu file "@ + name@ + b);
    }
}

/// Each `"name"` of a schema counts once: one in front adds one, and a character in front that does
/// not begin one adds none.
pub proof fn every_achievement_is_counted(schema: Seq<char>, c: char)
    requires
        c != '"',
    ensures
        occurrences("\"name\""@ + schema, "\"name\""@) == 1 + occurrences(schema, "\"name\""@),
        occurrences(seq![c] + schema, "\"name\""@) == occurrences(schema, "\"name\""@),
        occurrences(Seq::empty(), "\"name\""@) == 0,
{
    reveal_strlit("\"name\"");
    let part = "\"name\""@;
    let more = part + schema;
    assert(more.take(part.len() as int) =~= part);
    assert(more.skip(part.len() as int) =~= schema);
    let other = seq![c] + schema;
    assert(other.skip(1) =~= schema);
    if other.len() >= part.len() {
        assert(other.take(part.len() as int)[0] == c);
        assert(part[0] == '"');
    } else {
        assert(occurrences(schema, part) == 0);
    }
}

/// A schema that could not be had counts no achievement.
pub proof fn no_schema_no_achievements(
    answer: Result<String, String>,
    schema: String,
    text: &str,
    count: usize,
)
    requires
        call_ensures(achievements_schema, (answer,), schema),
        text@ == schema@,
        call_ensures(count_achievements, (text,), count),
    ensures
        answer matches Ok(given) ==> schema == given,
        answer is Err ==> count == 0,
        count == occurrences(text@, "\"name\""@),
{
    reveal_strlit("\"name\"");
    reveal_strlit("[]");
}

/// A language is written to the folder that was loaded: the one in use there is selected at first,
/// else the first one listed, and applying it names that folder and that language.
pub proof fn the_loaded_folder_gets_its_language(
    app: &mut DrydockApp,
    directory: String,
    options: GameLanguageOptions,
    after: &DrydockApp,
    order: Option<(String, String)>,
    view: ToolsView,
)
    requires
        directory@.len() > 0,
        call_ensures(
            DrydockApp::load_language_from,
            (app, directory, Ok::<Option<GameLanguageOptions>, String>(Some(options))),
            (),
        ),
        *after == *final(app),
        call_ensures(DrydockApp::apply_tools_language, (after,), order),
        call_ensures(DrydockApp::tools_page, (after,), view),
    ensures
        order is Some,
        (order->0).0 == directory,
        options.current_language matches Some(language) ==> (order->0).1@ == language@,
        options.current_language is None && options.languages@.len() > 0 ==> (order->0).1@
            == options.languages@[0]@,
        options.current_language is None && options.languages@.len() == 0 ==> (order->0).1@.len() == 0,
        view.languages is Some,
        (view.languages->0).1@.len() == options.languages@.len(),
        !final(app).line.error,
        final(app).tools.emu_appid == old(app).tools.emu_appid,
        final(app).tools.language_path == old(app).tools.language_path,
{
    let shown = view.languages->0;
    assert(texts(shown.1@).len() == shown.1@.len());
}

/// Where a folder has no languages or cannot be read, nothing stays loaded and nothing can be
/// applied.
pub proof fn a_folder_without_languages_unloads(
    app: &mut DrydockApp,
    directory: String,
    read: Result<Option<GameLanguageOptions>, String>,
    after: &DrydockApp,
    order: Option<(String, String)>,
    view: ToolsView,
)
    requires
        !(read matches Ok(Some(_))),
        call_ensures(DrydockApp::load_language_from, (app, directory, read), ()),
        *after == *final(app),
        call_ensures(DrydockApp::apply_tools_language, (after,), order),
        call_ensures(DrydockApp::tools_page, (after,), view),
    ensures
        order is None,
        view.languages is None,
        directory@.len() > 0 ==> final(app).line.error,
        read matches Err(error) ==> directory@.len() > 0 ==> final(app).line.text@ == error@,
{
}

/// A built set is for the App ID that was typed, white space around it aside, with the choices of
/// the page. One job runs at a time, and its end makes room for the next.
pub proof fn the_typed_app_is_built(
    app: &mut DrydockApp,
    n: u32,
    written: String,
    before: Seq<char>,
    after: Seq<char>,
    order: Option<EmuOrder>,
    again: &mut DrydockApp,
    second: Option<EmuOrder>,
    polled: &mut DrydockApp,
    reply: Reply<Result<String, String>>,
)
    requires
        call_ensures(decimal, (n as u64,), written),
        old(app).tools.emu_appid@ == before + written@ + after,
        is_padding(before),
        is_padding(after),
        call_ensures(DrydockApp::start_emu_crack, (app,), order),
        *old(again) == *final(app),
        call_ensures(DrydockApp::start_emu_crack, (again,), second),
        *old(polled) == *final(again),
        call_ensures(DrydockApp::poll_emu_template, (polled, reply), ()),
    ensures
        order is Some <==> !old(app).steam_jobs.emu,
        order matches Some(order) ==> {
            &&& order.app_id == n
            &&& order.arch == old(app).tools.emu_arch
            &&& order.reframework == old(app).tools.emu_reframework
            &&& old(app).tools.emu_loader_winmm ==> order.loader@ == "winmm.dll"@
            &&& !old(app).tools.emu_loader_winmm ==> order.loader@ == "version.dll"@
        },
        second is None,
        final(polled).steam_jobs.emu <==> reply is Waiting,
        reply matches Reply::Done(Err(error)) ==> final(polled).line.error
            && final(polled).line.text@ == error@,
        reply matches Reply::Done(Ok(note)) ==> !final(polled).line.error
            && final(polled).line.text@ == note@,
{
    a_number_is_tight(n, written);
    core_is_left(before, written@, after);
}

proof fn a_number_is_tight(n: u32, written: String)
    requires
        call_ensures(decimal, (n as u64,), written),
    ensures
        is_tight(written@),
        numeral(written@) == Some(n as nat),
{
    let ghost text: Seq<char> = crate::text::decimal_text(n as nat);
    crate::laws::text::decimal_text_has_its_value(n as nat);
    assert('0' <= text[0] && text[0] <= '9');
    assert('0' <= text[text.len() - 1] && text[text.len() - 1] <= '9');
}

/// The skeleton is the path of the settings without the white space around it, and none where there
/// is only white space.
pub proof fn the_skeleton_is_the_path_in_the_settings(
    app: &mut DrydockApp,
    order: Option<EmuOrder>,
    before: Seq<char>,
    core: Seq<char>,
    after: Seq<char>,
)
    requires
        call_ensures(DrydockApp::start_emu_crack, (app,), order),
        order is Some,
        old(app).settings.emu_skeleton_path@ == before + core + after,
        is_padding(before),
        is_padding(after),
        is_tight(core),
    ensures
        order->0.skeleton is None <==> core.len() == 0,
        order->0.skeleton matches Some(path) ==> path@ == core,
{
    core_is_left(before, core, after);
    crate::text::blank_means_trimmed_away(old(app).settings.emu_skeleton_path@);
}

/// Where the page says that the files can be built, they are; nothing is built for App ID zero from
/// the page, and an archive is offered under the number.
pub proof fn what_the_panel_offers_is_built(
    app: &mut DrydockApp,
    page: &DrydockApp,
    panel: EmuPanel,
    order: Option<EmuOrder>,
)
    requires
        *page == *old(app),
        call_ensures(DrydockApp::emu_template_panel, (page,), panel),
        call_ensures(DrydockApp::start_emu_crack, (app,), order),
    ensures
        panel.can_build <==> (order matches Some(order) && order.app_id != 0),
        panel.busy ==> order is None,
        panel.archive_name@ == trimmed(old(app).tools.emu_appid@) + "_crack.zip"@,
{
}

/// The files of a game that Drydock installed go into its folder, where that still exists.
pub proof fn an_installed_game_is_built_in_its_folder(
    app: &mut DrydockApp,
    app_id: u32,
    exists_: bool,
    order: Option<(EmuOrder, String)>,
)
    requires
        call_ensures(DrydockApp::crack_drydock_game, (app, app_id, exists_), order),
    ensures
        order is Some <==> old(app).settings.installed_games@.contains_key(app_id)
            && !old(app).steam_jobs.emu && exists_,
        order matches Some(order) ==> {
            &&& order.0.app_id == app_id
            &&& order.0.arch == old(app).tools.emu_arch
            &&& order.0.reframework == old(app).tools.emu_reframework
            &&& order.1 == old(app).settings.installed_games@[app_id].install_dir
            &&& final(app).steam_jobs.emu
            &&& !final(app).line.error
        },
        order is None && old(app).settings.installed_games@.contains_key(app_id)
            ==> final(app).line.error,
        final(app).settings == old(app).settings,
{
}

/// A folder can be scanned where one is typed, and the languages that were found are shown.
pub proof fn a_typed_folder_can_be_scanned(app: &DrydockApp, view: crate::tools::ToolsView)
    requires
        call_ensures(DrydockApp::tools_page, (app,), view),
    ensures
        view.can_scan <==> !crate::laws::text::is_padding(app.tools.language_path@),
        view.languages is Some <==> app.tools.language_options is Some,
        view.languages matches Some(shown) ==> shown.1@.len()
            == app.tools.language_options->0.languages@.len(),
{
    crate::text::blank_means_trimmed_away(app.tools.language_path@);
    if let Some(shown) = view.languages {
        assert(crate::text::texts(shown.1@).len() == shown.1@.len());
    }
}

} // verus!
