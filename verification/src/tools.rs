//! The tools page: the language of a game folder, and the emulator files for a game.
use crate::helpers::PeArch;
use crate::library::installed_game;
use crate::library_actions::installed_name;
use crate::state::{
    DrydockApp, EmuArch, GameLanguageOptions, Part, SteamJobs, StatusLine, ToolsState,
};
use crate::text::{
    blank, cat2, cat3, chars_of, decimal, decimal_text, is_blank, join, joined,
    no_text, numeral, parse_u32, same_text, texts, trim, trimmed, uppercase,
};
use crate::helpers::path_if_present;
use crate::types::Reply;
use crate::unlocks::NamedFile;
use vstd::prelude::*;

verus! {

/// The text with one character put in place of another.
pub open spec fn with_replaced(text: Seq<char>, from: char, to: char) -> Seq<char> {
    text.map_values(
        |c: char|
            if c == from {
                to
            } else {
                c
            },
    )
}

/// The text with one character put in place of another.
pub fn replaced(text: &str, from: char, to: char) -> (result: String)
    ensures
        result@ == with_replaced(text@, from, to),
{
    let list = chars_of(text);
    let mut result = String::new();
    let mut i: usize = 0;
    while i < list.len()
        invariant
            i <= list@.len(),
            result@ == with_replaced(list@.take(i as int), from, to),
        decreases list@.len() - i,
    {
        let c = list[i];
        result.push(
            if c == from {
                to
            } else {
                c
            },
        );
        assert(list@.take(i + 1) =~= list@.take(i as int).push(c));
        assert(with_replaced(list@.take(i + 1), from, to) =~= result@);
        i += 1;
    }
    assert(list@.take(i as int) =~= list@);
    result
}

/// How often `part` stands in `text`, counted from the left without overlap.
pub open spec fn occurrences(text: Seq<char>, part: Seq<char>) -> nat
    decreases text.len(),
{
    if part.len() == 0 || text.len() < part.len() {
        0
    } else if text.take(part.len() as int) == part {
        1 + occurrences(text.skip(part.len() as int), part)
    } else {
        occurrences(text.skip(1), part)
    }
}

fn stands_at(text: &Vec<char>, part: &Vec<char>, at: usize) -> (result: bool)
    requires
        at + part@.len() <= text@.len(),
    ensures
        result == (text@.skip(at as int).take(part@.len() as int) == part@),
{
    let total: usize = text.len();
    let mut i: usize = 0;
    while i < part.len()
        invariant
            i <= part@.len(),
            at + part@.len() <= text@.len(),
            total == text@.len(),
            forall|k: int| 0 <= k < i ==> text@[at + k] == #[trigger] part@[k],
        decreases part@.len() - i,
    {
        if text[at + i] != part[i] {
            assert(text@.skip(at as int).take(part@.len() as int)[i as int] == text@[at + i]);
            return false;
        }
        i += 1;
    }
    let ghost found = text@.skip(at as int).take(part@.len() as int);
    assert forall|k: int| 0 <= k < part@.len() implies found[k] == #[trigger] part@[k] by {
        assert(found[k] == text@[at + k]);
    }
    assert(found =~= part@);
    true
}

/// How often `part` stands in `text`, counted from the left without overlap.
pub fn count_occurrences(text: &str, part: &str) -> (count: usize)
    requires
        part@.len() > 0,
    ensures
        count == occurrences(text@, part@),
{
    let list = chars_of(text);
    let wanted = chars_of(part);
    let mut count: usize = 0;
    let mut i: usize = 0;
    assert(list@.skip(0) =~= list@);
    while i < list.len() && wanted.len() <= list.len() - i
        invariant
            i <= list@.len(),
            count <= i,
            wanted@.len() > 0,
            occurrences(list@, wanted@) == count + occurrences(list@.skip(i as int), wanted@),
        decreases list@.len() - i,
    {
        let ghost rest = list@.skip(i as int);
        if stands_at(&list, &wanted, i) {
            assert(rest.skip(wanted@.len() as int) =~= list@.skip(i + wanted@.len()));
            count += 1;
            i += wanted.len();
        } else {
            assert(rest.skip(1) =~= list@.skip(i + 1));
            i += 1;
        }
    }
    count
}

/// How many achievements a schema lists.
pub fn count_achievements(schema: &str) -> (count: usize)
    ensures
        count == occurrences(schema@, "\"name\""@),
{
    proof {
        reveal_strlit("\"name\"");
    }
    count_occurrences(schema, "\"name\"")
}

/// The folder of an executable, written with backslashes, as the files beside it are prefixed.
/// `folder` is the folder of the executable's path, written with slashes.
pub fn exe_prefix(folder: Option<String>) -> (prefix: String)
    ensures
        prefix@ == (match folder {
            Some(folder) => with_replaced(folder@, '/', '\\'),
            None => Seq::empty(),
        }),
{
    match folder {
        Some(folder) => replaced(folder.as_str(), '/', '\\'),
        None => String::new(),
    }
}

/// What the path of a file beside the executable starts with.
pub open spec fn exe_lead(prefix: Seq<char>) -> Seq<char> {
    if prefix.len() == 0 {
        Seq::empty()
    } else {
        prefix + "\\"@
    }
}

/// The path of a file beside the executable.
pub fn beside_exe(prefix: &str, name: &str) -> (path: String)
    ensures
        path@ == exe_lead(prefix@) + name@,
{
    if no_text(prefix) {
        let path = name.to_owned();
        assert(path@ =~= exe_lead(prefix@) + name@);
        path
    } else {
        cat3(prefix, "\\", name)
    }
}

/// Files by their paths and contents.
pub open spec fn file_list(files: Seq<NamedFile>) -> Seq<(Seq<char>, Seq<u8>)> {
    files.map_values(|file: NamedFile| (file.name@, file.bytes@))
}

/// Files by their paths and contents, each path with `lead` before it.
pub open spec fn led_by(lead: Seq<char>, files: Seq<NamedFile>) -> Seq<(Seq<char>, Seq<u8>)> {
    files.map_values(|file: NamedFile| (lead + file.name@, file.bytes@))
}

/// One file by its path and contents, or none.
pub open spec fn at_most_one(path: Seq<char>, bytes: Option<Vec<u8>>) -> Seq<(Seq<char>, Seq<u8>)> {
    match bytes {
        Some(bytes) => seq![(path, bytes@)],
        None => Seq::empty(),
    }
}

/// The emulator files of a game: the configuration as it is, the libraries beside the executable,
/// the notification sound and the stub libraries with the settings, REFramework beside the
/// executable, and the achievement images with the settings.
pub open spec fn emu_file_list(
    prefix: Seq<char>,
    settings_dir: Seq<char>,
    configs: Seq<NamedFile>,
    libraries: Seq<NamedFile>,
    sound: Option<Vec<u8>>,
    stubs: Seq<NamedFile>,
    reframework: Option<Vec<u8>>,
    images: Seq<NamedFile>,
) -> Seq<(Seq<char>, Seq<u8>)> {
    file_list(configs) + led_by(exe_lead(prefix), libraries) + at_most_one(
        settings_dir + "sounds\\overlay_achievement_notification.wav"@,
        sound,
    ) + led_by(settings_dir, stubs) + at_most_one(exe_lead(prefix) + "dinput8.dll"@, reframework)
        + led_by(settings_dir + "image\\"@, images)
}

fn put(files: &mut Vec<NamedFile>, name: String, bytes: Vec<u8>)
    ensures
        file_list(final(files)@) == file_list(old(files)@).push((name@, bytes@)),
{
    files.push(NamedFile { name, bytes });
    assert(file_list(files@) =~= file_list(old(files)@).push((name@, bytes@)));
}

fn put_one(files: &mut Vec<NamedFile>, name: String, bytes: Option<Vec<u8>>)
    ensures
        file_list(final(files)@) == file_list(old(files)@) + at_most_one(name@, bytes),
{
    match bytes {
        Some(bytes) => {
            put(files, name, bytes);
        },
        None => {},
    }
    assert(file_list(files@) =~= file_list(old(files)@) + at_most_one(name@, bytes));
}

fn put_led_by(files: &mut Vec<NamedFile>, lead: &str, more: Vec<NamedFile>)
    ensures
        file_list(final(files)@) == file_list(old(files)@) + led_by(lead@, more@),
{
    let ghost start = file_list(files@);
    let ghost all = more@;
    assert(start + led_by(lead@, all.take(0)) =~= start);
    for file in it: more.into_iter()
        invariant
            it.seq() == all,
            file_list(files@) == start + led_by(lead@, all.take(it.index())),
    {
        let ghost n = it.index();
        let path = cat2(lead, file.name.as_str());
        put(files, path, file.bytes);
        proof {
            assert(all[n] == file);
            assert(all.take(n + 1) =~= all.take(n).push(file));
            assert(led_by(lead@, all.take(n + 1)) =~= led_by(lead@, all.take(n)).push(
                (lead@ + file.name@, file.bytes@),
            ));
            assert(file_list(files@) =~= start + led_by(lead@, all.take(n + 1)));
        }
    }
    assert(all.take(all.len() as int) =~= all);
}

/// The emulator files of a game in the order in which they are written. `prefix` is the folder of
/// the executable and `settings_dir` that of the settings, with a backslash at its end; both are
/// seen from the game's folder.
pub fn emu_files(
    prefix: &str,
    settings_dir: &str,
    configs: Vec<NamedFile>,
    libraries: Vec<NamedFile>,
    sound: Option<Vec<u8>>,
    stubs: Vec<NamedFile>,
    reframework: Option<Vec<u8>>,
    images: Vec<NamedFile>,
) -> (files: Vec<NamedFile>)
    ensures
        file_list(files@) == emu_file_list(
            prefix@,
            settings_dir@,
            configs@,
            libraries@,
            sound,
            stubs@,
            reframework,
            images@,
        ),
{
    let mut files = configs;
    let beside = beside_exe(prefix, "");
    proof {
        reveal_strlit("");
        assert(beside@ =~= exe_lead(prefix@));
    }
    put_led_by(&mut files, beside.as_str(), libraries);
    put_one(
        &mut files,
        cat2(settings_dir, "sounds\\overlay_achievement_notification.wav"),
        sound,
    );
    put_led_by(&mut files, settings_dir, stubs);
    put_one(&mut files, beside_exe(prefix, "dinput8.dll"), reframework);
    let pictures = cat2(settings_dir, "image\\");
    put_led_by(&mut files, pictures.as_str(), images);
    files
}

/// Where a file is written in the game's folder: at its path joined to the folder. `None` where
/// that is the folder itself, because no part of the path is fit to be written to.
pub fn emu_target<'a>(folder: &str, joined: &'a str) -> (target: Option<&'a str>)
    ensures
        target is None <==> joined@ == folder@,
        target matches Some(target) ==> target@ == joined@,
{
    if same_text(joined, folder) {
        None
    } else {
        Some(joined)
    }
}

/// A library of the emulator with what was read of it from the cache.
pub fn emu_library(name: String, read: Option<Vec<u8>>) -> (library: Result<NamedFile, String>)
    ensures
        match read {
            Some(bytes) => library == Ok::<NamedFile, String>(NamedFile { name, bytes }),
            None => library matches Err(error) && error@ == missing_file(name@),
        },
{
    match read {
        Some(bytes) => Ok(NamedFile { name, bytes }),
        None => Err(missing_file_text(name.as_str())),
    }
}

/// The schema of a game's achievements: an empty list where there was none to be had.
pub fn achievements_schema(answer: Result<String, String>) -> (schema: String)
    ensures
        match answer {
            Ok(text) => schema == text,
            Err(_) => schema@ == "[]"@,
        },
{
    match answer {
        Ok(text) => text,
        Err(_) => "[]".to_owned(),
    }
}

/// Every configuration file, library, stub and image is written once, and so are the sound and
/// REFramework where they are there.
pub proof fn every_emu_file_is_written_once(
    prefix: Seq<char>,
    settings_dir: Seq<char>,
    configs: Seq<NamedFile>,
    libraries: Seq<NamedFile>,
    sound: Option<Vec<u8>>,
    stubs: Seq<NamedFile>,
    reframework: Option<Vec<u8>>,
    images: Seq<NamedFile>,
)
    ensures
        emu_file_list(
            prefix,
            settings_dir,
            configs,
            libraries,
            sound,
            stubs,
            reframework,
            images,
        ).len() == configs.len() + libraries.len() + stubs.len() + images.len() + (if sound is Some {
            1int
        } else {
            0
        }) + (if reframework is Some {
            1int
        } else {
            0
        }),
{
}

/// The architecture to use: an explicit choice wins, then the game's executable on disk, then what
/// Steam says, then what the depot's paths give away.
pub open spec fn arch_for(
    choice: EmuArch,
    from_exe: Option<PeArch>,
    from_steam: Option<bool>,
    from_depot: Option<PeArch>,
) -> Option<PeArch> {
    match choice {
        EmuArch::X64 => Some(PeArch::X64),
        EmuArch::X86 => Some(PeArch::X86),
        EmuArch::Auto => match (from_exe, from_steam) {
            (Some(arch), _) => Some(arch),
            (None, Some(is_wide)) => Some(
                if is_wide {
                    PeArch::X64
                } else {
                    PeArch::X86
                },
            ),
            (None, None) => from_depot,
        },
    }
}

/// The architecture to use: an explicit choice wins, then the game's executable on disk, then what
/// Steam says, then what the depot's paths give away.
pub fn resolve_arch(
    choice: EmuArch,
    from_exe: Option<PeArch>,
    from_steam: Option<bool>,
    from_depot: Option<PeArch>,
) -> (arch: Result<PeArch, String>)
    ensures
        match arch_for(choice, from_exe, from_steam, from_depot) {
            Some(found) => arch == Ok::<PeArch, String>(found),
            None => arch matches Err(error) && error@
                == "Could not auto-detect the architecture. Pick x64 or x86 in the Arch selector and try again."@,
        },
{
    match choice {
        EmuArch::X64 => {
            return Ok(PeArch::X64);
        },
        EmuArch::X86 => {
            return Ok(PeArch::X86);
        },
        EmuArch::Auto => {},
    }
    if let Some(arch) = from_exe {
        return Ok(arch);
    }
    if let Some(is_wide) = from_steam {
        return Ok(
            if is_wide {
                PeArch::X64
            } else {
                PeArch::X86
            },
        );
    }
    match from_depot {
        Some(arch) => Ok(arch),
        None => Err(
            "Could not auto-detect the architecture. Pick x64 or x86 in the Arch selector and try again.".to_owned(),
        ),
    }
}

/// What is said of a file that is missing from the cache.
pub open spec fn missing_file(name: Seq<char>) -> Seq<char> {
    "Emu file "@ + name
        + " is missing — your antivirus likely removed it. Add a Windows Security exclusion for the Drydock cache and game folders, then click RE-DOWNLOAD EMU FILES."@
}

/// What is said of a file that is missing from the cache.
pub fn missing_file_text(name: &str) -> (text: String)
    ensures
        text@ == missing_file(name@),
{
    cat3(
        "Emu file ",
        name,
        " is missing — your antivirus likely removed it. Add a Windows Security exclusion for the Drydock cache and game folders, then click RE-DOWNLOAD EMU FILES.",
    )
}

/// What a finished set of emulator files holds.
pub struct EmuTally<'a> {
    pub app_id: u32,
    /// The architecture's name.
    pub arch: &'a str,
    pub configs: usize,
    pub libraries: usize,
    pub images: usize,
    pub reframework: bool,
    pub depots: usize,
    pub extras: usize,
    pub achievements: usize,
}

impl<'a> EmuTally<'a> {
    /// What goes beyond the configuration and the libraries.
    pub open spec fn extra_parts(&self) -> Seq<Seq<char>> {
        (if self.images > 0 {
            seq![decimal_text(self.images as nat) + " achievement image(s)"@]
        } else {
            Seq::empty()
        }) + (if self.reframework {
            seq!["REFramework"@]
        } else {
            Seq::empty()
        })
    }

    /// What goes beyond the configuration and the libraries, in words.
    pub open spec fn extras_text(&self) -> Seq<char> {
        if self.extra_parts().len() == 0 {
            Seq::empty()
        } else {
            " + "@ + joined(self.extra_parts(), " + "@)
        }
    }

    fn extras_note(&self) -> (note: String)
        ensures
            note@ == self.extras_text(),
    {
        let mut parts: Vec<String> = Vec::new();
        if self.images > 0 {
            let number = decimal(self.images as u64);
            parts.push(cat2(number.as_str(), " achievement image(s)"));
        }
        if self.reframework {
            parts.push("REFramework".to_owned());
        }
        assert(texts(parts@) =~= self.extra_parts());
        if parts.len() == 0 {
            String::new()
        } else {
            let list = join(&parts, " + ");
            cat2(" + ", list.as_str())
        }
    }

    /// What is said once the files are in the game's folder.
    pub fn deployed_note(&self, folder: &str) -> (note: String)
        ensures
            note@ == "Cracked App "@ + decimal_text(self.app_id as nat) + " ("@ + self.arch@
                + ") into "@ + folder@ + " — "@ + decimal_text(self.configs as nat)
                + " configs + "@ + decimal_text(self.libraries as nat) + " DLLs"@
                + self.extras_text() + ", "@ + decimal_text(self.achievements as nat)
                + " achievement(s)."@,
    {
        let app = decimal(self.app_id as u64);
        let configs = decimal(self.configs as u64);
        let libraries = decimal(self.libraries as u64);
        let extras = self.extras_note();
        let achievements = decimal(self.achievements as u64);
        let mut note = "Cracked App ".to_owned();
        note.append(app.as_str());
        note.append(" (");
        note.append(self.arch);
        note.append(") into ");
        note.append(folder);
        note.append(" — ");
        note.append(configs.as_str());
        note.append(" configs + ");
        note.append(libraries.as_str());
        note.append(" DLLs");
        note.append(extras.as_str());
        note.append(", ");
        note.append(achievements.as_str());
        note.append(" achievement(s).");
        note
    }

    /// What is said once the files are in an archive.
    pub fn zipped_note(&self, path: &str) -> (note: String)
        ensures
            note@ == "Crack ZIP for App "@ + decimal_text(self.app_id as nat) + " ("@ + self.arch@
                + ") saved to "@ + path@ + " — "@ + decimal_text(self.configs as nat)
                + " config files + "@ + decimal_text(self.libraries as nat) + " DLLs"@
                + self.extras_text() + ". "@ + decimal_text(self.depots as nat) + " depot(s), "@
                + decimal_text(self.extras as nat) + " DLC(s), "@ + decimal_text(
                self.achievements as nat,
            ) + " achievement(s)."@,
    {
        let app = decimal(self.app_id as u64);
        let configs = decimal(self.configs as u64);
        let libraries = decimal(self.libraries as u64);
        let extras = self.extras_note();
        let depots = decimal(self.depots as u64);
        let contents = decimal(self.extras as u64);
        let achievements = decimal(self.achievements as u64);
        let mut note = "Crack ZIP for App ".to_owned();
        note.append(app.as_str());
        note.append(" (");
        note.append(self.arch);
        note.append(") saved to ");
        note.append(path);
        note.append(" — ");
        note.append(configs.as_str());
        note.append(" config files + ");
        note.append(libraries.as_str());
        note.append(" DLLs");
        note.append(extras.as_str());
        note.append(". ");
        note.append(depots.as_str());
        note.append(" depot(s), ");
        note.append(contents.as_str());
        note.append(" DLC(s), ");
        note.append(achievements.as_str());
        note.append(" achievement(s).");
        note
    }
}

/// What a background job for the emulator files is to do.
pub struct EmuOrder {
    pub app_id: u32,
    pub arch: EmuArch,
    pub loader: &'static str,
    pub reframework: bool,
    pub skeleton: Option<String>,
}

/// What the emulator card shows, apart from its fields.
pub struct EmuPanel {
    /// Whether the files can be built: an App ID is typed in and no job runs.
    pub can_build: bool,
    pub busy: bool,
    /// The name that an archive is offered under.
    pub archive_name: String,
}

/// What the tools page shows, apart from its fields.
pub struct ToolsView {
    pub can_scan: bool,
    /// The selected language, and all of them, where a folder with languages is loaded.
    pub languages: Option<(String, Vec<String>)>,
}

/// The languages of a list in capitals.
pub open spec fn in_capitals(languages: Seq<String>) -> Seq<Seq<char>> {
    languages.map_values(|language: String| uppercase(language@))
}

fn capitals(languages: &Vec<String>) -> (labels: Vec<String>)
    ensures
        texts(labels@) == in_capitals(languages@),
{
    let mut labels: Vec<String> = Vec::new();
    let mut i: usize = 0;
    while i < languages.len()
        invariant
            i <= languages@.len(),
            texts(labels@) == in_capitals(languages@.take(i as int)),
        decreases languages@.len() - i,
    {
        let ghost before = texts(labels@);
        let label = languages[i].as_str().to_uppercase();
        labels.push(label);
        assert(texts(labels@) =~= before.push(label@));
        assert(in_capitals(languages@.take(i + 1)) =~= in_capitals(languages@.take(i as int)).push(
            uppercase(languages@[i as int]@),
        ));
        i += 1;
    }
    assert(languages@.take(i as int) =~= languages@);
    labels
}

/// The number typed into the App ID field, where it is one.
pub open spec fn typed_app_id(text: Seq<char>) -> Option<nat> {
    match numeral(trimmed(text)) {
        Some(n) => if n <= u32::MAX {
            Some(n)
        } else {
            None
        },
        None => None,
    }
}

/// The language that is selected when a folder is loaded: the one in use, else the first.
pub open spec fn first_selection(options: GameLanguageOptions) -> Seq<char> {
    match options.current_language {
        Some(language) => language@,
        None => if options.languages@.len() > 0 {
            options.languages@[0]@
        } else {
            Seq::empty()
        },
    }
}

impl ToolsState {
    /// Whether `after` is this page with no folder loaded.
    pub open spec fn unloaded(&self, after: ToolsState) -> bool {
        &&& after == (ToolsState {
            language_options: None,
            language_directory: None,
            language_selection: after.language_selection,
            ..*self
        })
        &&& after.language_selection@ == Seq::<char>::empty()
    }

    /// Whether `after` is this page with a folder loaded.
    pub open spec fn loaded(
        &self,
        directory: String,
        options: GameLanguageOptions,
        after: ToolsState,
    ) -> bool {
        &&& after == (ToolsState {
            language_options: Some(options),
            language_directory: Some(directory),
            language_selection: after.language_selection,
            ..*self
        })
        &&& after.language_selection@ == first_selection(options)
    }
}

impl DrydockApp {
    /// Loads the languages of a folder, given what was read there.
    pub fn load_language_from(
        &mut self,
        directory: String,
        read: Result<Option<GameLanguageOptions>, String>,
    )
        ensures
            ({
                let before = *old(self);
                let after = *final(self);
                &&& before.keeps_all_but(set![Part::Tools, Part::Line], after)
                &&& if directory@.len() == 0 {
                    &&& before.tools.unloaded(after.tools)
                    &&& after.line == before.line
                } else {
                    match read {
                        Ok(Some(options)) => {
                            &&& before.tools.loaded(directory, options, after.tools)
                            &&& after.line.says(
                                "Found "@ + decimal_text(options.languages@.len())
                                    + " language option(s)"@,
                                false,
                                before.line.busy,
                            )
                        },
                        Ok(None) => {
                            &&& before.tools.unloaded(after.tools)
                            &&& after.line.says(
                                "No language files found in that folder."@,
                                true,
                                before.line.busy,
                            )
                        },
                        Err(error) => {
                            &&& before.tools.unloaded(after.tools)
                            &&& after.line == (StatusLine {
                                text: error,
                                error: true,
                                busy: before.line.busy,
                            })
                        },
                    }
                }
            }),
    {
        self.tools.language_options = None;
        self.tools.language_directory = None;
        self.tools.language_selection = String::new();
        if no_text(directory.as_str()) {
            return;
        }
        match read {
            Ok(Some(options)) => {
                let selection = match &options.current_language {
                    Some(language) => language.clone(),
                    None => if options.languages.len() > 0 {
                        options.languages[0].clone()
                    } else {
                        String::new()
                    },
                };
                let count = decimal(options.languages.len() as u64);
                let text = cat3("Found ", count.as_str(), " language option(s)");
                self.report(text, false);
                self.tools.language_selection = selection;
                self.tools.language_directory = Some(directory);
                self.tools.language_options = Some(options);
            },
            Ok(None) => {
                self.report("No language files found in that folder.".to_owned(), true);
            },
            Err(error) => {
                self.report(error, true);
            },
        }
    }

    /// The folder and the language to write, where a folder is loaded.
    pub fn apply_tools_language(&self) -> (order: Option<(String, String)>)
        ensures
            order is Some <==> self.tools.language_directory is Some,
            order matches Some(order) ==> order.0 == self.tools.language_directory->0 && order.1
                == self.tools.language_selection,
    {
        match &self.tools.language_directory {
            Some(directory) => Some((directory.clone(), self.tools.language_selection.clone())),
            None => None,
        }
    }

    /// Takes the outcome of writing a language, and tells whether the folder is to be loaded anew.
    pub fn language_applied(&mut self, applied: Result<String, String>) -> (reload: bool)
        ensures
            reload == (applied is Ok),
            old(self).keeps_all_but(set![Part::Line], *final(self)),
            match applied {
                Ok(language) => final(self).line.says(
                    "Language changed to "@ + language@,
                    false,
                    old(self).line.busy,
                ),
                Err(error) => final(self).line.says(error@, true, old(self).line.busy),
            },
    {
        match applied {
            Ok(language) => {
                let text = cat2("Language changed to ", language.as_str());
                self.report(text, false);
                true
            },
            Err(error) => {
                self.report(error, true);
                false
            },
        }
    }

    /// Whether `order` is the order for an app under the choices on the page.
    pub open spec fn is_emu_order(&self, app_id: u32, order: EmuOrder) -> bool {
        &&& order.app_id == app_id
        &&& order.arch == self.tools.emu_arch
        &&& order.reframework == self.tools.emu_reframework
        &&& order.loader@ == if self.tools.emu_loader_winmm {
            "winmm.dll"@
        } else {
            "version.dll"@
        }
        &&& order.skeleton is Some <==> !blank(self.settings.emu_skeleton_path@)
        &&& order.skeleton matches Some(path) ==> path@ == trimmed(
            self.settings.emu_skeleton_path@,
        )
    }

    fn emu_order(&self, app_id: u32) -> (order: EmuOrder)
        ensures
            self.is_emu_order(app_id, order),
    {
        EmuOrder {
            app_id,
            arch: self.tools.emu_arch,
            loader: if self.tools.emu_loader_winmm {
                "winmm.dll"
            } else {
                "version.dll"
            },
            reframework: self.tools.emu_reframework,
            skeleton: path_if_present(self.settings.emu_skeleton_path.as_str()),
        }
    }

    /// Starts the job that puts the emulator files into a game of Drydock. The order comes with the
    /// game's folder.
    pub fn crack_drydock_game(&mut self, app_id: u32, folder_exists: bool) -> (order: Option<
        (EmuOrder, String),
    >)
        ensures
            ({
                let before = *old(self);
                let after = *final(self);
                let installed = before.settings.installed_games@.contains_key(app_id);
                &&& before.keeps_all_but(set![Part::SteamJobs, Part::Line], after)
                &&& order is Some <==> installed && !before.steam_jobs.emu && folder_exists
                &&& after.steam_jobs == if order is Some {
                    SteamJobs { emu: true, ..before.steam_jobs }
                } else {
                    before.steam_jobs
                }
                &&& order matches Some(order) ==> {
                    &&& before.is_emu_order(app_id, order.0)
                    &&& order.1 == before.settings.installed_games@[app_id].install_dir
                }
                &&& if !installed {
                    after.line == before.line
                } else if before.steam_jobs.emu {
                    after.line.says("A crack job is already running."@, true, before.line.busy)
                } else if !folder_exists {
                    after.line.says(
                        "The game's install folder no longer exists."@,
                        true,
                        before.line.busy,
                    )
                } else {
                    after.line.says(
                        "Cracking "@ + installed_name(before, app_id)
                            + " — resolving config and emu files…"@,
                        false,
                        before.line.busy,
                    )
                }
            }),
    {
        let game = match installed_game(&self.settings.installed_games, app_id) {
            Some(game) => game,
            None => {
                return None;
            },
        };
        if self.steam_jobs.emu {
            self.report("A crack job is already running.".to_owned(), true);
            return None;
        }
        if !folder_exists {
            self.report("The game's install folder no longer exists.".to_owned(), true);
            return None;
        }
        let order = self.emu_order(app_id);
        let name = self.name_of_installed(app_id, &game);
        let text = cat3("Cracking ", name.as_str(), " — resolving config and emu files…");
        self.steam_jobs.emu = true;
        self.report(text, false);
        Some((order, game.install_dir))
    }

    /// Starts the job that builds the emulator files for the App ID typed into the page.
    pub fn start_emu_crack(&mut self) -> (order: Option<EmuOrder>)
        ensures
            ({
                let before = *old(self);
                let after = *final(self);
                let typed = typed_app_id(before.tools.emu_appid@);
                &&& before.keeps_all_but(set![Part::SteamJobs, Part::Line], after)
                &&& order is Some <==> typed is Some && !before.steam_jobs.emu
                &&& match order {
                    Some(order) => {
                        &&& order.app_id == typed->0
                        &&& before.is_emu_order(order.app_id, order)
                        &&& after.steam_jobs == (SteamJobs { emu: true, ..before.steam_jobs })
                        &&& after.line.says(
                            "Cracking — resolving config and emu files…"@,
                            false,
                            before.line.busy,
                        )
                    },
                    None => after.steam_jobs == before.steam_jobs && after.line == before.line,
                }
            }),
    {
        let typed = trim(self.tools.emu_appid.as_str());
        let app_id: u32 = match parse_u32(typed.as_str()) {
            Some(app_id) => app_id,
            None => {
                return None;
            },
        };
        if self.steam_jobs.emu {
            return None;
        }
        let order = self.emu_order(app_id);
        self.steam_jobs.emu = true;
        self.report("Cracking — resolving config and emu files…".to_owned(), false);
        Some(order)
    }

    /// Starts the job that fetches the emulator files anew, and tells whether it is to run.
    pub fn start_emu_toolchain_refresh(&mut self) -> (fetch: bool)
        ensures
            fetch == !old(self).steam_jobs.emu,
            old(self).keeps_all_but(set![Part::SteamJobs, Part::Line], *final(self)),
            final(self).steam_jobs == (SteamJobs { emu: true, ..old(self).steam_jobs }),
            fetch ==> final(self).line.says(
                "Re-downloading the emu binaries…"@,
                false,
                old(self).line.busy,
            ),
            !fetch ==> final(self).line == old(self).line,
    {
        if self.steam_jobs.emu {
            return false;
        }
        self.steam_jobs.emu = true;
        self.report("Re-downloading the emu binaries…".to_owned(), false);
        true
    }

    /// Takes what the job for the emulator files had to say.
    pub fn poll_emu_template(&mut self, reply: Reply<Result<String, String>>)
        ensures
            ({
                let before = *old(self);
                let after = *final(self);
                let heard = before.steam_jobs.emu && !(reply is Waiting);
                &&& before.keeps_all_but(set![Part::SteamJobs, Part::Line], after)
                &&& after.steam_jobs == if heard {
                    SteamJobs { emu: false, ..before.steam_jobs }
                } else {
                    before.steam_jobs
                }
                &&& match reply {
                    Reply::Done(Ok(message)) if heard => after.line.says(
                        message@,
                        false,
                        before.line.busy,
                    ),
                    Reply::Done(Err(error)) if heard => after.line.says(
                        error@,
                        true,
                        before.line.busy,
                    ),
                    Reply::Lost if heard => after.line.says(
                        "The template generator ended unexpectedly"@,
                        true,
                        before.line.busy,
                    ),
                    _ => after.line == before.line,
                }
            }),
    {
        if !self.steam_jobs.emu {
            return;
        }
        match reply {
            Reply::Waiting => {},
            Reply::Lost => {
                self.steam_jobs.emu = false;
                self.report("The template generator ended unexpectedly".to_owned(), true);
            },
            Reply::Done(Ok(message)) => {
                self.steam_jobs.emu = false;
                self.report(message, false);
            },
            Reply::Done(Err(error)) => {
                self.steam_jobs.emu = false;
                self.report(error, true);
            },
        }
    }

    /// What the emulator card shows, apart from its fields.
    pub fn emu_template_panel(&self) -> (panel: EmuPanel)
        ensures
            panel.busy == self.steam_jobs.emu,
            panel.can_build == (!self.steam_jobs.emu && match typed_app_id(self.tools.emu_appid@) {
                Some(app_id) => app_id > 0,
                None => false,
            }),
            panel.archive_name@ == trimmed(self.tools.emu_appid@) + "_crack.zip"@,
    {
        let typed = trim(self.tools.emu_appid.as_str());
        let valid = match parse_u32(typed.as_str()) {
            Some(app_id) => app_id > 0,
            None => false,
        };
        EmuPanel {
            can_build: valid && !self.steam_jobs.emu,
            busy: self.steam_jobs.emu,
            archive_name: cat2(typed.as_str(), "_crack.zip"),
        }
    }

    /// What the tools page shows, apart from its fields.
    pub fn tools_page(&self) -> (view: ToolsView)
        ensures
            view.can_scan == !blank(self.tools.language_path@),
            match self.tools.language_options {
                Some(options) => view.languages matches Some(shown) && shown.0@ == uppercase(
                    self.tools.language_selection@,
                ) && texts(shown.1@) == in_capitals(options.languages@),
                None => view.languages is None,
            },
    {
        ToolsView {
            can_scan: !is_blank(self.tools.language_path.as_str()),
            languages: match &self.tools.language_options {
                Some(options) => Some(
                    (
                        self.tools.language_selection.as_str().to_uppercase(),
                        capitals(&options.languages),
                    ),
                ),
                None => None,
            },
        }
    }
}

/// A choice of architecture is never overruled.
pub proof fn chosen_architecture_wins(
    from_exe: Option<PeArch>,
    from_steam: Option<bool>,
    from_depot: Option<PeArch>,
)
    ensures
        arch_for(EmuArch::X64, from_exe, from_steam, from_depot) == Some(PeArch::X64),
        arch_for(EmuArch::X86, from_exe, from_steam, from_depot) == Some(PeArch::X86),
{
}

/// Without a choice, the game's own executable decides wherever it can be read.
pub proof fn executable_decides(
    arch: PeArch,
    from_steam: Option<bool>,
    from_depot: Option<PeArch>,
)
    ensures
        arch_for(EmuArch::Auto, Some(arch), from_steam, from_depot) == Some(arch),
{
}

} // verus!
