//! What the library says and offers of a game.
use crate::helpers::{artwork, artwork_url, human_bytes, size_text};
use crate::library::{
    count_entries, installed_count, is_sorted_list, listed, LibraryCounts, LibraryEntry,
    LibrarySource,
};
use crate::state::DrydockApp;
use crate::text::{cat2, decimal, decimal_text, texts};
use crate::types::{CatalogApp, Tone};
use std::collections::HashSet;
use vstd::prelude::*;

verus! {

/// What the user can ask for in the library.
#[derive(Clone, Copy, Debug, PartialEq, Eq, Structural)]
pub enum LibraryAction {
    Select(u32),
    Details(u32),
    Launch(u32),
    SetExe(u32),
    InstallSteam(u32),
    UninstallSteam(u32),
    UpdateLua(u32),
    RemoveLua(u32),
    VerifyDrydock(u32),
    UpdateDrydock(u32),
    CrackDrydock(u32),
    UninstallDrydock(u32),
    /// Open the folder that the game is installed in.
    OpenFolder(u32),
}

/// A button of a game's window: what it asks for and what it is called.
pub struct OverviewButton {
    pub action: LibraryAction,
    pub label: &'static str,
}

/// A button of a game's window, as contracts speak of it.
pub open spec fn button(action: LibraryAction, label: Seq<char>) -> (LibraryAction, Seq<char>) {
    (action, label)
}

/// The models of a list of buttons.
pub open spec fn buttons_of(buttons: Seq<OverviewButton>) -> Seq<(LibraryAction, Seq<char>)> {
    buttons.map_values(|b: OverviewButton| (b.action, b.label@))
}

/// The button that opens the game's folder, where it has one.
pub open spec fn browse_button(entry: LibraryEntry) -> Seq<(LibraryAction, Seq<char>)> {
    if entry.install_dir is Some {
        seq![button(LibraryAction::OpenFolder(entry.app_id), "BROWSE"@)]
    } else {
        Seq::empty()
    }
}

/// The buttons of a game's window.
pub open spec fn overview_buttons(entry: LibraryEntry) -> Seq<(LibraryAction, Seq<char>)> {
    let id = entry.app_id;
    match entry.source {
        LibrarySource::Available => seq![
            button(LibraryAction::InstallSteam(id), "INSTALL"@),
            button(LibraryAction::UpdateLua(id), "UPDATE LUA"@),
            button(LibraryAction::Details(id), "STORE"@),
            button(LibraryAction::RemoveLua(id), "REMOVE LUA"@),
        ],
        LibrarySource::SteamInstalled => seq![button(LibraryAction::Launch(id), "PLAY"@)]
            + browse_button(entry) + seq![
            button(LibraryAction::Details(id), "STORE"@),
            button(LibraryAction::UpdateLua(id), "UPDATE LUA"@),
            button(LibraryAction::RemoveLua(id), "REMOVE LUA"@),
            button(LibraryAction::UninstallSteam(id), "UNINSTALL"@),
        ],
        LibrarySource::DrydockInstalled => seq![
            if entry.launch_path is Some {
                button(LibraryAction::Launch(id), "PLAY"@)
            } else {
                button(LibraryAction::SetExe(id), "SET .EXE"@)
            },
        ] + browse_button(entry) + seq![
            button(LibraryAction::Details(id), "STORE"@),
            button(LibraryAction::VerifyDrydock(id), "VERIFY"@),
            button(LibraryAction::UpdateDrydock(id), "UPDATE"@),
            button(LibraryAction::CrackDrydock(id), "CRACK"@),
        ] + (if entry.launch_path is Some {
            seq![button(LibraryAction::SetExe(id), "CHANGE .EXE"@)]
        } else {
            Seq::empty()
        }) + seq![button(LibraryAction::UninstallDrydock(id), "UNINSTALL"@)],
    }
}

/// A row of facts about a game.
pub struct InfoRow {
    pub label: &'static str,
    pub value: String,
    pub tone: Tone,
}

/// The models of a list of rows.
pub open spec fn rows_of(rows: Seq<InfoRow>) -> Seq<(Seq<char>, Seq<char>, Tone)> {
    rows.map_values(|row: InfoRow| (row.label@, row.value@, row.tone))
}

/// The rows of facts about a game.
pub open spec fn info_rows(entry: LibraryEntry) -> Seq<(Seq<char>, Seq<char>, Tone)> {
    seq![
        ("Platform:  "@, "Windows (x64)"@, Tone::Text),
        match entry.launch_path {
            Some(path) => ("Executable:  "@, path@, Tone::Text),
            None => if entry.source == LibrarySource::SteamInstalled {
                (
                    "Executable:  "@,
                    "steam://run/"@ + decimal_text(entry.app_id as nat),
                    Tone::Text,
                )
            } else {
                ("Executable:  "@, "No launcher linked"@, Tone::Amber)
            },
        },
    ] + (match entry.size_on_disk {
        Some(size) => seq![("Size on disk:  "@, size_text(size as nat), Tone::Text)],
        None => Seq::empty(),
    }) + seq![
        match entry.install_dir {
            Some(folder) => ("Location:  "@, folder@, Tone::Text),
            None => ("Location:  "@, "Not installed on local disk"@, Tone::Muted),
        },
    ]
}

fn push_button(buttons: &mut Vec<OverviewButton>, action: LibraryAction, label: &'static str)
    ensures
        buttons_of(final(buttons)@) == buttons_of(old(buttons)@).push((action, label@)),
{
    let ghost before = buttons_of(buttons@);
    buttons.push(OverviewButton { action, label });
    assert(buttons_of(buttons@) =~= before.push((action, label@)));
}

fn push_row(rows: &mut Vec<InfoRow>, label: &'static str, value: String, tone: Tone)
    ensures
        rows_of(final(rows)@) == rows_of(old(rows)@).push((label@, value@, tone)),
{
    let ghost before = rows_of(rows@);
    rows.push(InfoRow { label, value, tone });
    assert(rows_of(rows@) =~= before.push((label@, value@, tone)));
}

impl LibraryEntry {
    /// The dot of a game's poster, in colour and in words.
    pub fn poster_status(&self) -> (status: (Tone, &'static str))
        ensures
            match self.source {
                LibrarySource::SteamInstalled => status.0 == Tone::Verdigris && status.1@
                    == "INSTALLED"@,
                LibrarySource::DrydockInstalled => status.0 == Tone::Accent && status.1@
                    == "STANDALONE"@,
                LibrarySource::Available => status.0 == Tone::Amber && status.1@ == "AVAILABLE"@,
            },
    {
        match self.source {
            LibrarySource::SteamInstalled => (Tone::Verdigris, "INSTALLED"),
            LibrarySource::DrydockInstalled => (Tone::Accent, "STANDALONE"),
            LibrarySource::Available => (Tone::Amber, "AVAILABLE"),
        }
    }

    /// The lines that hovering over a poster shows below the name.
    pub fn poster_hint(&self) -> (lines: (String, Option<String>))
        ensures
            lines.0@ == "● "@ + (match self.source {
                LibrarySource::SteamInstalled => "INSTALLED"@,
                LibrarySource::DrydockInstalled => "STANDALONE"@,
                LibrarySource::Available => "AVAILABLE"@,
            }),
            match self.size_on_disk {
                Some(size) => lines.1 matches Some(text) && text@ == "Size: "@ + size_text(
                    size as nat,
                ),
                None => lines.1 is None,
            },
    {
        let (_, word) = self.poster_status();
        let size = match self.size_on_disk {
            Some(size) => {
                let text = human_bytes(size);
                Some(cat2("Size: ", text.as_str()))
            },
            None => None,
        };
        (cat2("● ", word), size)
    }

    /// The pictures to try for a poster, in order.
    pub fn poster_artwork(&self) -> (urls: [String; 3])
        ensures
            urls@[0]@ == artwork_url(self.app_id, "library_600x900.jpg"@),
            urls@[1]@ == artwork_url(self.app_id, "library_hero.jpg"@),
            urls@[2]@ == artwork_url(self.app_id, "header.jpg"@),
    {
        [
            artwork(self.app_id, "library_600x900.jpg"),
            artwork(self.app_id, "library_hero.jpg"),
            artwork(self.app_id, "header.jpg"),
        ]
    }

    /// The pictures to try for the banner of a game's window, in order.
    pub fn banner_artwork(&self) -> (urls: [String; 2])
        ensures
            urls@[0]@ == artwork_url(self.app_id, "library_hero.jpg"@),
            urls@[1]@ == artwork_url(self.app_id, "header.jpg"@),
    {
        [artwork(self.app_id, "library_hero.jpg"), artwork(self.app_id, "header.jpg")]
    }

    /// The line below a game's name in its window.
    pub fn overview_status(&self) -> (status: (&'static str, Tone))
        ensures
            match self.source {
                LibrarySource::SteamInstalled => status.0@ == "Installed via Steam"@ && status.1
                    == Tone::Verdigris,
                LibrarySource::DrydockInstalled => if self.launch_path is Some {
                    status.0@ == "Installed via Drydock · Ready"@ && status.1 == Tone::AccentSoft
                } else {
                    status.0@ == "Installed · No launcher linked"@ && status.1 == Tone::Amber
                },
                LibrarySource::Available => status.0@ == "Unlock Active · Ready to Install"@
                    && status.1 == Tone::Amber,
            },
    {
        match self.source {
            LibrarySource::SteamInstalled => ("Installed via Steam", Tone::Verdigris),
            LibrarySource::DrydockInstalled => if self.launch_path.is_some() {
                ("Installed via Drydock · Ready", Tone::AccentSoft)
            } else {
                ("Installed · No launcher linked", Tone::Amber)
            },
            LibrarySource::Available => ("Unlock Active · Ready to Install", Tone::Amber),
        }
    }

    /// The buttons of a game's window.
    pub fn library_overview(&self) -> (buttons: Vec<OverviewButton>)
        ensures
            buttons_of(buttons@) == overview_buttons(*self),
    {
        let id: u32 = self.app_id;
        let mut buttons: Vec<OverviewButton> = Vec::new();
        match self.source {
            LibrarySource::Available => {
                push_button(&mut buttons, LibraryAction::InstallSteam(id), "INSTALL");
                push_button(&mut buttons, LibraryAction::UpdateLua(id), "UPDATE LUA");
                push_button(&mut buttons, LibraryAction::Details(id), "STORE");
                push_button(&mut buttons, LibraryAction::RemoveLua(id), "REMOVE LUA");
            },
            LibrarySource::SteamInstalled => {
                push_button(&mut buttons, LibraryAction::Launch(id), "PLAY");
                if self.install_dir.is_some() {
                    push_button(&mut buttons, LibraryAction::OpenFolder(id), "BROWSE");
                }
                push_button(&mut buttons, LibraryAction::Details(id), "STORE");
                push_button(&mut buttons, LibraryAction::UpdateLua(id), "UPDATE LUA");
                push_button(&mut buttons, LibraryAction::RemoveLua(id), "REMOVE LUA");
                push_button(&mut buttons, LibraryAction::UninstallSteam(id), "UNINSTALL");
            },
            LibrarySource::DrydockInstalled => {
                if self.launch_path.is_some() {
                    push_button(&mut buttons, LibraryAction::Launch(id), "PLAY");
                } else {
                    push_button(&mut buttons, LibraryAction::SetExe(id), "SET .EXE");
                }
                if self.install_dir.is_some() {
                    push_button(&mut buttons, LibraryAction::OpenFolder(id), "BROWSE");
                }
                push_button(&mut buttons, LibraryAction::Details(id), "STORE");
                push_button(&mut buttons, LibraryAction::VerifyDrydock(id), "VERIFY");
                push_button(&mut buttons, LibraryAction::UpdateDrydock(id), "UPDATE");
                push_button(&mut buttons, LibraryAction::CrackDrydock(id), "CRACK");
                if self.launch_path.is_some() {
                    push_button(&mut buttons, LibraryAction::SetExe(id), "CHANGE .EXE");
                }
                push_button(&mut buttons, LibraryAction::UninstallDrydock(id), "UNINSTALL");
            },
        }
        assert(buttons_of(buttons@) =~= overview_buttons(*self));
        buttons
    }

    /// The rows of facts in a game's window.
    pub fn info(&self) -> (rows: Vec<InfoRow>)
        ensures
            rows_of(rows@) == info_rows(*self),
    {
        let mut rows: Vec<InfoRow> = Vec::new();
        push_row(&mut rows, "Platform:  ", "Windows (x64)".to_owned(), Tone::Text);
        match &self.launch_path {
            Some(path) => {
                push_row(&mut rows, "Executable:  ", path.clone(), Tone::Text);
            },
            None => {
                if self.source == LibrarySource::SteamInstalled {
                    let id = decimal(self.app_id as u64);
                    let uri = cat2("steam://run/", id.as_str());
                    push_row(&mut rows, "Executable:  ", uri, Tone::Text);
                } else {
                    push_row(
                        &mut rows,
                        "Executable:  ",
                        "No launcher linked".to_owned(),
                        Tone::Amber,
                    );
                }
            },
        }
        if let Some(size) = self.size_on_disk {
            push_row(&mut rows, "Size on disk:  ", human_bytes(size), Tone::Text);
        }
        match &self.install_dir {
            Some(folder) => {
                push_row(&mut rows, "Location:  ", folder.clone(), Tone::Text);
            },
            None => {
                push_row(
                    &mut rows,
                    "Location:  ",
                    "Not installed on local disk".to_owned(),
                    Tone::Muted,
                );
            },
        }
        assert(rows_of(rows@) =~= info_rows(*self));
        rows
    }
}

/// A game can be played from its window exactly where it is installed and can be launched.
pub proof fn only_launchable_games_offer_play(entry: LibraryEntry)
    requires
        entry.installed <==> entry.source != LibrarySource::Available,
    ensures
        overview_buttons(entry).contains(button(LibraryAction::Launch(entry.app_id), "PLAY"@))
            <==> entry.installed && (entry.source == LibrarySource::SteamInstalled
            || entry.launch_path is Some),
{
    let buttons = overview_buttons(entry);
    let play = button(LibraryAction::Launch(entry.app_id), "PLAY"@);
    if entry.installed && (entry.source == LibrarySource::SteamInstalled
        || entry.launch_path is Some) {
        assert(buttons[0] == play);
    } else if buttons.contains(play) {
        let i = choose|i: int| 0 <= i < buttons.len() && buttons[i] == play;
        assert(buttons[i].0 == play.0);
    }
}

/// The genre tags that a game's window shows: the first few of the first catalog entry of the app
/// that has any.
pub open spec fn shown_tags(apps: Seq<CatalogApp>, app_id: u32) -> Seq<Seq<char>>
    decreases apps.len(),
{
    if apps.len() == 0 {
        Seq::empty()
    } else if apps[0].app_id == app_id && apps[0].tags@.len() > 0 {
        let tags = texts(apps[0].tags@);
        if tags.len() <= 5 {
            tags
        } else {
            tags.take(5)
        }
    } else {
        shown_tags(apps.drop_first(), app_id)
    }
}

/// The genre tags that a game's window shows.
pub fn genre_tags(apps: &Vec<CatalogApp>, app_id: u32) -> (tags: Vec<String>)
    ensures
        texts(tags@) == shown_tags(apps@, app_id),
{
    let mut i: usize = 0;
    assert(apps@.skip(0) =~= apps@);
    while i < apps.len()
        invariant
            i <= apps@.len(),
            shown_tags(apps@, app_id) == shown_tags(apps@.skip(i as int), app_id),
        decreases apps@.len() - i,
    {
        if apps[i].app_id == app_id && apps[i].tags.len() > 0 {
            let all = &apps[i].tags;
            let mut tags: Vec<String> = Vec::new();
            let mut k: usize = 0;
            while k < all.len() && k < 5
                invariant
                    k <= all@.len(),
                    k <= 5,
                    texts(tags@) =~= texts(all@).take(k as int),
                decreases all@.len() - k,
            {
                let ghost before = texts(tags@);
                let tag = all[k].clone();
                tags.push(tag);
                assert(texts(tags@) =~= before.push(tag@));
                assert(texts(all@).take(k + 1) =~= texts(all@).take(k as int).push(tag@));
                k += 1;
            }
            assert(texts(all@).take(all@.len() as int) =~= texts(all@));
            return tags;
        }
        assert(apps@.skip(i as int).drop_first() =~= apps@.skip(i + 1));
        i += 1;
    }
    Vec::new()
}

/// What the library's page shows below its toolbar.
#[derive(Clone, Copy, Debug, PartialEq, Eq, Structural)]
pub enum LibraryBody {
    /// There is no game.
    Empty,
    /// There are games, but the filter and the search leave none.
    NoMatch,
    /// The posters of the games that are left.
    Posters,
}

/// The library's page.
pub struct LibraryView {
    pub entries: Vec<LibraryEntry>,
    pub counts: LibraryCounts,
    /// The places of the games that the filter and the search leave.
    pub shown: Vec<usize>,
    pub body: LibraryBody,
}

/// The page on which a folder is told apart as a game.
pub struct AddGamePanel {
    pub folder: String,
    /// Whether the folder is being looked through.
    pub busy: bool,
}

impl DrydockApp {
    /// The library's page, `None` while a folder waits to be told apart as a game: the page is then
    /// `render_add_game_panel`. `present` are the games of Drydock whose folder is there.
    pub fn library_page(&self, present: &HashSet<u32>) -> (view: Option<LibraryView>)
        ensures
            view is None <==> self.library.add_game_folder is Some,
            view matches Some(view) ==> {
                &&& is_sorted_list(self.library_games(present@), listed(view.entries@))
                &&& view.counts.installed == installed_count(listed(view.entries@))
                &&& view.counts.total == view.entries@.len()
                &&& view.counts.installed + view.counts.available == view.counts.total
                &&& view.shown@ == self.library.shown_places(view.entries@)
                &&& view.body == if view.entries@.len() == 0 {
                    LibraryBody::Empty
                } else if view.shown@.len() == 0 {
                    LibraryBody::NoMatch
                } else {
                    LibraryBody::Posters
                }
            },
    {
        if self.library.add_game_folder.is_some() {
            return None;
        }
        let entries = self.library_entries(present);
        let counts = count_entries(&entries);
        let shown = self.library.shown_entries(&entries);
        let body = if entries.len() == 0 {
            LibraryBody::Empty
        } else if shown.len() == 0 {
            LibraryBody::NoMatch
        } else {
            LibraryBody::Posters
        };
        Some(LibraryView { entries, counts, shown, body })
    }

    /// The page on which a folder is told apart as a game, while one waits for it.
    pub fn render_add_game_panel(&self) -> (panel: Option<AddGamePanel>)
        ensures
            match self.library.add_game_folder {
                Some(folder) => panel == Some(
                    AddGamePanel { folder, busy: self.side_jobs.add_game },
                ),
                None => panel is None,
            },
    {
        match &self.library.add_game_folder {
            Some(folder) => Some(
                AddGamePanel { folder: folder.clone(), busy: self.side_jobs.add_game },
            ),
            None => None,
        }
    }
}

} // verus!
