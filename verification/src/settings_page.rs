//! The settings page: the folders, the limits, the Steam Service and the overrides.
use crate::downloads::{DEFAULT_DOWNLOAD_CONNECTIONS, MAXIMUM_DOWNLOAD_CONNECTIONS};
use crate::helpers::{ellipsized, path_if_present};
use crate::state::{
    DrydockApp, Part, Settings, SettingsForm, StatusLine, SteamDirValidation, SteamServiceState,
    SteamServiceStatus,
};
use crate::text::{
    blank, blank_means_trimmed_away, cat2, cat3, decimal, decimal_text, is_blank, no_text, trim,
    trimmed, uppercase,
};
use crate::types::Tone;
use vstd::prelude::*;

verus! {

/// What a folder that may be Steam's looks like on disk.
#[derive(Clone, Copy, Debug, PartialEq, Eq, Structural)]
pub struct FolderLook {
    pub is_folder: bool,
    /// Whether it holds the Steam launcher.
    pub has_launcher: bool,
    /// Whether it holds a `steamapps` folder.
    pub has_steamapps: bool,
}

/// What a text says as a Steam directory, given what its folder looks like.
pub open spec fn steam_verdict(draft: Seq<char>, look: FolderLook) -> SteamDirValidation {
    if draft.len() == 0 {
        SteamDirValidation::Empty
    } else if !look.is_folder {
        SteamDirValidation::NotFound
    } else if !look.has_launcher {
        SteamDirValidation::MissingExecutable
    } else if !look.has_steamapps {
        SteamDirValidation::MissingSteamapps
    } else {
        SteamDirValidation::Valid
    }
}

impl SettingsForm {
    /// Whether the text in the Steam directory field is the one that was validated last.
    pub open spec fn is_validated(&self) -> bool {
        self.validated matches Some(entry) && entry.0@ == trimmed(self.steam_directory@)
    }

    /// The verdict that is kept.
    pub open spec fn kept_verdict(&self) -> SteamDirValidation {
        match self.validated {
            Some((_, verdict)) => verdict,
            None => SteamDirValidation::Empty,
        }
    }

    /// The folder to look at before the Steam directory field can be validated: none where it is
    /// empty or its verdict is known already.
    pub fn folder_to_look_at(&self) -> (folder: Option<String>)
        ensures
            folder is Some <==> !self.is_validated() && !blank(self.steam_directory@),
            folder matches Some(path) ==> path@ == trimmed(self.steam_directory@),
    {
        let draft = trim(self.steam_directory.as_str());
        if let Some(entry) = &self.validated {
            if entry.0 == draft {
                return None;
            }
        }
        path_if_present(self.steam_directory.as_str())
    }

    /// What the text in the Steam directory field says, given what its folder looks like. The
    /// verdict is kept, and given again for as long as the text stays the same.
    pub fn validate_steam_draft(&mut self, look: FolderLook) -> (verdict: SteamDirValidation)
        ensures
            old(self).is_validated() ==> verdict == old(self).kept_verdict() && *final(self)
                == *old(self),
            !old(self).is_validated() ==> {
                &&& verdict == steam_verdict(trimmed(old(self).steam_directory@), look)
                &&& final(self).steam_directory == old(self).steam_directory
                &&& final(self).games_directory == old(self).games_directory
                &&& final(self).is_validated()
                &&& final(self).kept_verdict() == verdict
            },
    {
        let draft = trim(self.steam_directory.as_str());
        if let Some(entry) = &self.validated {
            if entry.0 == draft {
                return entry.1;
            }
        }
        let verdict = if no_text(draft.as_str()) {
            SteamDirValidation::Empty
        } else if !look.is_folder {
            SteamDirValidation::NotFound
        } else if !look.has_launcher {
            SteamDirValidation::MissingExecutable
        } else if !look.has_steamapps {
            SteamDirValidation::MissingSteamapps
        } else {
            SteamDirValidation::Valid
        };
        self.validated = Some((draft, verdict));
        verdict
    }
}

/// The line under the Steam directory field.
pub open spec fn steam_dir_line(verdict: SteamDirValidation) -> (Seq<char>, Tone) {
    match verdict {
        SteamDirValidation::Empty => ("Enter the path to your Steam folder above"@, Tone::Muted),
        SteamDirValidation::NotFound => ("Folder does not exist"@, Tone::Danger),
        SteamDirValidation::MissingExecutable => (
            "Not a Steam folder — missing steam.exe / steam.sh"@,
            Tone::Danger,
        ),
        SteamDirValidation::MissingSteamapps => (
            "Steam executable found, but steamapps folder is missing"@,
            Tone::Amber,
        ),
        SteamDirValidation::Valid => ("Steam installation verified"@, Tone::Verdigris),
    }
}

/// The line under the Steam directory field.
pub fn steam_dir_note(verdict: SteamDirValidation) -> (note: (&'static str, Tone))
    ensures
        (note.0@, note.1) == steam_dir_line(verdict),
{
    match verdict {
        SteamDirValidation::Empty => ("Enter the path to your Steam folder above", Tone::Muted),
        SteamDirValidation::NotFound => ("Folder does not exist", Tone::Danger),
        SteamDirValidation::MissingExecutable => (
            "Not a Steam folder — missing steam.exe / steam.sh",
            Tone::Danger,
        ),
        SteamDirValidation::MissingSteamapps => (
            "Steam executable found, but steamapps folder is missing",
            Tone::Amber,
        ),
        SteamDirValidation::Valid => ("Steam installation verified", Tone::Verdigris),
    }
}

/// A limit as its slider shows it: none stands for the default, and none is over the maximum.
pub open spec fn shown_connections_of(stored: u32) -> u32 {
    if stored == 0 {
        DEFAULT_DOWNLOAD_CONNECTIONS
    } else if stored > MAXIMUM_DOWNLOAD_CONNECTIONS {
        MAXIMUM_DOWNLOAD_CONNECTIONS
    } else {
        stored
    }
}

impl Settings {
    /// The connections that the slider shows.
    pub fn shown_connections(&self) -> (connections: u32)
        ensures
            connections == shown_connections_of(self.max_download_connections),
    {
        if self.max_download_connections == 0 {
            DEFAULT_DOWNLOAD_CONNECTIONS
        } else if self.max_download_connections > MAXIMUM_DOWNLOAD_CONNECTIONS {
            MAXIMUM_DOWNLOAD_CONNECTIONS
        } else {
            self.max_download_connections
        }
    }

    /// The verify threads that the slider shows.
    pub fn shown_verify_threads(&self, maximum: u32) -> (threads: u32)
        ensures
            threads == if self.verify_threads < maximum {
                self.verify_threads
            } else {
                maximum
            },
    {
        if self.verify_threads < maximum {
            self.verify_threads
        } else {
            maximum
        }
    }
}

/// What a number of verify threads reads like.
pub fn verify_threads_label(threads: u32) -> (label: String)
    ensures
        label@ == if threads == 0 {
            "Auto"@
        } else {
            decimal_text(threads as nat)
        },
{
    if threads == 0 {
        "Auto".to_owned()
    } else {
        decimal(threads as u64)
    }
}

/// The pill beside the bandwidth limit.
pub fn bandwidth_pill(mbps: u32) -> (pill: (String, Tone))
    ensures
        mbps == 0 ==> pill.0@ == "UNLIMITED"@ && pill.1 == Tone::Verdigris,
        mbps > 0 ==> pill.0@ == "Capped at "@ + decimal_text(mbps as nat) + " MB/s"@ && pill.1
            == Tone::AccentSoft,
{
    if mbps == 0 {
        ("UNLIMITED".to_owned(), Tone::Verdigris)
    } else {
        let number = decimal(mbps as u64);
        (cat3("Capped at ", number.as_str(), " MB/s"), Tone::AccentSoft)
    }
}

/// The line under the games folder field. `steam_library` is where Steam's own library lies.
pub fn games_folder_note(draft: &str, is_folder: bool, steam_library: Option<String>) -> (note: (
    String,
    Tone,
))
    ensures
        blank(draft@) ==> note.1 == Tone::Muted && note.0@ == "Using Steam's library: "@ + (
        match steam_library {
            Some(path) => path@,
            None => "Steam folder not set — pick a games folder here"@,
        }),
        !blank(draft@) && is_folder ==> note.0@ == "Folder exists and ready"@ && note.1
            == Tone::Verdigris,
        !blank(draft@) && !is_folder ==> note.0@
            == "Folder does not exist yet — it will be created on first download"@ && note.1
            == Tone::Amber,
{
    if is_blank(draft) {
        let library = match steam_library {
            Some(path) => path,
            None => "Steam folder not set — pick a games folder here".to_owned(),
        };
        (cat2("Using Steam's library: ", library.as_str()), Tone::Muted)
    } else if is_folder {
        ("Folder exists and ready".to_owned(), Tone::Verdigris)
    } else {
        (
            "Folder does not exist yet — it will be created on first download".to_owned(),
            Tone::Amber,
        )
    }
}

/// Where a configuration value comes from.
#[derive(Clone, Copy, Debug, PartialEq, Eq, Structural)]
pub enum ConfigSource {
    Unset,
    Environment,
    UserSettings,
    BuildDefault,
}

/// The pill beside a configuration value.
pub fn source_pill(source: ConfigSource) -> (pill: (&'static str, Tone))
    ensures
        (pill.0@, pill.1) == (match source {
            ConfigSource::Unset => ("Unset"@, Tone::Danger),
            ConfigSource::Environment => ("Env Override"@, Tone::AccentSoft),
            ConfigSource::UserSettings => ("User Settings"@, Tone::Verdigris),
            ConfigSource::BuildDefault => ("Built-in"@, Tone::Muted),
        }),
{
    match source {
        ConfigSource::Unset => ("Unset", Tone::Danger),
        ConfigSource::Environment => ("Env Override", Tone::AccentSoft),
        ConfigSource::UserSettings => ("User Settings", Tone::Verdigris),
        ConfigSource::BuildDefault => ("Built-in", Tone::Muted),
    }
}

/// The card of the Steam Service, where there is a Steam folder.
pub struct ServiceCard {
    pub message: String,
    /// What the button that installs or updates it is called, where it is not current.
    pub install: Option<String>,
    /// Whether it can be reinstalled and removed.
    pub installed: bool,
    /// Whether its buttons can be pressed.
    pub enabled: bool,
    pub restart_enabled: bool,
}

/// What the settings page shows, apart from its fields.
pub struct SettingsView {
    pub steam_pill: (&'static str, Tone),
    pub library_pill: (&'static str, Tone),
    pub games_pill: (&'static str, Tone),
    /// Whether the games folder can be given up for Steam's library.
    pub custom_games_folder: bool,
    pub service_pill: (&'static str, Tone),
    pub service: Option<ServiceCard>,
    pub games_indexed: String,
    /// Whether the game list is being fetched.
    pub refreshing: bool,
    /// Whether the settings file is broken and waits for the user's decision.
    pub broken_settings: bool,
}

/// The pill of the Steam Service.
pub open spec fn service_pill_of(status: Option<SteamServiceStatus>, busy: bool) -> (
    Seq<char>,
    Tone,
) {
    match status {
        Some(status) => match status.state {
            SteamServiceState::Current => ("● CURRENT"@, Tone::Verdigris),
            SteamServiceState::UpdateAvailable => ("▲ UPDATE AVAILABLE"@, Tone::AccentSoft),
            SteamServiceState::NotInstalled => ("○ NOT INSTALLED"@, Tone::Muted),
            SteamServiceState::Error => ("⚠ ATTENTION"@, Tone::Danger),
        },
        None => if busy {
            ("⏳ CHECKING…"@, Tone::Muted)
        } else {
            ("○ UNKNOWN"@, Tone::Muted)
        },
    }
}

fn service_pill(status: &Option<SteamServiceStatus>, busy: bool) -> (pill: (&'static str, Tone))
    ensures
        (pill.0@, pill.1) == service_pill_of(*status, busy),
{
    match status {
        Some(status) => match status.state {
            SteamServiceState::Current => ("● CURRENT", Tone::Verdigris),
            SteamServiceState::UpdateAvailable => ("▲ UPDATE AVAILABLE", Tone::AccentSoft),
            SteamServiceState::NotInstalled => ("○ NOT INSTALLED", Tone::Muted),
            SteamServiceState::Error => ("⚠ ATTENTION", Tone::Danger),
        },
        None => if busy {
            ("⏳ CHECKING…", Tone::Muted)
        } else {
            ("○ UNKNOWN", Tone::Muted)
        },
    }
}

impl StatusLine {
    /// Whether `after` is this line once a changed setting was written with this outcome.
    pub open spec fn after_change(&self, written: Result<(), String>, after: StatusLine) -> bool {
        match written {
            Ok(_) => after.says(self.text@, false, self.busy),
            Err(error) => after.says(
                ellipsized("Your change could not be saved: "@ + error@, 160),
                true,
                self.busy,
            ),
        }
    }
}

impl DrydockApp {
    /// The configured games folder, where one is set: a fresh download is installed there, and in
    /// Steam's own library without one.
    pub fn games_directory(&self) -> (folder: Option<String>)
        ensures
            folder is Some <==> !blank(self.settings.games_directory@),
            folder matches Some(path) ==> path@ == trimmed(self.settings.games_directory@),
    {
        path_if_present(self.settings.games_directory.as_str())
    }

    /// Takes the folders typed into the page into the settings, which are then to be written.
    pub fn save_settings(&mut self)
        ensures
            old(self).keeps_all_but(set![Part::Settings], *final(self)),
            final(self).settings == (Settings {
                steam_directory: final(self).settings.steam_directory,
                games_directory: final(self).settings.games_directory,
                ..old(self).settings
            }),
            final(self).settings.steam_directory@ == trimmed(old(self).form.steam_directory@),
            final(self).settings.games_directory@ == trimmed(old(self).form.games_directory@),
    {
        self.settings.steam_directory = trim(self.form.steam_directory.as_str());
        self.settings.games_directory = trim(self.form.games_directory.as_str());
    }

    /// Takes the outcome of writing the settings, and tells whether they were.
    pub fn settings_saved(&mut self, written: Result<(), String>) -> (saved: bool)
        ensures
            saved == (written is Ok),
            old(self).keeps_all_but(set![Part::Line], *final(self)),
            match written {
                Ok(_) => final(self).line.says("Settings saved"@, false, old(self).line.busy),
                Err(error) => final(self).line.says(
                    "Settings could not be saved: "@ + error@,
                    true,
                    old(self).line.busy,
                ),
            },
    {
        match written {
            Ok(_) => {
                self.report("Settings saved".to_owned(), false);
                true
            },
            Err(error) => {
                let text = cat2("Settings could not be saved: ", error.as_str());
                self.report(text, true);
                false
            },
        }
    }

    /// Accepts the loss of an unreadable settings file: saving is allowed again, from what is in
    /// memory, which is then to be written. The unreadable file stays beside it either way.
    pub fn discard_broken_settings(&mut self)
        ensures
            old(self).keeps_all_but(set![Part::SettingsReadOnly], *final(self)),
            !final(self).settings_read_only,
    {
        self.settings_read_only = false;
    }

    /// Takes the outcome of writing a fresh settings file.
    pub fn fresh_settings_written(&mut self, written: Result<(), String>)
        ensures
            old(self).keeps_all_but(set![Part::Line], *final(self)),
            match written {
                Ok(_) => final(self).line.says(
                    "Started a fresh settings file. The unreadable one was kept beside it."@,
                    false,
                    old(self).line.busy,
                ),
                Err(error) => final(self).line.says(
                    "A fresh settings file could not be written: "@ + error@,
                    true,
                    old(self).line.busy,
                ),
            },
    {
        match written {
            Ok(_) => {
                self.report(
                    "Started a fresh settings file. The unreadable one was kept beside it.".to_owned(),
                    false,
                );
            },
            Err(error) => {
                let text = cat2("A fresh settings file could not be written: ", error.as_str());
                self.report(text, true);
            },
        }
    }

    /// Takes the Steam folder that was looked for on this machine.
    pub fn steam_folder_detected(&mut self, found: Option<String>)
        ensures
            old(self).keeps_all_but(set![Part::Form, Part::Line], *final(self)),
            match found {
                Some(root) => {
                    &&& final(self).form == (SettingsForm {
                        steam_directory: root,
                        validated: None,
                        ..old(self).form
                    })
                    &&& final(self).line.says(
                        "Steam folder detected"@,
                        false,
                        old(self).line.busy,
                    )
                },
                None => {
                    &&& final(self).form == old(self).form
                    &&& final(self).line.says(
                        "Steam could not be detected automatically"@,
                        true,
                        old(self).line.busy,
                    )
                },
            },
    {
        match found {
            Some(root) => {
                self.form.steam_directory = root;
                self.form.validated = None;
                self.report("Steam folder detected".to_owned(), false);
            },
            None => {
                self.report("Steam could not be detected automatically".to_owned(), true);
            },
        }
    }

    /// Takes the Steam folder that the user picked.
    pub fn steam_folder_picked(&mut self, folder: String)
        ensures
            old(self).keeps_all_but(set![Part::Form, Part::Line], *final(self)),
            final(self).form == (SettingsForm {
                steam_directory: folder,
                validated: None,
                ..old(self).form
            }),
            final(self).line.says(
                "Steam folder selected. Save to apply it."@,
                false,
                old(self).line.busy,
            ),
    {
        self.form.steam_directory = folder;
        self.form.validated = None;
        self.report("Steam folder selected. Save to apply it.".to_owned(), false);
    }

    /// Takes the games folder that the user picked.
    pub fn games_folder_picked(&mut self, folder: String)
        ensures
            old(self).keeps_all_but(set![Part::Form, Part::Line], *final(self)),
            final(self).form == (SettingsForm { games_directory: folder, ..old(self).form }),
            final(self).line.says(
                "Games folder selected. Save to apply it."@,
                false,
                old(self).line.busy,
            ),
    {
        self.form.games_directory = folder;
        self.report("Games folder selected. Save to apply it.".to_owned(), false);
    }

    /// Gives the games folder up for Steam's library, and takes that into the settings, which are
    /// then to be written.
    pub fn use_steam_library(&mut self)
        ensures
            old(self).keeps_all_but(set![Part::Form, Part::Settings], *final(self)),
            final(self).form == (SettingsForm {
                games_directory: final(self).form.games_directory,
                ..old(self).form
            }),
            final(self).form.games_directory@ == Seq::<char>::empty(),
            final(self).settings == (Settings {
                steam_directory: final(self).settings.steam_directory,
                games_directory: final(self).settings.games_directory,
                ..old(self).settings
            }),
            final(self).settings.steam_directory@ == trimmed(old(self).form.steam_directory@),
            final(self).settings.games_directory@ == Seq::<char>::empty(),
    {
        self.form.games_directory = String::new();
        self.save_settings();
    }

    /// Takes the number of connections from its slider, and tells whether the settings are to be
    /// written.
    pub fn set_connections(&mut self, connections: u32) -> (changed: bool)
        ensures
            changed == (connections != old(self).settings.max_download_connections),
            old(self).keeps_all_but(set![Part::Settings], *final(self)),
            final(self).settings == (Settings {
                max_download_connections: connections,
                ..old(self).settings
            }),
    {
        let changed = connections != self.settings.max_download_connections;
        self.settings.max_download_connections = connections;
        changed
    }

    /// Takes the bandwidth limit from its field, and tells whether the settings are to be written.
    pub fn set_bandwidth(&mut self, mbps: u32) -> (changed: bool)
        ensures
            changed == (mbps != old(self).settings.max_download_mbps),
            old(self).keeps_all_but(set![Part::Settings], *final(self)),
            final(self).settings == (Settings { max_download_mbps: mbps, ..old(self).settings }),
    {
        let changed = mbps != self.settings.max_download_mbps;
        self.settings.max_download_mbps = mbps;
        changed
    }

    /// Takes the number of verify threads from its slider, and tells whether the settings are to be
    /// written.
    pub fn set_verify_threads(&mut self, threads: u32) -> (changed: bool)
        ensures
            changed == (threads != old(self).settings.verify_threads),
            old(self).keeps_all_but(set![Part::Settings], *final(self)),
            final(self).settings == (Settings { verify_threads: threads, ..old(self).settings }),
    {
        let changed = threads != self.settings.verify_threads;
        self.settings.verify_threads = threads;
        changed
    }

    /// Takes the outcome of writing a changed limit.
    pub fn limit_saved(&mut self, written: Result<(), String>)
        ensures
            old(self).keeps_all_but(set![Part::Line], *final(self)),
            old(self).line.after_change(written, final(self).line),
    {
        let saved = self.persist_settings(written);
        self.line.error = saved.is_err();
    }

    /// Takes the overrides for a self-hosted proxy and release channel from their fields, and tells
    /// whether they are to be applied and written.
    pub fn self_hosting_panel(&mut self, base_url: String, secret: String, repository: String) -> (
        changed: bool)
        ensures
            changed == !(base_url@ == old(self).settings.proxy_base_url@ && secret@ == old(self).settings.proxy_hmac_secret@ && repository@ == old(self).settings.update_repository@),
            old(self).keeps_all_but(set![Part::Settings], *final(self)),
            final(self).settings == (Settings {
                proxy_base_url: base_url,
                proxy_hmac_secret: secret,
                update_repository: repository,
                ..old(self).settings
            }),
    {
        let changed = !(base_url == self.settings.proxy_base_url && secret
            == self.settings.proxy_hmac_secret && repository == self.settings.update_repository);
        self.settings.proxy_base_url = base_url;
        self.settings.proxy_hmac_secret = secret;
        self.settings.update_repository = repository;
        changed
    }

    /// The card of the Steam Service.
    fn service_card(&self) -> (card: Option<ServiceCard>)
        ensures
            self.is_service_card(card),
    {
        if self.steam.root.is_none() {
            return None;
        }
        let busy = self.steam_jobs.service;
        let (message, install, installed) = match &self.steam.service_status {
            Some(status) => {
                let install = if status.state == SteamServiceState::Current {
                    None
                } else {
                    Some(status.action_text.as_str().to_uppercase())
                };
                (
                    status.message.clone(),
                    install,
                    status.state != SteamServiceState::NotInstalled,
                )
            },
            None => (String::new(), Some("INSTALL SERVICE".to_owned()), false),
        };
        Some(
            ServiceCard {
                message,
                install,
                installed,
                enabled: !busy,
                restart_enabled: !self.steam_jobs.background && !busy,
            },
        )
    }

    /// Whether `card` is the card of the Steam Service.
    pub open spec fn is_service_card(&self, card: Option<ServiceCard>) -> bool {
        &&& card is Some <==> self.steam.root is Some
        &&& card matches Some(card) ==> {
            &&& card.enabled == !self.steam_jobs.service
            &&& card.restart_enabled == (!self.steam_jobs.background && !self.steam_jobs.service)
            &&& match self.steam.service_status {
                Some(status) => {
                    &&& card.message == status.message
                    &&& card.installed == (status.state != SteamServiceState::NotInstalled)
                    &&& card.install is None <==> status.state == SteamServiceState::Current
                    &&& card.install matches Some(label) ==> label@ == uppercase(
                        status.action_text@,
                    )
                },
                None => {
                    &&& card.message@ == Seq::<char>::empty()
                    &&& !card.installed
                    &&& card.install matches Some(label) && label@ == "INSTALL SERVICE"@
                },
            }
        }
    }

    /// What the settings page shows, apart from its fields.
    pub fn settings_page(&self) -> (view: SettingsView)
        ensures
            (view.steam_pill.0@, view.steam_pill.1) == (if self.steam.root is Some {
                ("● Steam Linked"@, Tone::Verdigris)
            } else {
                ("○ Steam Unset"@, Tone::Muted)
            }),
            (view.library_pill.0@, view.library_pill.1) == (if blank(self.form.games_directory@) {
                ("Library: Steam Default"@, Tone::AccentSoft)
            } else {
                ("Library: Custom Folder"@, Tone::Verdigris)
            }),
            (view.games_pill.0@, view.games_pill.1) == (if blank(self.form.games_directory@) {
                ("Steam Library Default"@, Tone::AccentSoft)
            } else {
                ("Custom Folder"@, Tone::Verdigris)
            }),
            view.custom_games_folder == !blank(self.form.games_directory@),
            (view.service_pill.0@, view.service_pill.1) == service_pill_of(
                self.steam.service_status,
                self.steam_jobs.service,
            ),
            self.is_service_card(view.service),
            view.games_indexed@ == "● "@ + decimal_text(self.catalog.apps@.len())
                + " games indexed"@,
            view.refreshing == self.list_jobs.catalog,
            view.broken_settings == self.settings_read_only,
    {
        let custom = !is_blank(self.form.games_directory.as_str());
        let count = decimal(self.catalog.apps.len() as u64);
        SettingsView {
            steam_pill: if self.steam.root.is_some() {
                ("● Steam Linked", Tone::Verdigris)
            } else {
                ("○ Steam Unset", Tone::Muted)
            },
            library_pill: if custom {
                ("Library: Custom Folder", Tone::Verdigris)
            } else {
                ("Library: Steam Default", Tone::AccentSoft)
            },
            games_pill: if custom {
                ("Custom Folder", Tone::Verdigris)
            } else {
                ("Steam Library Default", Tone::AccentSoft)
            },
            custom_games_folder: custom,
            service_pill: service_pill(&self.steam.service_status, self.steam_jobs.service),
            service: self.service_card(),
            games_indexed: cat3("● ", count.as_str(), " games indexed"),
            refreshing: self.list_jobs.catalog,
            broken_settings: self.settings_read_only,
        }
    }
}

/// A text is valid as a Steam directory exactly where it names a folder that holds the launcher and
/// the games.
pub proof fn valid_means_a_steam_folder(draft: Seq<char>, look: FolderLook)
    ensures
        steam_verdict(trimmed(draft), look) == SteamDirValidation::Valid <==> {
            &&& !blank(draft)
            &&& look.is_folder
            &&& look.has_launcher
            &&& look.has_steamapps
        },
{
    blank_means_trimmed_away(draft);
}

/// The slider shows what a job will use.
pub proof fn slider_shows_the_limit(settings: Settings)
    ensures
        shown_connections_of(settings.max_download_connections) == settings.limits().connections,
{
}

} // verus!
