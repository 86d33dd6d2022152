//! The state of the shell.
use crate::catalog::Catalog;
use crate::helpers::ellipsize;
use crate::helpers::ellipsized;
use crate::rate_limiter::RateLimiter;
use crate::text::cat2;
use crate::types::{
    ActivationProvider, GuideFlow, Page, SeeAllSection, SteamManifest, StoreFeatured, StoreTab,
};
use crate::unlocks::UnlockWrites;
use std::collections::{BTreeMap, BTreeSet, HashSet};
use vstd::prelude::*;

verus! {

/// The status bar's message, and what the shell is busy with.
pub struct StatusLine {
    pub text: String,
    pub error: bool,
    /// What a background job is doing, shown over the whole window.
    pub busy: Option<String>,
}

/// Which lists are being fetched.
#[derive(Clone, Copy, Debug, PartialEq, Eq, Structural)]
pub struct ListJobs {
    pub catalog: bool,
    pub denuvo: bool,
    pub fixes: bool,
    pub repacks: bool,
    pub store: bool,
    pub featured: bool,
}

/// Which work on Steam and on Drydock itself is in flight.
#[derive(Clone, Copy, Debug, PartialEq, Eq, Structural)]
pub struct SteamJobs {
    /// A Steam restart or the application of a fix.
    pub background: bool,
    /// Any work on the Steam Service or on an app's unlock.
    pub service: bool,
    pub unlock_update: bool,
    pub manifest_guard: bool,
    pub update: bool,
    pub emu: bool,
}

/// Which steps of an activation are in flight.
#[derive(Clone, Copy, Debug, PartialEq, Eq, Structural)]
pub struct ActivationJobs {
    pub check: bool,
    pub remove: bool,
    pub request: bool,
    pub verify: bool,
    pub ubisoft_prepare: bool,
}

/// Which work on the library and the cloud is in flight.
#[derive(Clone, Copy, Debug, PartialEq, Eq, Structural)]
pub struct SideJobs {
    pub add_game: bool,
    pub download_install: bool,
    pub cloud_download: bool,
    pub cloud_oauth: bool,
}

/// Where an app's unlock came from.
#[derive(Clone, Copy, Debug, PartialEq, Eq, Structural)]
pub enum UnlockSource {
    /// The provider's current version, kept up to date.
    Latest,
    /// The build-locked version.
    Cracked,
    /// Files the user supplied.
    Own,
}

/// What is recorded about an app added to Steam.
pub struct AddedAppState {
    /// The names of the files that were installed, each once and in ascending order.
    pub files: Vec<String>,
    pub source: Option<UnlockSource>,
}

/// A game that Drydock installed itself.
pub struct InstalledGame {
    pub name: String,
    pub install_dir: String,
}

/// A game in the download queue.
pub struct QueuedDownload {
    pub app_id: u32,
    pub name: String,
}

/// What is kept from one launch to the next.
pub struct Settings {
    pub steam_directory: String,
    pub games_directory: String,
    pub added_apps: BTreeMap<u32, AddedAppState>,
    pub installed_games: BTreeMap<u32, InstalledGame>,
    pub launch_paths: BTreeMap<u32, String>,
    /// The front is the current download.
    pub download_queue: Vec<QueuedDownload>,
    /// Whether Steam may update a game, where the user has chosen.
    pub steam_updates_enabled: BTreeMap<u32, bool>,
    pub auto_update_drydock: bool,
    pub auto_update_unlocks: bool,
    pub verify_before_activation: bool,
    pub verify_threads: u32,
    /// Zero for no limit.
    pub max_download_mbps: u32,
    /// Zero for the default.
    pub max_download_connections: u32,
    pub emu_skeleton_path: String,
    pub proxy_base_url: String,
    pub proxy_hmac_secret: String,
    pub update_repository: String,
}

/// How the Steam Service stands.
#[derive(Clone, Copy, Debug, PartialEq, Eq, Structural)]
pub enum SteamServiceState {
    NotInstalled,
    UpdateAvailable,
    Current,
    Error,
}

/// How the Steam Service stands, in words too.
pub struct SteamServiceStatus {
    pub state: SteamServiceState,
    pub message: String,
    /// What the button that mends it is called.
    pub action_text: String,
}

/// What is known of Steam.
pub struct SteamState {
    pub root: Option<String>,
    pub manifests: Vec<SteamManifest>,
    /// Software found that manages the same files.
    pub conflicts: Vec<String>,
    /// The apps with an unlock Lua in Steam's plug-in folder.
    pub plugin_luas: BTreeSet<u32>,
    pub service_status: Option<SteamServiceStatus>,
    pub last_service_check: Option<u128>,
    pub was_running: bool,
    pub last_manifest_check: Option<u128>,
    /// The apps whose missing manifests were fetched once in this session.
    pub manifest_fetch_attempted: HashSet<u32>,
}

/// The storefront.
pub struct StoreState {
    pub search: String,
    pub tab: StoreTab,
    pub featured: Option<StoreFeatured>,
    pub featured_loading: bool,
    pub featured_error: Option<String>,
    pub hero_carousel_index: usize,
    pub hero_last_scroll: Option<u128>,
    pub see_all_section: Option<SeeAllSection>,
}

/// What the store says about a game.
pub struct SteamStoreDetails {
    pub app_id: u32,
    pub name: String,
    pub header_image_url: String,
    pub short_description: String,
    pub about_the_game: String,
    pub reviews: String,
    pub release_date: String,
    pub developers: Vec<String>,
    pub publishers: Vec<String>,
    pub genres: Vec<String>,
    pub platforms: Vec<String>,
    pub metacritic_score: Option<u32>,
    pub drm_notice: String,
    pub uses_denuvo: bool,
    pub screenshots: Vec<String>,
    pub minimum_requirements: String,
    pub recommended_requirements: String,
    /// Whether this is an older copy because the store could not be asked.
    pub stale_cache: bool,
}

/// The details page.
pub struct DetailsPage {
    pub app_id: Option<u32>,
    pub store_details: Option<SteamStoreDetails>,
    pub loading: bool,
    pub screenshot_index: usize,
}

/// A signed activation that was verified and installed.
pub struct VerifiedEntitlement {
    pub app_id: u32,
    pub payload_bytes: u64,
    pub expires_utc: String,
}

/// The "crack files found" prompt: the app, its verified root, and the paths to delete.
pub struct PendingCrack {
    pub app_id: u32,
    pub root: String,
    pub files: Vec<String>,
}

/// The activation page.
pub struct ActivationState {
    pub provider: ActivationProvider,
    pub search: String,
    /// The game folder as typed or chosen.
    pub path: String,
    /// The game folder as verified.
    pub root: Option<String>,
    pub request_code: String,
    pub response_code: [String; 8],
    pub verified_entitlement: Option<VerifiedEntitlement>,
    /// The game whose activation succeeded, until its window is closed.
    pub success_app: Option<String>,
    /// The app that the running folder check is for.
    pub check_app: Option<u32>,
    pub pending_crack: Option<PendingCrack>,
    /// The activation that waits for its verify: the app and its verified root.
    pub awaiting_verify: Option<(u32, String)>,
    pub ubisoft_code: String,
    pub ubisoft_exe_dir: Option<String>,
}

/// Which games the library shows.
#[derive(Clone, Copy, Debug, PartialEq, Eq, Structural)]
pub enum LibraryFilter {
    All,
    Installed,
    Available,
}

/// The library page.
pub struct LibraryState {
    pub selected: Option<u32>,
    pub modal: Option<u32>,
    pub search: String,
    pub filter: LibraryFilter,
    /// The folder chosen for a game to add; the page is then the picker for its game.
    pub add_game_folder: Option<String>,
    pub add_game_search: String,
    /// The games whose missing crack was pointed out once in this session.
    pub launch_warned: HashSet<u32>,
}

/// The architecture choice for the emulator files.
#[derive(Clone, Copy, Debug, PartialEq, Eq, Structural)]
pub enum EmuArch {
    /// The game's executable decides where it can be read. After it comes what Steam says of the
    /// app, and last what the paths in its depots give away.
    Auto,
    X64,
    X86,
}

/// The languages a game folder offers.
pub struct GameLanguageOptions {
    pub languages: Vec<String>,
    pub current_language: Option<String>,
}

/// The tools page.
pub struct ToolsState {
    pub language_path: String,
    pub language_options: Option<GameLanguageOptions>,
    pub language_directory: Option<String>,
    pub language_selection: String,
    pub emu_appid: String,
    pub emu_loader_winmm: bool,
    pub emu_arch: EmuArch,
    pub emu_reframework: bool,
}

/// Where cloud saves go.
#[derive(Clone, Copy, Debug, PartialEq, Eq, Structural)]
pub enum CloudProvider {
    LocalOnly,
    Folder,
    GoogleDrive,
    OneDrive,
    R2,
    S3,
}

/// The selected provider and its path and credential fields.
pub struct CloudForm {
    pub provider: CloudProvider,
    pub folder_path: String,
    pub local_path: String,
    pub account_id: String,
    pub endpoint: String,
    pub region: String,
    pub access_key_id: String,
    pub secret_access_key: String,
    pub bucket: String,
    pub key_prefix: String,
}

/// The cloud page.
pub struct CloudState {
    pub form: CloudForm,
    /// Whether the runtime hook is installed, `None` without a Steam folder.
    pub dll_installed: Option<bool>,
    /// The provider that is configured now.
    pub provider: Option<CloudProvider>,
}

/// What a depot job does.
#[derive(Clone, Copy, Debug, PartialEq, Eq, Structural)]
pub enum DownloadKind {
    Download,
    Verify,
}

/// How far a depot job has come.
pub struct DownloadProgress {
    pub app_id: u32,
    pub done_bytes: u64,
    pub total_bytes: u64,
    pub current_file: String,
}

/// A depot download or verify that runs or has just finished.
pub struct DownloadJob {
    pub app_id: u32,
    pub name: String,
    pub kind: DownloadKind,
    /// Whether the job has been asked to stop.
    pub cancel: bool,
    pub progress: Option<DownloadProgress>,
    pub install_root: Option<String>,
    /// Whether a verify found every file intact.
    pub verified: Option<bool>,
    pub finished: Option<Result<String, String>>,
}

/// The downloads.
pub struct DownloadState {
    pub job: Option<DownloadJob>,
    /// The current download was paused by the user or stopped by an error.
    pub paused: bool,
    /// Why the download stopped, where it was not paused on purpose.
    pub error: Option<String>,
    /// The latest progress, kept so that a paused download still shows its position.
    pub last: Option<DownloadProgress>,
    /// The running job is being stopped only to start a new front.
    pub switch_pending: bool,
}

/// Whether the text of the Steam directory field names a Steam folder.
#[derive(Clone, Copy, Debug, PartialEq, Eq, Structural)]
pub enum SteamDirValidation {
    /// The field is empty.
    Empty,
    /// The path does not exist.
    NotFound,
    /// The path exists but has no Steam launcher.
    MissingExecutable,
    /// The path has a launcher but no `steamapps` folder.
    MissingSteamapps,
    /// The path looks like a Steam root.
    Valid,
}

/// The text fields of the settings page.
pub struct SettingsForm {
    pub steam_directory: String,
    pub games_directory: String,
    /// The last text that was validated, with its verdict.
    pub validated: Option<(String, SteamDirValidation)>,
}

/// The whole shell.
pub struct DrydockApp {
    pub page: Page,
    /// The page shown on the previous frame.
    pub last_page: Page,
    pub guide_flow: GuideFlow,
    pub notifications_open: bool,
    pub exit_for_update: bool,
    pub line: StatusLine,
    pub list_jobs: ListJobs,
    pub steam_jobs: SteamJobs,
    pub activation_jobs: ActivationJobs,
    pub side_jobs: SideJobs,
    pub settings: Settings,
    /// The settings file could not be read, so nothing may be saved over it.
    pub settings_read_only: bool,
    pub form: SettingsForm,
    pub steam: SteamState,
    pub catalog: Catalog,
    pub store: StoreState,
    pub details: DetailsPage,
    /// The game selected for activation.
    pub selected_app: Option<u32>,
    pub activation: ActivationState,
    pub library: LibraryState,
    pub tools: ToolsState,
    pub cloud: CloudState,
    pub downloads: DownloadState,
    pub catalog_limiter: RateLimiter,
    pub download_limiter: RateLimiter,
    pub unlock_writes: UnlockWrites,
    pub last_unlock_update_check: Option<u128>,
    /// The app whose fix is being applied.
    pub pending_fix_block: Option<u32>,
}

/// The parts of the shell, as contracts name them.
pub ghost enum Part {
    Page,
    LastPage,
    GuideFlow,
    NotificationsOpen,
    ExitForUpdate,
    Line,
    ListJobs,
    SteamJobs,
    ActivationJobs,
    SideJobs,
    Settings,
    SettingsReadOnly,
    Form,
    Steam,
    Catalog,
    Store,
    Details,
    SelectedApp,
    Activation,
    Library,
    Tools,
    Cloud,
    Downloads,
    CatalogLimiter,
    DownloadLimiter,
    UnlockWrites,
    LastUnlockUpdateCheck,
    PendingFixBlock,
}

impl StatusLine {
    /// Whether the line says this, with this busy label.
    pub open spec fn says(&self, text: Seq<char>, error: bool, busy: Option<String>) -> bool {
        &&& self.text@ == text
        &&& self.error == error
        &&& self.busy == busy
    }

    /// Whether the line shows this busy label.
    pub open spec fn is_busy_with(&self, text: Seq<char>) -> bool {
        self.busy matches Some(label) && label@ == text
    }
}

impl ListJobs {
    /// No fetch in flight.
    pub fn none() -> (jobs: Self)
        ensures
            !jobs.any(),
    {
        ListJobs {
            catalog: false,
            denuvo: false,
            fixes: false,
            repacks: false,
            store: false,
            featured: false,
        }
    }

    /// Whether any fetch is in flight.
    pub open spec fn any(self) -> bool {
        ||| self.catalog
        ||| self.denuvo
        ||| self.fixes
        ||| self.repacks
        ||| self.store
        ||| self.featured
    }
}

impl SteamJobs {
    /// No work in flight.
    pub fn none() -> (jobs: Self)
        ensures
            !jobs.any(),
    {
        SteamJobs {
            background: false,
            service: false,
            unlock_update: false,
            manifest_guard: false,
            update: false,
            emu: false,
        }
    }

    /// Whether any work is in flight.
    pub open spec fn any(self) -> bool {
        ||| self.background
        ||| self.service
        ||| self.unlock_update
        ||| self.manifest_guard
        ||| self.update
        ||| self.emu
    }
}

impl ActivationJobs {
    /// No step in flight.
    pub fn none() -> (jobs: Self)
        ensures
            !jobs.any(),
    {
        ActivationJobs {
            check: false,
            remove: false,
            request: false,
            verify: false,
            ubisoft_prepare: false,
        }
    }

    /// Whether any step is in flight.
    pub open spec fn any(self) -> bool {
        ||| self.check
        ||| self.remove
        ||| self.request
        ||| self.verify
        ||| self.ubisoft_prepare
    }
}

impl SideJobs {
    /// No work in flight.
    pub fn none() -> (jobs: Self)
        ensures
            !jobs.any(),
    {
        SideJobs {
            add_game: false,
            download_install: false,
            cloud_download: false,
            cloud_oauth: false,
        }
    }

    /// Whether any work is in flight.
    pub open spec fn any(self) -> bool {
        ||| self.add_game
        ||| self.download_install
        ||| self.cloud_download
        ||| self.cloud_oauth
    }
}

/// Eight empty fields.
pub fn empty_response_code() -> (fields: [String; 8])
    ensures
        forall|i: int| 0 <= i < 8 ==> (#[trigger] fields@[i])@ == Seq::<char>::empty(),
{
    [
        String::new(),
        String::new(),
        String::new(),
        String::new(),
        String::new(),
        String::new(),
        String::new(),
        String::new(),
    ]
}

/// Whether all response fields are empty.
pub open spec fn fields_are_empty(fields: [String; 8]) -> bool {
    forall|i: int| 0 <= i < 8 ==> (#[trigger] fields@[i])@ == Seq::<char>::empty()
}

/// What keeps the settings from being saved while the file on disk is unreadable.
pub open spec fn read_only_text() -> Seq<char> {
    "the settings file on disk is unreadable — saving is disabled so your library is not overwritten (Settings ▸ DISCARD BROKEN SETTINGS to start fresh)"@
}

impl DrydockApp {
    /// Whether any background job other than a depot job is in flight.
    pub open spec fn any_job(&self) -> bool {
        ||| self.list_jobs.any()
        ||| self.steam_jobs.any()
        ||| self.activation_jobs.any()
        ||| self.side_jobs.any()
    }

    /// Whether `after` agrees with this shell on every part but those in `changed`.
    pub open spec fn keeps_all_but(self, changed: Set<Part>, after: DrydockApp) -> bool {
        &&& changed.contains(Part::Page) || after.page == self.page
        &&& changed.contains(Part::LastPage) || after.last_page == self.last_page
        &&& changed.contains(Part::GuideFlow) || after.guide_flow == self.guide_flow
        &&& changed.contains(Part::NotificationsOpen) || after.notifications_open == self.notifications_open
        &&& changed.contains(Part::ExitForUpdate) || after.exit_for_update == self.exit_for_update
        &&& changed.contains(Part::Line) || after.line == self.line
        &&& changed.contains(Part::ListJobs) || after.list_jobs == self.list_jobs
        &&& changed.contains(Part::SteamJobs) || after.steam_jobs == self.steam_jobs
        &&& changed.contains(Part::ActivationJobs) || after.activation_jobs == self.activation_jobs
        &&& changed.contains(Part::SideJobs) || after.side_jobs == self.side_jobs
        &&& changed.contains(Part::Settings) || after.settings == self.settings
        &&& changed.contains(Part::SettingsReadOnly) || after.settings_read_only == self.settings_read_only
        &&& changed.contains(Part::Form) || after.form == self.form
        &&& changed.contains(Part::Steam) || after.steam == self.steam
        &&& changed.contains(Part::Catalog) || after.catalog == self.catalog
        &&& changed.contains(Part::Store) || after.store == self.store
        &&& changed.contains(Part::Details) || after.details == self.details
        &&& changed.contains(Part::SelectedApp) || after.selected_app == self.selected_app
        &&& changed.contains(Part::Activation) || after.activation == self.activation
        &&& changed.contains(Part::Library) || after.library == self.library
        &&& changed.contains(Part::Tools) || after.tools == self.tools
        &&& changed.contains(Part::Cloud) || after.cloud == self.cloud
        &&& changed.contains(Part::Downloads) || after.downloads == self.downloads
        &&& changed.contains(Part::CatalogLimiter) || after.catalog_limiter == self.catalog_limiter
        &&& changed.contains(Part::DownloadLimiter) || after.download_limiter == self.download_limiter
        &&& changed.contains(Part::UnlockWrites) || after.unlock_writes == self.unlock_writes
        &&& changed.contains(Part::LastUnlockUpdateCheck) || after.last_unlock_update_check == self.last_unlock_update_check
        &&& changed.contains(Part::PendingFixBlock) || after.pending_fix_block == self.pending_fix_block
    }

    /// Puts a message into the status bar.
    pub fn report(&mut self, text: String, error: bool)
        ensures
            old(self).keeps_all_but(set![Part::Line], *final(self)),
            final(self).line == (StatusLine { text, error, busy: old(self).line.busy }),
    {
        self.line.text = text;
        self.line.error = error;
    }

    /// Whether the settings may be written to disk: refused while the file there is quarantined or
    /// unreadable, because the real library may still be in it while the settings in memory are
    /// defaults. `discard_broken_settings` lifts the block.
    pub fn write_settings(&self) -> (allowed: Result<(), String>)
        ensures
            allowed is Ok <==> !self.settings_read_only,
            allowed matches Err(error) ==> error@ == read_only_text(),
    {
        if self.settings_read_only {
            return Err(
                "the settings file on disk is unreadable — saving is disabled so your library is not overwritten (Settings ▸ DISCARD BROKEN SETTINGS to start fresh)".to_owned(),
            );
        }
        Ok(())
    }

    /// Takes the outcome of writing the settings, always showing a failure in the status bar.
    pub fn persist_settings(&mut self, written: Result<(), String>) -> (result: Result<(), String>)
        ensures
            result == written,
            old(self).keeps_all_but(set![Part::Line], *final(self)),
            written is Ok ==> final(self).line == old(self).line,
            written matches Err(error) ==> final(self).line.says(
                ellipsized("Your change could not be saved: "@ + error@, 160),
                true,
                old(self).line.busy,
            ),
    {
        if let Err(error) = &written {
            let text = cat2("Your change could not be saved: ", error.as_str());
            self.report(ellipsize(text.as_str(), 160), true);
        }
        written
    }

    /// The Steam root, or `None` with a message in the status bar.
    pub fn steam_root_or_error(&mut self, message: &str) -> (root: Option<String>)
        ensures
            root == old(self).steam.root,
            old(self).keeps_all_but(set![Part::Line], *final(self)),
            root is Some ==> final(self).line == old(self).line,
            root is None ==> final(self).line.says(message@, true, old(self).line.busy),
    {
        let root = self.steam.root.clone();
        if root.is_none() {
            self.report(message.to_owned(), true);
        }
        root
    }
}

} // verus!
