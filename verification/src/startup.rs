//! The start of the shell: what it says first, what it lists first, and everything else empty.
use crate::catalog::Catalog;
use crate::rate_limiter::RateLimiter;
use crate::refresh::app_model;
use crate::state::{
    empty_response_code, fields_are_empty, ActivationJobs, ActivationState, CloudForm,
    CloudProvider, CloudState, DetailsPage, DownloadState, DrydockApp, EmuArch, LibraryFilter,
    LibraryState, ListJobs, Part, Settings, SettingsForm, SideJobs, StatusLine, SteamJobs,
    SteamState, StoreState, ToolsState,
};
use crate::steam::selection_is_stale;
use crate::text::{cat2, cat3, cat5};
use crate::timing::{CATALOG_LIMIT_WINDOW, DOWNLOAD_LIMIT_WINDOW};
use crate::types::{
    ActivationProvider, CatalogApp, FixFilter, GuideFlow, Page, SteamManifest, StoreTab,
};
use crate::unlocks::UnlockWrites;
use std::collections::{BTreeSet, HashSet};
use vstd::prelude::*;

verus! {

broadcast use vstd::std_specs::hash::group_hash_axioms;

/// How the settings were read.
pub enum LoadOutcome {
    Loaded,
    /// The file was broken, and its backup was read instead.
    RecoveredFromBackup { reason: String },
    /// The file was broken and was moved aside.
    Quarantined { reason: String, quarantined: String },
    /// The file could not be read and lies where it was.
    Unreadable { reason: String },
}

impl LoadOutcome {
    /// Whether the settings in memory may be written over the file: not where it may still hold the
    /// user's library.
    pub open spec fn is_safe(&self) -> bool {
        self is Loaded || self is RecoveredFromBackup
    }

    /// Whether the settings in memory may be written over the file.
    pub fn save_is_safe(&self) -> (safe: bool)
        ensures
            safe == self.is_safe(),
    {
        match self {
            LoadOutcome::Loaded => true,
            LoadOutcome::RecoveredFromBackup { .. } => true,
            LoadOutcome::Quarantined { .. } => false,
            LoadOutcome::Unreadable { .. } => false,
        }
    }

    /// What the status bar says of how the settings were read.
    pub open spec fn text(&self) -> Seq<char> {
        match *self {
            LoadOutcome::Loaded => "Ready"@,
            LoadOutcome::RecoveredFromBackup { reason } => "Settings recovered from the backup: "@
                + reason@,
            LoadOutcome::Quarantined { reason, quarantined } => "Settings were unreadable ("@
                + reason@ + "). The file was kept at "@ + quarantined@
                + " and Drydock started with defaults — saving is disabled so nothing is overwritten. Use Settings ▸ DISCARD BROKEN SETTINGS once you have checked it."@,
            LoadOutcome::Unreadable { reason } => "Settings could not be read ("@ + reason@
                + "). Saving is disabled so your library is not overwritten — close Drydock, fix the file, and start again."@,
        }
    }

    fn note(&self) -> (note: String)
        ensures
            note@ == self.text(),
    {
        match self {
            LoadOutcome::Loaded => "Ready".to_owned(),
            LoadOutcome::RecoveredFromBackup { reason } => cat2(
                "Settings recovered from the backup: ",
                reason.as_str(),
            ),
            LoadOutcome::Quarantined { reason, quarantined } => cat5(
                "Settings were unreadable (",
                reason.as_str(),
                "). The file was kept at ",
                quarantined.as_str(),
                " and Drydock started with defaults — saving is disabled so nothing is overwritten. Use Settings ▸ DISCARD BROKEN SETTINGS once you have checked it.",
            ),
            LoadOutcome::Unreadable { reason } => cat3(
                "Settings could not be read (",
                reason.as_str(),
                "). Saving is disabled so your library is not overwritten — close Drydock, fix the file, and start again.",
            ),
        }
    }
}

/// What the status bar says first: the latest of what went wrong, and else how the settings were
/// read.
pub open spec fn first_text(
    outcome: LoadOutcome,
    no_paths: Option<String>,
    no_library: Option<String>,
) -> (Seq<char>, bool) {
    match no_library {
        Some(error) => ("Steam library could not be read: "@ + error@, true),
        None => match no_paths {
            Some(error) => (
                "Portable paths could not be discovered ("@ + error@
                    + "); falling back to the current directory."@,
                true,
            ),
            None => (outcome.text(), !(outcome is Loaded)),
        },
    }
}

/// What the status bar says first.
pub fn first_line(
    outcome: &LoadOutcome,
    no_paths: Option<String>,
    no_library: Option<String>,
) -> (line: StatusLine)
    ensures
        ({
            let first = first_text(*outcome, no_paths, no_library);
            line.says(first.0, first.1, None)
        }),
{
    if let Some(error) = no_library {
        return StatusLine {
            text: cat2("Steam library could not be read: ", error.as_str()),
            error: true,
            busy: None,
        };
    }
    if let Some(error) = no_paths {
        return StatusLine {
            text: cat3(
                "Portable paths could not be discovered (",
                error.as_str(),
                "); falling back to the current directory.",
            ),
            error: true,
            busy: None,
        };
    }
    let error = match outcome {
        LoadOutcome::Loaded => false,
        _ => true,
    };
    StatusLine { text: outcome.note(), error, busy: None }
}

/// A game of the catalog made from one that Steam has installed.
pub open spec fn from_manifest(manifest: SteamManifest) -> (u32, Seq<char>, bool, Seq<Seq<char>>) {
    (manifest.app_id, manifest.name@, false, Seq::empty())
}

fn catalog_of_manifests(manifests: &Vec<SteamManifest>) -> (apps: Vec<CatalogApp>)
    ensures
        apps@.len() == manifests@.len(),
        forall|i: int|
            0 <= i < apps@.len() ==> app_model(#[trigger] apps@[i]) == from_manifest(
                manifests@[i],
            ),
{
    let mut apps: Vec<CatalogApp> = Vec::new();
    let mut i: usize = 0;
    while i < manifests.len()
        invariant
            i <= manifests@.len(),
            apps@.len() == i,
            forall|k: int|
                0 <= k < i ==> app_model(#[trigger] apps@[k]) == from_manifest(manifests@[k]),
        decreases manifests@.len() - i,
    {
        let app = CatalogApp {
            app_id: manifests[i].app_id,
            name: manifests[i].name.clone(),
            drm: false,
            tags: Vec::new(),
        };
        assert(app_model(app).3 =~= Seq::<Seq<char>>::empty());
        apps.push(app);
        i += 1;
    }
    apps
}

/// The games to list until the full list is there: the cached list where it holds any, else the
/// built-in one, else what Steam has installed.
pub fn first_catalog(
    cached: Option<Vec<CatalogApp>>,
    embedded: Option<Vec<CatalogApp>>,
    manifests: &Vec<SteamManifest>,
) -> (apps: Vec<CatalogApp>)
    ensures
        cached is Some && cached->0@.len() > 0 ==> apps == cached->0,
        !(cached is Some && cached->0@.len() > 0) && embedded is Some ==> apps == embedded->0,
        !(cached is Some && cached->0@.len() > 0) && embedded is None ==> {
            &&& apps@.len() == manifests@.len()
            &&& forall|i: int|
                0 <= i < apps@.len() ==> app_model(#[trigger] apps@[i]) == from_manifest(
                    manifests@[i],
                )
        },
{
    if let Some(list) = cached {
        if list.len() > 0 {
            return list;
        }
    }
    match embedded {
        Some(list) => list,
        None => catalog_of_manifests(manifests),
    }
}

impl SteamState {
    /// Whether nothing was done with Steam yet.
    pub open spec fn is_fresh(&self) -> bool {
        &&& self.plugin_luas@ == Set::<u32>::empty()
        &&& self.service_status is None
        &&& self.last_service_check is None
        &&& self.last_manifest_check is None
        &&& self.manifest_fetch_attempted@ == Set::<u32>::empty()
    }

    fn fresh(
        root: Option<String>,
        manifests: Vec<SteamManifest>,
        conflicts: Vec<String>,
        running: bool,
    ) -> (steam: Self)
        ensures
            steam.is_fresh(),
            steam.root == root,
            steam.manifests == manifests,
            steam.conflicts == conflicts,
            steam.was_running == running,
    {
        SteamState {
            root,
            manifests,
            conflicts,
            plugin_luas: BTreeSet::new(),
            service_status: None,
            last_service_check: None,
            was_running: running,
            last_manifest_check: None,
            manifest_fetch_attempted: HashSet::new(),
        }
    }
}

impl StoreState {
    /// Whether the storefront shows nothing yet.
    pub open spec fn is_fresh(&self) -> bool {
        &&& self.search@.len() == 0
        &&& self.tab == StoreTab::Featured
        &&& self.featured is None
        &&& !self.featured_loading
        &&& self.featured_error is None
        &&& self.hero_carousel_index == 0
        &&& self.hero_last_scroll is None
        &&& self.see_all_section is None
    }

    fn fresh() -> (store: Self)
        ensures
            store.is_fresh(),
    {
        StoreState {
            search: String::new(),
            tab: StoreTab::Featured,
            featured: None,
            featured_loading: false,
            featured_error: None,
            hero_carousel_index: 0,
            hero_last_scroll: None,
            see_all_section: None,
        }
    }
}

impl ActivationState {
    /// Whether no activation was begun.
    pub open spec fn is_fresh(&self) -> bool {
        &&& self.provider == ActivationProvider::Steam
        &&& self.search@.len() == 0
        &&& self.path@.len() == 0
        &&& self.root is None
        &&& self.request_code@.len() == 0
        &&& fields_are_empty(self.response_code)
        &&& self.verified_entitlement is None
        &&& self.success_app is None
        &&& self.check_app is None
        &&& self.pending_crack is None
        &&& self.awaiting_verify is None
        &&& self.ubisoft_code@.len() == 0
        &&& self.ubisoft_exe_dir is None
    }

    fn fresh() -> (activation: Self)
        ensures
            activation.is_fresh(),
    {
        ActivationState {
            provider: ActivationProvider::Steam,
            search: String::new(),
            path: String::new(),
            root: None,
            request_code: String::new(),
            response_code: empty_response_code(),
            verified_entitlement: None,
            success_app: None,
            check_app: None,
            pending_crack: None,
            awaiting_verify: None,
            ubisoft_code: String::new(),
            ubisoft_exe_dir: None,
        }
    }
}

impl LibraryState {
    /// Whether the library was not used yet.
    pub open spec fn is_fresh(&self) -> bool {
        &&& self.selected is None
        &&& self.modal is None
        &&& self.search@.len() == 0
        &&& self.filter == LibraryFilter::All
        &&& self.add_game_folder is None
        &&& self.add_game_search@.len() == 0
        &&& self.launch_warned@ == Set::<u32>::empty()
    }

    fn fresh() -> (library: Self)
        ensures
            library.is_fresh(),
    {
        LibraryState {
            selected: None,
            modal: None,
            search: String::new(),
            filter: LibraryFilter::All,
            add_game_folder: None,
            add_game_search: String::new(),
            launch_warned: HashSet::new(),
        }
    }
}

impl ToolsState {
    /// Whether no tool was used yet.
    pub open spec fn is_fresh(&self) -> bool {
        &&& self.language_path@.len() == 0
        &&& self.language_options is None
        &&& self.language_directory is None
        &&& self.language_selection@.len() == 0
        &&& self.emu_appid@.len() == 0
        &&& !self.emu_loader_winmm
        &&& self.emu_arch == EmuArch::Auto
        &&& !self.emu_reframework
    }

    fn fresh() -> (tools: Self)
        ensures
            tools.is_fresh(),
    {
        ToolsState {
            language_path: String::new(),
            language_options: None,
            language_directory: None,
            language_selection: String::new(),
            emu_appid: String::new(),
            emu_loader_winmm: false,
            emu_arch: EmuArch::Auto,
            emu_reframework: false,
        }
    }
}

impl RateLimiter {
    /// Whether one request in `window` is allowed and none was seen.
    pub open spec fn is_fresh(&self, window: u128) -> bool {
        &&& self.wf()
        &&& self.max == 1
        &&& self.window == window
        &&& self.hits@.len() == 0
    }
}

/// What the shell starts from.
pub struct Start {
    pub settings: Settings,
    pub outcome: LoadOutcome,
    /// Why the portable paths could not be discovered.
    pub no_paths: Option<String>,
    pub root: Option<String>,
    /// The games that Steam has installed.
    pub manifests: Result<Vec<SteamManifest>, String>,
    pub conflicts: Vec<String>,
    /// The cached and the built-in list of games.
    pub cached: Option<Vec<CatalogApp>>,
    pub embedded: Option<Vec<CatalogApp>>,
    /// Whether Steam runs.
    pub running: bool,
}

impl DrydockApp {
    /// The shell as it starts.
    pub fn new(start: Start) -> (app: Self)
        ensures
            app.page == Page::Home && app.last_page == Page::Home,
            app.guide_flow == GuideFlow::Activation,
            !app.notifications_open && !app.exit_for_update,
            ({
                let first = first_text(start.outcome, start.no_paths, match start.manifests {
                    Ok(_) => None,
                    Err(error) => Some(error),
                });
                app.line.says(first.0, first.1, None)
            }),
            !app.any_job(),
            app.settings == start.settings,
            app.settings_read_only == !start.outcome.is_safe(),
            app.form.steam_directory@ == (match start.root {
                Some(root) => root@,
                None => start.settings.steam_directory@,
            }),
            app.form.games_directory@ == start.settings.games_directory@,
            app.form.validated is None,
            app.steam.is_fresh(),
            app.steam.root == start.root,
            app.steam.conflicts == start.conflicts,
            app.steam.was_running == start.running,
            start.manifests matches Ok(manifests) ==> app.steam.manifests == manifests,
            start.manifests is Err ==> app.steam.manifests@.len() == 0,
            app.catalog.wf(),
            !app.catalog.denuvo_loaded && !app.catalog.fixes_loaded && !app.catalog.repacks_loaded,
            app.catalog.denuvo_appids@ == Set::<u32>::empty(),
            app.catalog.fixes@.len() == 0 && app.catalog.repacks@.len() == 0,
            app.catalog.selected_tag is None,
            app.catalog.fix_filter == FixFilter::Any && app.catalog.repack_filter is Any,
            ({
                let cached = start.cached is Some && start.cached->0@.len() > 0;
                &&& cached ==> app.catalog.apps == start.cached->0
                &&& !cached && start.embedded is Some ==> app.catalog.apps == start.embedded->0
                &&& !cached && start.embedded is None ==> {
                    &&& app.catalog.apps@.len() == app.steam.manifests@.len()
                    &&& forall|i: int|
                        0 <= i < app.catalog.apps@.len() ==> app_model(
                            #[trigger] app.catalog.apps@[i],
                        ) == from_manifest(app.steam.manifests@[i])
                }
            }),
            app.store.is_fresh(),
            app.details == (DetailsPage {
                app_id: None,
                store_details: None,
                loading: false,
                screenshot_index: 0,
            }),
            app.selected_app is None,
            app.activation.is_fresh(),
            app.library.is_fresh(),
            app.tools.is_fresh(),
            app.cloud.form.is_blank(),
            app.cloud.dll_installed is None && app.cloud.provider is None,
            app.downloads == (DownloadState {
                job: None,
                paused: false,
                error: None,
                last: None,
                switch_pending: false,
            }),
            app.catalog_limiter.is_fresh(CATALOG_LIMIT_WINDOW),
            app.download_limiter.is_fresh(DOWNLOAD_LIMIT_WINDOW),
            !app.unlock_writes.is_held(),
            app.unlock_writes.touched_set() == Set::<u32>::empty(),
            app.last_unlock_update_check is None,
            app.pending_fix_block is None,
    {
        let settings_read_only = !start.outcome.save_is_safe();
        let (manifests, no_library) = match start.manifests {
            Ok(manifests) => (manifests, None),
            Err(error) => (Vec::new(), Some(error)),
        };
        let line = first_line(&start.outcome, start.no_paths, no_library);
        let form = SettingsForm {
            steam_directory: match &start.root {
                Some(root) => root.clone(),
                None => start.settings.steam_directory.clone(),
            },
            games_directory: start.settings.games_directory.clone(),
            validated: None,
        };
        let apps = first_catalog(start.cached, start.embedded, &manifests);
        DrydockApp {
            page: Page::Home,
            last_page: Page::Home,
            guide_flow: GuideFlow::Activation,
            notifications_open: false,
            exit_for_update: false,
            line,
            list_jobs: ListJobs::none(),
            steam_jobs: SteamJobs::none(),
            activation_jobs: ActivationJobs::none(),
            side_jobs: SideJobs::none(),
            settings: start.settings,
            settings_read_only,
            form,
            steam: SteamState::fresh(start.root, manifests, start.conflicts, start.running),
            catalog: Catalog::new(apps),
            store: StoreState::fresh(),
            details: DetailsPage {
                app_id: None,
                store_details: None,
                loading: false,
                screenshot_index: 0,
            },
            selected_app: None,
            activation: ActivationState::fresh(),
            library: LibraryState::fresh(),
            tools: ToolsState::fresh(),
            cloud: CloudState { form: CloudForm::default(), dll_installed: None, provider: None },
            downloads: DownloadState {
                job: None,
                paused: false,
                error: None,
                last: None,
                switch_pending: false,
            },
            catalog_limiter: RateLimiter::new(1, CATALOG_LIMIT_WINDOW),
            download_limiter: RateLimiter::new(1, DOWNLOAD_LIMIT_WINDOW),
            unlock_writes: UnlockWrites::default(),
            last_unlock_update_check: None,
            pending_fix_block: None,
        }
    }

    /// Takes what was found on entering a page: the hook and its configuration, the unlocks in the
    /// plug-in folder, and the games that Steam has installed.
    pub fn refresh_dynamic_state(
        &mut self,
        hook_installed: bool,
        provider: Option<CloudProvider>,
        luas: BTreeSet<u32>,
        scanned: Result<Vec<SteamManifest>, String>,
    )
        ensures
            ({
                let before = *old(self);
                let after = *final(self);
                let taken = before.steam.root is Some && scanned is Ok;
                let stale = taken && selection_is_stale(
                    before.selected_app,
                    scanned->Ok_0@,
                );
                &&& before.keeps_all_but(
                    set![Part::Cloud, Part::Steam, Part::SelectedApp, Part::Activation],
                    after,
                )
                &&& after.cloud == (CloudState {
                    dll_installed: if before.steam.root is Some {
                        Some(hook_installed)
                    } else {
                        None
                    },
                    provider,
                    ..before.cloud
                })
                &&& after.steam == (SteamState {
                    plugin_luas: after.steam.plugin_luas,
                    manifests: after.steam.manifests,
                    ..before.steam
                })
                &&& after.steam.plugin_luas@ == if before.steam.root is Some {
                    luas@
                } else {
                    Set::empty()
                }
                &&& after.steam.manifests == if taken {
                    scanned->Ok_0
                } else {
                    before.steam.manifests
                }
                &&& after.selected_app == if stale {
                    None
                } else {
                    before.selected_app
                }
                &&& stale ==> before.activation.codes_cleared(after.activation)
                &&& !stale ==> after.activation == before.activation
            }),
    {
        self.refresh_cloud_state(hook_installed, provider);
        self.refresh_plugin_luas(luas);
        self.refresh_manifests(scanned);
    }
}

} // verus!
