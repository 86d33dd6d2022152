//! The plain values that the shell's state is made of.
use vstd::prelude::*;

verus! {

/// A game of the catalog.
pub struct CatalogApp {
    pub app_id: u32,
    pub name: String,
    pub drm: bool,
    pub tags: Vec<String>,
}

/// One place a repack can be downloaded from.
pub struct RepackSource {
    pub repacker: String,
    pub link: String,
}

/// The repacks known for an app.
pub struct RepackApp {
    pub app_id: u32,
    pub sources: Vec<RepackSource>,
}

/// The fixes known for an app.
pub struct FixEntry {
    pub app_id: u32,
    /// Whether a build-locked Denuvo fix is among them.
    pub denuvo: bool,
}

/// A game on the live storefront.
pub struct StoreCapsule {
    pub app_id: u32,
    pub name: String,
    pub header_image_url: String,
    pub discount_percent: u32,
    pub price: String,
}

/// The live storefront.
pub struct StoreFeatured {
    pub top_sellers: Vec<StoreCapsule>,
    pub new_releases: Vec<StoreCapsule>,
}

/// A game that Steam has installed.
pub struct SteamManifest {
    pub app_id: u32,
    pub name: String,
    pub install_dir: String,
    /// Where Steam has recorded it.
    pub size_on_disk: Option<u64>,
}

/// What a background job had to say when it was asked.
pub enum Reply<T> {
    /// It is still at work.
    Waiting,
    /// It went away without an answer.
    Lost,
    /// It is done.
    Done(T),
}

/// The pages of the shell.
#[derive(Clone, Copy, Debug, Eq, PartialEq, Structural)]
pub enum Page {
    Home,
    SeeAll,
    Library,
    Details,
    Activation,
    Tools,
    Cloud,
    Updates,
    Settings,
    Guide,
    Downloads,
}

/// The store's sub-tabs. `DenuvoWatch` lists the games that need activation.
#[derive(Clone, Copy, Debug, Eq, PartialEq, Structural)]
pub enum StoreTab {
    Featured,
    NewReleases,
    Repacks,
    DenuvoWatch,
}

impl Default for StoreTab {
    fn default() -> (tab: Self)
        ensures
            tab == StoreTab::Featured,
    {
        StoreTab::Featured
    }
}

impl StoreTab {
    /// The tab's name.
    pub fn label(self) -> (label: &'static str)
        ensures
            label@ == (match self {
                StoreTab::Featured => "Featured"@,
                StoreTab::NewReleases => "New Releases"@,
                StoreTab::Repacks => "Repacks"@,
                StoreTab::DenuvoWatch => "Denuvo"@,
            }),
    {
        match self {
            StoreTab::Featured => "Featured",
            StoreTab::NewReleases => "New Releases",
            StoreTab::Repacks => "Repacks",
            StoreTab::DenuvoWatch => "Denuvo",
        }
    }
}

/// A store section that has a page of its own.
#[derive(Clone, Copy, Debug, Eq, PartialEq, Structural)]
pub enum SeeAllSection {
    Featured,
    TopPicks,
    NewReleases,
}

/// Which walkthrough the How It Works page is showing.
#[derive(Clone, Copy, Debug, Eq, PartialEq, Structural)]
pub enum GuideFlow {
    Activation,
    Fixes,
}

/// Which store's activation the Activation page is showing.
#[derive(Clone, Copy, Debug, Eq, PartialEq, Structural)]
pub enum ActivationProvider {
    Steam,
    Ubisoft,
    Ea,
}

impl Default for ActivationProvider {
    fn default() -> (provider: Self)
        ensures
            provider == ActivationProvider::Steam,
    {
        ActivationProvider::Steam
    }
}

/// Restricts results to apps with a repack, optionally from one repacker.
pub enum RepackFilter {
    Any,
    /// Any app that has at least one repack source.
    AnyRepack,
    /// Only apps with a repack from this exact repacker.
    Repacker(String),
}

impl RepackFilter {
    /// Short label for the filter dropdown's button.
    pub fn label(&self) -> (label: String)
        ensures
            label@ == (match *self {
                RepackFilter::Any => "Any"@,
                RepackFilter::AnyRepack => "All repacks"@,
                RepackFilter::Repacker(name) => name@,
            }),
    {
        match self {
            RepackFilter::Any => "Any".to_owned(),
            RepackFilter::AnyRepack => "All repacks".to_owned(),
            RepackFilter::Repacker(name) => name.clone(),
        }
    }
}

/// Restricts results to apps with a fix of the given kind.
#[derive(Clone, Copy, Debug, Eq, PartialEq, Structural)]
pub enum FixFilter {
    Any,
    Denuvo,
}

impl Default for FixFilter {
    fn default() -> (filter: Self)
        ensures
            filter == FixFilter::Any,
    {
        FixFilter::Any
    }
}

impl FixFilter {
    /// Short label for the filter dropdown's button.
    pub fn label(self) -> (label: &'static str)
        ensures
            label@ == (match self {
                FixFilter::Any => "Any"@,
                FixFilter::Denuvo => "Denuvo"@,
            }),
    {
        match self {
            FixFilter::Any => "Any",
            FixFilter::Denuvo => "Denuvo",
        }
    }
}

/// What a click on a store row asks for.
#[derive(Clone, Copy, Debug, Eq, PartialEq, Structural)]
pub enum StoreAction {
    Details(u32),
    Activate(u32),
}

/// The colours that carry a meaning.
#[derive(Clone, Copy, Debug, Eq, PartialEq, Structural)]
pub enum Tone {
    /// The brand accent.
    Accent,
    /// The lighter accent, for what went well.
    AccentSoft,
    /// "Installed", "ready", "play".
    Verdigris,
    /// A warning.
    Amber,
    /// An error or a destructive action.
    Danger,
    /// Ordinary text.
    Text,
    /// Text of less weight.
    Muted,
}

impl Tone {
    /// The red, green and blue parts of the colour.
    pub fn rgb(self) -> (rgb: (u8, u8, u8))
        ensures
            rgb == (match self {
                Tone::Accent => (0u8, 225u8, 250u8),
                Tone::AccentSoft => (118u8, 242u8, 255u8),
                Tone::Verdigris => (0u8, 230u8, 180u8),
                Tone::Amber => (255u8, 196u8, 61u8),
                Tone::Danger => (255u8, 82u8, 82u8),
                Tone::Text => (240u8, 246u8, 252u8),
                Tone::Muted => (139u8, 161u8, 179u8),
            }),
    {
        match self {
            Tone::Accent => (0, 225, 250),
            Tone::AccentSoft => (118, 242, 255),
            Tone::Verdigris => (0, 230, 180),
            Tone::Amber => (255, 196, 61),
            Tone::Danger => (255, 82, 82),
            Tone::Text => (240, 246, 252),
            Tone::Muted => (139, 161, 179),
        }
    }
}

/// A compact status card: an accent with a title and a detail.
pub struct Notification {
    pub accent: Tone,
    pub title: String,
    pub detail: String,
}

impl Notification {
    /// Something failed.
    pub fn error(title: String, detail: String) -> (note: Self)
        ensures
            note == (Notification { accent: Tone::Danger, title, detail }),
    {
        Notification { accent: Tone::Danger, title, detail }
    }

    /// Something needs attention.
    pub fn warn(title: String, detail: String) -> (note: Self)
        ensures
            note == (Notification { accent: Tone::Amber, title, detail }),
    {
        Notification { accent: Tone::Amber, title, detail }
    }

    /// Something went well.
    pub fn ok(title: String, detail: String) -> (note: Self)
        ensures
            note == (Notification { accent: Tone::AccentSoft, title, detail }),
    {
        Notification { accent: Tone::AccentSoft, title, detail }
    }

    /// Something is going on.
    pub fn info(title: String, detail: String) -> (note: Self)
        ensures
            note == (Notification { accent: Tone::Accent, title, detail }),
    {
        Notification { accent: Tone::Accent, title, detail }
    }
}

} // verus!
