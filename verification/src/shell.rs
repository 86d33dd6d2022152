//! The frame around the pages: the sidebar, the status bar, its notifications, and the windows that
//! open over a page.
use crate::catalog::{first_kept, full_list_stays, found_by, matches_query};
use crate::helpers::{ellipsize, ellipsized};
use crate::state::{ActivationState, DrydockApp, Part, SteamServiceState, SteamServiceStatus};
use crate::text::{
    cat2, cat3, contains, contains_text, decimal, decimal_text, lowercase, no_text, same_text,
    trim, trimmed,
};
use crate::types::{CatalogApp, Notification, Page, Tone};
use std::collections::HashSet;
use vstd::prelude::*;

verus! {

broadcast use vstd::std_specs::hash::group_hash_axioms;

/// A notification, as contracts speak of it.
pub open spec fn note_model(note: Notification) -> (Tone, Seq<char>, Seq<char>) {
    (note.accent, note.title@, note.detail@)
}

/// The models of a list of notifications.
pub open spec fn note_models(notes: Seq<Notification>) -> Seq<(Tone, Seq<char>, Seq<char>)> {
    notes.map_values(|note: Notification| note_model(note))
}

fn push_note(notes: &mut Vec<Notification>, note: Notification)
    ensures
        note_models(final(notes)@) == note_models(old(notes)@).push(note_model(note)),
{
    let ghost before = note_models(notes@);
    notes.push(note);
    assert(note_models(notes@) =~= before.push(note_model(note)));
}

/// What is said of a missing Steam folder.
pub open spec fn steam_notes(root: Option<String>) -> Seq<(Tone, Seq<char>, Seq<char>)> {
    if root is None {
        seq![(Tone::Danger, "Steam not found"@, "Set the Steam folder in Settings."@)]
    } else {
        Seq::empty()
    }
}

/// What is said of a problem with the Steam Service.
pub open spec fn service_problems(status: Option<SteamServiceStatus>) -> Seq<
    (Tone, Seq<char>, Seq<char>),
> {
    match status {
        Some(status) => match status.state {
            SteamServiceState::NotInstalled => seq![
                (
                    Tone::Amber,
                    "Steam Service not installed"@,
                    "Install it in Settings to enable Add to Steam."@,
                ),
            ],
            SteamServiceState::UpdateAvailable => seq![
                (
                    Tone::Amber,
                    "Steam Service out of date"@,
                    "Reinstall it in Settings to update."@,
                ),
            ],
            SteamServiceState::Error => seq![
                (Tone::Danger, "Steam Service problem"@, status.message@),
            ],
            SteamServiceState::Current => Seq::empty(),
        },
        None => Seq::empty(),
    }
}

/// What is said of a Steam Service in order, or being looked at.
pub open spec fn service_notes(status: Option<SteamServiceStatus>, checking: bool) -> Seq<
    (Tone, Seq<char>, Seq<char>),
> {
    match status {
        Some(status) => if status.state == SteamServiceState::Current {
            seq![(Tone::AccentSoft, "Steam Service ready"@, ""@)]
        } else {
            Seq::empty()
        },
        None => if checking {
            seq![(Tone::Accent, "Checking Steam Service…"@, ""@)]
        } else {
            Seq::empty()
        },
    }
}

/// What is said of a piece of software that manages the same files.
pub open spec fn conflict_note(name: Seq<char>) -> (Tone, Seq<char>, Seq<char>) {
    (
        Tone::Danger,
        name,
        if name == "Modified Steam files"@ {
            "Foreign backup files were found in the Steam folder. They can break the Steam Service."@
        } else {
            "Manages the same Steam files and can break activation. Remove it, then restart Steam."@
        },
    )
}

/// What is said of all such software.
pub open spec fn conflict_notes(names: Seq<String>) -> Seq<(Tone, Seq<char>, Seq<char>)> {
    names.map_values(|name: String| conflict_note(name@))
}

/// What is said of the latest activity.
pub open spec fn activity_notes(text: Seq<char>, error: bool) -> Seq<
    (Tone, Seq<char>, Seq<char>),
> {
    if trimmed(text).len() == 0 {
        Seq::empty()
    } else {
        seq![
            (
                if error {
                    Tone::Danger
                } else {
                    Tone::Accent
                },
                trimmed(text),
                ""@,
            ),
        ]
    }
}

fn push_conflicts(notes: &mut Vec<Notification>, names: &Vec<String>)
    ensures
        note_models(final(notes)@) == note_models(old(notes)@) + conflict_notes(names@),
{
    let ghost before = note_models(notes@);
    let ghost all = conflict_notes(names@);
    let mut i: usize = 0;
    assert(before + all.take(0) =~= before);
    while i < names.len()
        invariant
            i <= names@.len(),
            all == conflict_notes(names@),
            note_models(notes@) == before + all.take(i as int),
        decreases names@.len() - i,
    {
        let name = names[i].clone();
        let detail = if same_text(name.as_str(), "Modified Steam files") {
            "Foreign backup files were found in the Steam folder. They can break the Steam Service."
        } else {
            "Manages the same Steam files and can break activation. Remove it, then restart Steam."
        };
        push_note(notes, Notification::error(name, detail.to_owned()));
        assert(all.take(i + 1) =~= all.take(i as int).push(all[i as int]));
        assert(note_models(notes@) =~= before + all.take(i + 1));
        i += 1;
    }
    assert(all.take(i as int) =~= all);
}

fn push_service_problem(notes: &mut Vec<Notification>, status: &Option<SteamServiceStatus>)
    ensures
        note_models(final(notes)@) == note_models(old(notes)@) + service_problems(*status),
{
    let ghost before = note_models(notes@);
    if let Some(status) = status {
        match status.state {
            SteamServiceState::NotInstalled => {
                push_note(
                    notes,
                    Notification::warn(
                        "Steam Service not installed".to_owned(),
                        "Install it in Settings to enable Add to Steam.".to_owned(),
                    ),
                );
            },
            SteamServiceState::UpdateAvailable => {
                push_note(
                    notes,
                    Notification::warn(
                        "Steam Service out of date".to_owned(),
                        "Reinstall it in Settings to update.".to_owned(),
                    ),
                );
            },
            SteamServiceState::Error => {
                push_note(
                    notes,
                    Notification::error(
                        "Steam Service problem".to_owned(),
                        status.message.clone(),
                    ),
                );
            },
            SteamServiceState::Current => {},
        }
    }
    assert(note_models(notes@) =~= before + service_problems(*status));
}

fn push_service_note(
    notes: &mut Vec<Notification>,
    status: &Option<SteamServiceStatus>,
    checking: bool,
)
    ensures
        note_models(final(notes)@) == note_models(old(notes)@) + service_notes(*status, checking),
{
    let ghost before = note_models(notes@);
    match status {
        Some(status) => {
            if status.state == SteamServiceState::Current {
                push_note(
                    notes,
                    Notification::ok("Steam Service ready".to_owned(), "".to_owned()),
                );
            }
        },
        None => {
            if checking {
                push_note(
                    notes,
                    Notification::info("Checking Steam Service…".to_owned(), "".to_owned()),
                );
            }
        },
    }
    assert(note_models(notes@) =~= before + service_notes(*status, checking));
}

/// A link of the sidebar.
pub struct SidebarLink {
    pub page: Page,
    pub label: &'static str,
    pub active: bool,
    pub badge: Option<(&'static str, Tone)>,
}

/// The three groups of links in the sidebar.
#[derive(Clone, Copy, Debug, PartialEq, Eq, Structural)]
pub enum SidebarSection {
    Storefront,
    Services,
    System,
}

/// The name of a group of links.
pub fn section_label(section: SidebarSection) -> (label: &'static str)
    ensures
        label@ == (match section {
            SidebarSection::Storefront => "STOREFRONT"@,
            SidebarSection::Services => "SERVICES & TOOLS"@,
            SidebarSection::System => "SYSTEM"@,
        }),
{
    match section {
        SidebarSection::Storefront => "STOREFRONT",
        SidebarSection::Services => "SERVICES & TOOLS",
        SidebarSection::System => "SYSTEM",
    }
}

/// Whether `link` is the link to `page` under `label`.
pub open spec fn links_to(link: SidebarLink, page: Page, label: Seq<char>, active: bool) -> bool {
    link.page == page && link.label@ == label && link.active == active
}

/// Where a button of a notification leads.
pub open spec fn note_target(title: Seq<char>) -> Option<Page> {
    if contains_text(title, "Steam Service"@) || contains_text(title, "Steam not found"@) {
        Some(Page::Settings)
    } else if contains_text(title, "Download"@) {
        Some(Page::Downloads)
    } else {
        None
    }
}

/// Where a button of a notification leads, if it has one.
pub fn note_page(note: &Notification) -> (page: Option<Page>)
    ensures
        page == note_target(note.title@),
{
    let title = note.title.as_str();
    if contains(title, "Steam Service") || contains(title, "Steam not found") {
        Some(Page::Settings)
    } else if contains(title, "Download") {
        Some(Page::Downloads)
    } else {
        None
    }
}

/// The pill of the status bar.
pub struct NotePill {
    pub accent: Tone,
    pub title: String,
    pub more: String,
    pub hint: String,
}

/// The window over the activation page that lists the files to be removed.
pub struct RemovalWindow {
    pub headline: String,
    /// How many of the files are listed.
    pub listed: usize,
    /// That there are more.
    pub more: Option<String>,
}

impl DrydockApp {
    /// The notifications, the most important first: what is wrong with the environment, then the
    /// latest activity, then what is in order.
    pub open spec fn notes(&self) -> Seq<(Tone, Seq<char>, Seq<char>)> {
        steam_notes(self.steam.root) + service_problems(self.steam.service_status)
            + conflict_notes(self.steam.conflicts@) + activity_notes(
            self.line.text@,
            self.line.error,
        ) + service_notes(self.steam.service_status, self.steam_jobs.service)
    }

    /// The notifications, the most important first.
    pub fn collect_notifications(&self) -> (notes: Vec<Notification>)
        ensures
            note_models(notes@) == self.notes(),
    {
        let mut notes: Vec<Notification> = Vec::new();
        if self.steam.root.is_none() {
            push_note(
                &mut notes,
                Notification::error(
                    "Steam not found".to_owned(),
                    "Set the Steam folder in Settings.".to_owned(),
                ),
            );
        }
        assert(note_models(notes@) =~= steam_notes(self.steam.root));
        push_service_problem(&mut notes, &self.steam.service_status);
        push_conflicts(&mut notes, &self.steam.conflicts);
        let text = trim(self.line.text.as_str());
        let ghost before = note_models(notes@);
        if !no_text(text.as_str()) {
            if self.line.error {
                push_note(&mut notes, Notification::error(text, "".to_owned()));
            } else {
                push_note(&mut notes, Notification::info(text, "".to_owned()));
            }
        }
        assert(note_models(notes@) =~= before + activity_notes(self.line.text@, self.line.error));
        push_service_note(&mut notes, &self.steam.service_status, self.steam_jobs.service);
        notes
    }

    /// How the downloads stand, as the sidebar's badge.
    pub open spec fn download_badge(&self) -> Option<(Seq<char>, Tone)> {
        if self.downloads.is_running() {
            Some(("ACTIVE"@, Tone::Accent))
        } else if self.downloads.paused {
            Some(("PAUSED"@, Tone::Danger))
        } else if self.settings.download_queue@.len() > 0 {
            Some(("QUEUED"@, Tone::Amber))
        } else {
            None
        }
    }

    /// The links of the sidebar, in three groups.
    pub fn sidebar_nav(&self, section: SidebarSection) -> (links: [SidebarLink; 3])
        ensures
            section == SidebarSection::Storefront ==> {
                &&& links_to(
                    links@[0],
                    Page::Home,
                    "Store"@,
                    self.page == Page::Home || self.page == Page::SeeAll,
                )
                &&& links_to(links@[1], Page::Library, "Library"@, self.page == Page::Library)
                &&& links_to(
                    links@[2],
                    Page::Downloads,
                    "Downloads"@,
                    self.page == Page::Downloads,
                )
                &&& links@[0].badge is None
                &&& links@[1].badge is None
                &&& match self.download_badge() {
                    Some((text, tone)) => links@[2].badge matches Some(badge) && badge.0@ == text
                        && badge.1 == tone,
                    None => links@[2].badge is None,
                }
            },
            section == SidebarSection::Services ==> {
                &&& links_to(
                    links@[0],
                    Page::Activation,
                    "Activation"@,
                    self.page == Page::Activation,
                )
                &&& links_to(links@[1], Page::Tools, "Tools"@, self.page == Page::Tools)
                &&& links_to(links@[2], Page::Cloud, "Cloud"@, self.page == Page::Cloud)
                &&& links@[0].badge is None
                &&& links@[1].badge is None
                &&& links@[2].badge is None
            },
            section == SidebarSection::System ==> {
                &&& links_to(links@[0], Page::Settings, "Settings"@, self.page == Page::Settings)
                &&& links_to(links@[1], Page::Updates, "Updates"@, self.page == Page::Updates)
                &&& links_to(links@[2], Page::Guide, "Help & Guide"@, self.page == Page::Guide)
                &&& links@[0].badge is None
                &&& self.steam_jobs.update ==> (links@[1].badge matches Some(badge) && badge.0@
                    == "..."@ && badge.1 == Tone::Accent)
                &&& !self.steam_jobs.update ==> links@[1].badge is None
                &&& links@[2].badge is None
            },
    {
        match section {
            SidebarSection::Storefront => {
                let badge = if self.downloads.running() {
                    Some(("ACTIVE", Tone::Accent))
                } else if self.downloads.paused {
                    Some(("PAUSED", Tone::Danger))
                } else if self.settings.download_queue.len() > 0 {
                    Some(("QUEUED", Tone::Amber))
                } else {
                    None
                };
                [
                    SidebarLink {
                        page: Page::Home,
                        label: "Store",
                        active: self.page == Page::Home || self.page == Page::SeeAll,
                        badge: None,
                    },
                    SidebarLink {
                        page: Page::Library,
                        label: "Library",
                        active: self.page == Page::Library,
                        badge: None,
                    },
                    SidebarLink {
                        page: Page::Downloads,
                        label: "Downloads",
                        active: self.page == Page::Downloads,
                        badge,
                    },
                ]
            },
            SidebarSection::Services => [
                SidebarLink {
                    page: Page::Activation,
                    label: "Activation",
                    active: self.page == Page::Activation,
                    badge: None,
                },
                SidebarLink {
                    page: Page::Tools,
                    label: "Tools",
                    active: self.page == Page::Tools,
                    badge: None,
                },
                SidebarLink {
                    page: Page::Cloud,
                    label: "Cloud",
                    active: self.page == Page::Cloud,
                    badge: None,
                },
            ],
            SidebarSection::System => {
                let badge = if self.steam_jobs.update {
                    Some(("...", Tone::Accent))
                } else {
                    None
                };
                [
                    SidebarLink {
                        page: Page::Settings,
                        label: "Settings",
                        active: self.page == Page::Settings,
                        badge: None,
                    },
                    SidebarLink {
                        page: Page::Updates,
                        label: "Updates",
                        active: self.page == Page::Updates,
                        badge,
                    },
                    SidebarLink {
                        page: Page::Guide,
                        label: "Help & Guide",
                        active: self.page == Page::Guide,
                        badge: None,
                    },
                ]
            },
        }
    }

    /// The card at the foot of the sidebar.
    pub fn steam_card(&self) -> (card: (&'static str, Tone))
        ensures
            self.steam.root is Some ==> card.0@ == "Steam Connected"@ && card.1 == Tone::Verdigris,
            self.steam.root is None ==> card.0@ == "Steam Offline"@ && card.1 == Tone::Danger,
    {
        if self.steam.root.is_some() {
            ("Steam Connected", Tone::Verdigris)
        } else {
            ("Steam Offline", Tone::Danger)
        }
    }

    /// How the downloads stand, in the middle of the status bar.
    pub fn download_status_label(&self) -> (label: (&'static str, Tone))
        ensures
            label.0@ == (if self.downloads.is_running() {
                "Downloads active"@
            } else if self.downloads.paused {
                "Downloads paused"@
            } else if self.settings.download_queue@.len() > 0 {
                "Downloads queued"@
            } else {
                "Downloads"@
            }),
            label.1 == (match self.download_badge() {
                Some((_, tone)) => tone,
                None => Tone::Muted,
            }),
    {
        if self.downloads.running() {
            ("Downloads active", Tone::Accent)
        } else if self.downloads.paused {
            ("Downloads paused", Tone::Danger)
        } else if self.settings.download_queue.len() > 0 {
            ("Downloads queued", Tone::Amber)
        } else {
            ("Downloads", Tone::Muted)
        }
    }

    /// The pill on the left of the status bar: the first notification, and how many there are more.
    pub fn status_bar(&self) -> (pill: Option<NotePill>)
        ensures
            pill is Some <==> self.notes().len() > 0,
            pill matches Some(pill) ==> {
                let count = self.notes().len();
                &&& pill.accent == self.notes()[0].0
                &&& pill.title@ == ellipsized(self.notes()[0].1, 45)
                &&& pill.more@ == if count > 1 {
                    "  +"@ + decimal_text((count - 1) as nat) + " more"@
                } else {
                    Seq::empty()
                }
                &&& pill.hint@ == if count > 1 {
                    "Click to view all "@ + decimal_text(count) + " notifications"@
                } else {
                    "Click to view notifications"@
                }
            },
    {
        let notes = self.collect_notifications();
        assert(note_models(notes@).len() == notes@.len());
        if notes.len() == 0 {
            return None;
        }
        let count: usize = notes.len();
        let first = &notes[0];
        assert(note_models(notes@)[0] == note_model(notes@[0]));
        let more = if count > 1 {
            let number = decimal((count - 1) as u64);
            cat3("  +", number.as_str(), " more")
        } else {
            String::new()
        };
        let hint = if count > 1 {
            let number = decimal(count as u64);
            cat3("Click to view all ", number.as_str(), " notifications")
        } else {
            "Click to view notifications".to_owned()
        };
        Some(
            NotePill {
                accent: first.accent,
                title: ellipsize(first.title.as_str(), 45),
                more,
                hint,
            },
        )
    }

    /// Goes to a page, and closes the notifications.
    pub fn open_from_notification(&mut self, page: Page)
        ensures
            old(self).keeps_all_but(set![Part::Page, Part::NotificationsOpen], *final(self)),
            final(self).page == page,
            !final(self).notifications_open,
    {
        self.page = page;
        self.notifications_open = false;
    }

    /// Opens the notifications, or closes them.
    pub fn toggle_notifications(&mut self)
        ensures
            old(self).keeps_all_but(set![Part::NotificationsOpen], *final(self)),
            final(self).notifications_open == !old(self).notifications_open,
    {
        self.notifications_open = !self.notifications_open;
    }

    /// The number of notifications, as their window shows it.
    pub fn notification_count(&self) -> (text: String)
        ensures
            text@ == decimal_text(self.notes().len()) + " active"@,
    {
        let notes = self.collect_notifications();
        assert(note_models(notes@).len() == notes@.len());
        let number = decimal(notes.len() as u64);
        cat2(number.as_str(), " active")
    }

    /// The window that lists the files to be removed, where a check has found some.
    pub fn crack_removal_window(&self) -> (window: Option<RemovalWindow>)
        ensures
            window is Some <==> self.activation.pending_crack is Some,
            window matches Some(window) ==> {
                let count = self.activation.pending_crack->0.files@.len();
                &&& window.headline@ == decimal_text(count)
                    + " file(s)/folder(s) will be deleted from the game folder:"@
                &&& window.listed == if count < 14 {
                    count
                } else {
                    14
                }
                &&& window.more is Some <==> count > 14
                &&& window.more matches Some(text) ==> text@ == "…and "@ + decimal_text(
                    (count - 14) as nat,
                ) + " more"@
            },
    {
        match &self.activation.pending_crack {
            None => None,
            Some(pending) => {
                let count: usize = pending.files.len();
                let number = decimal(count as u64);
                let headline = cat2(
                    number.as_str(),
                    " file(s)/folder(s) will be deleted from the game folder:",
                );
                let listed: usize = if count < 14 {
                    count
                } else {
                    14
                };
                let more = if count > 14 {
                    let rest = decimal((count - 14) as u64);
                    Some(cat3("…and ", rest.as_str(), " more"))
                } else {
                    None
                };
                Some(RemovalWindow { headline, listed, more })
            },
        }
    }

    /// Leaves the files that a check has found where they are: the activation ends.
    pub fn cancel_crack_removal(&mut self)
        ensures
            old(self).keeps_all_but(set![Part::Activation, Part::Line], *final(self)),
            final(self).activation == (ActivationState {
                pending_crack: None,
                ..old(self).activation
            }),
            final(self).line.says(
                "Activation cancelled — crack files were not removed."@,
                false,
                old(self).line.busy,
            ),
    {
        self.activation.pending_crack = None;
        self.report("Activation cancelled — crack files were not removed.".to_owned(), false);
    }

    /// The title of the window that tells of a success, where there is one to tell of.
    pub fn entitlement_success_window(&self) -> (title: Option<String>)
        ensures
            match self.activation.success_app {
                Some(name) => title matches Some(text) && text@ == name@
                    + " entitlement verified!"@,
                None => title is None,
            },
    {
        match &self.activation.success_app {
            Some(name) => Some(cat2(name.as_str(), " entitlement verified!")),
            None => None,
        }
    }

    /// Closes the window that tells of a success.
    pub fn close_success_window(&mut self)
        ensures
            old(self).keeps_all_but(set![Part::Activation], *final(self)),
            final(self).activation == (ActivationState {
                success_app: None,
                ..old(self).activation
            }),
    {
        self.activation.success_app = None;
    }

    /// What covers the window while the shell is busy.
    pub fn busy_overlay(&self) -> (label: Option<String>)
        ensures
            label == self.line.busy,
    {
        self.line.busy.clone()
    }

    /// Tells whether a page was entered since the last frame: what can change behind the shell's
    /// back is then to be looked at anew.
    pub fn enter_page(&mut self) -> (entered: bool)
        ensures
            entered == (old(self).page != old(self).last_page),
            old(self).keeps_all_but(set![Part::LastPage], *final(self)),
            final(self).last_page == old(self).page,
    {
        if self.page != self.last_page {
            self.last_page = self.page;
            return true;
        }
        false
    }
}

/// A missing Steam folder comes before everything else, and what is in order comes last.
pub proof fn problems_come_first(app: DrydockApp)
    ensures
        app.steam.root is None ==> app.notes().len() > 0 && app.notes()[0].1 == "Steam not found"@,
        app.service_is_current() ==> app.notes().len() > 0 && app.notes().last().1
            == "Steam Service ready"@,
{
    let notes = app.notes();
    if app.steam.root is None {
        assert(notes[0] == steam_notes(app.steam.root)[0]);
    }
    if app.service_is_current() {
        let tail = service_notes(app.steam.service_status, app.steam_jobs.service);
        assert(notes.last() == tail[0]);
    }
}

/// Entering a page is noticed once.
pub proof fn page_is_entered_once(before: DrydockApp, after: DrydockApp)
    requires
        before.keeps_all_but(set![Part::LastPage], after),
        after.last_page == before.page,
    ensures
        after.page == after.last_page,
{
}

/// How many games a search box lists at most.
pub const SEARCH_BOX_LIMIT: usize = 100;

/// The lowercased name of the selected game, where the catalog has it.
pub open spec fn selected_name(apps: Seq<CatalogApp>, selected: Option<u32>) -> Option<Seq<char>>
    decreases apps.len(),
{
    match selected {
        None => None,
        Some(app_id) => if apps.len() == 0 {
            None
        } else if apps[0].app_id == app_id {
            Some(lowercase(apps[0].name@))
        } else {
            selected_name(apps.drop_first(), selected)
        },
    }
}

/// Whether a search box shows no list: nothing is typed, or the name of the selected game is.
pub open spec fn is_collapsed(
    apps: Seq<CatalogApp>,
    query: Seq<char>,
    selected: Option<u32>,
    allow_empty: bool,
) -> bool {
    shows_no_list(query, selected_name(apps, selected), allow_empty)
}

/// Whether a search box shows no list for a query, given the name of the selected game. Both are in
/// lowercase.
pub open spec fn shows_no_list(
    query: Seq<char>,
    selected_name: Option<Seq<char>>,
    allow_empty: bool,
) -> bool {
    !allow_empty && (query.len() == 0 || selected_name == Some(query))
}

/// Whether a search box shows no list, given the query and the name of the selected game in
/// lowercase.
pub fn collapses(query: &str, selected_name: Option<String>, allow_empty: bool) -> (collapsed: bool)
    ensures
        collapsed == shows_no_list(
            query@,
            match selected_name {
                Some(name) => Some(name@),
                None => None,
            },
            allow_empty,
        ),
{
    if allow_empty {
        return false;
    }
    let is_name = match &selected_name {
        Some(name) => same_text(name.as_str(), query),
        None => false,
    };
    no_text(query) || is_name
}

/// The places of the games that a search box lists.
pub open spec fn search_matches(
    apps: Seq<CatalogApp>,
    query: Seq<char>,
    allowed: Option<Set<u32>>,
) -> Seq<usize> {
    first_kept(
        apps.len(),
        |at: int| is_match(apps[at], query, allowed),
        SEARCH_BOX_LIMIT as nat,
    )
}

/// Whether a search box lists a game.
pub open spec fn is_match(app: CatalogApp, query: Seq<char>, allowed: Option<Set<u32>>) -> bool {
    &&& allowed matches Some(ids) ==> ids.contains(app.app_id)
    &&& query.len() == 0 || found_by(lowercase(app.name@), app.app_id, query)
}

fn name_of_selected(apps: &Vec<CatalogApp>, selected: Option<u32>) -> (name: Option<String>)
    ensures
        match selected_name(apps@, selected) {
            Some(text) => name matches Some(name) && name@ == text,
            None => name is None,
        },
{
    let app_id: u32 = match selected {
        Some(app_id) => app_id,
        None => {
            return None;
        },
    };
    let mut i: usize = 0;
    assert(apps@.skip(0) =~= apps@);
    while i < apps.len()
        invariant
            i <= apps@.len(),
            selected == Some(app_id),
            selected_name(apps@, selected) == selected_name(apps@.skip(i as int), selected),
        decreases apps@.len() - i,
    {
        if apps[i].app_id == app_id {
            let lower = apps[i].name.as_str().to_lowercase();
            return Some(lower);
        }
        assert(apps@.skip(i as int).drop_first() =~= apps@.skip(i + 1));
        i += 1;
    }
    None
}

/// The places of the games that a search box lists, `None` where its list is collapsed. `allowed`
/// restricts the games, and `allow_empty` keeps the list open without a query.
pub fn game_search_box(
    search: &str,
    selected: Option<u32>,
    apps: &Vec<CatalogApp>,
    allow_empty: bool,
    allowed: Option<&HashSet<u32>>,
) -> (places: Option<Vec<usize>>)
    ensures
        ({
            let query = lowercase(trimmed(search@));
            let ids = match allowed {
                Some(set) => Some(set@),
                None => None,
            };
            &&& places is None <==> is_collapsed(apps@, query, selected, allow_empty)
            &&& places matches Some(places) ==> places@ == search_matches(apps@, query, ids)
        }),
{
    let ghost ids = match allowed {
        Some(set) => Some(set@),
        None => None,
    };
    let trimmed_search = trim(search);
    let query = trimmed_search.as_str().to_lowercase();
    let everything = no_text(query.as_str());
    if collapses(query.as_str(), name_of_selected(apps, selected), allow_empty) {
        return None;
    }
    let ghost keep = |at: int| is_match(apps@[at], query@, ids);
    let mut places: Vec<usize> = Vec::new();
    let mut i: usize = 0;
    while i < apps.len()
        invariant
            i <= apps@.len(),
            ids == (match allowed {
                Some(set) => Some(set@),
                None => None,
            }),
            keep == (|at: int| is_match(apps@[at], query@, ids)),
            everything == (query@.len() == 0),
            query@ == lowercase(trimmed(search@)),
            !is_collapsed(apps@, query@, selected, allow_empty),
            places@ == first_kept(i as nat, keep, SEARCH_BOX_LIMIT as nat),
        decreases apps@.len() - i,
    {
        if places.len() >= SEARCH_BOX_LIMIT {
            proof {
                full_list_stays(i as nat, apps@.len(), keep, SEARCH_BOX_LIMIT as nat);
            }
            return Some(places);
        }
        let passes = match allowed {
            Some(set) => set.contains(&apps[i].app_id),
            None => true,
        };
        let kept = passes && (everything || {
            let lower = apps[i].name.as_str().to_lowercase();
            matches_query(lower.as_str(), apps[i].app_id, query.as_str())
        });
        assert(kept == keep(i as int));
        if kept {
            places.push(i);
        }
        i += 1;
    }
    Some(places)
}

/// How the load of a picture stands.
#[derive(Clone, Copy, Debug, PartialEq, Eq, Structural)]
pub enum PictureLoad {
    Ready,
    Pending,
    Failed,
}

/// What to do about a picture of a list of alternatives.
#[derive(Clone, Copy, Debug, PartialEq, Eq, Structural)]
pub enum PictureStep {
    Paint,
    /// Leave the neutral tile until the picture is there.
    Wait,
    TryNext,
    /// None of them can be had.
    GiveUp,
}

/// What to do about a picture of a list of alternatives: the next one is tried only once this one
/// has definitely failed.
pub fn picture_step(load: PictureLoad, is_last: bool) -> (step: PictureStep)
    ensures
        step == (match load {
            PictureLoad::Ready => PictureStep::Paint,
            PictureLoad::Pending => PictureStep::Wait,
            PictureLoad::Failed => if is_last {
                PictureStep::GiveUp
            } else {
                PictureStep::TryNext
            },
        }),
{
    match load {
        PictureLoad::Ready => PictureStep::Paint,
        PictureLoad::Pending => PictureStep::Wait,
        PictureLoad::Failed => if is_last {
            PictureStep::GiveUp
        } else {
            PictureStep::TryNext
        },
    }
}

} // verus!
