//! Cloud saves: where they go, and the runtime hook that sends them there.
use crate::state::{CloudForm, CloudProvider, CloudState, DrydockApp, Part, SideJobs};
use crate::text::{cat2, cat3, trim, trimmed};
use crate::types::{Reply, Tone};
use vstd::prelude::*;

verus! {

/// The credentials of an object store.
pub struct S3Credentials {
    pub account_id: String,
    pub endpoint: String,
    pub region: String,
    pub access_key_id: String,
    pub secret_access_key: String,
    pub bucket: String,
    pub key_prefix: String,
}

/// What is written for the hook to read.
pub enum CloudSettings {
    LocalOnly { path: String },
    Folder { path: String },
    R2(S3Credentials),
    S3(S3Credentials),
}

impl Default for CloudForm {
    fn default() -> (form: Self)
        ensures
            form.is_blank(),
    {
        CloudForm {
            provider: CloudProvider::Folder,
            folder_path: String::new(),
            local_path: String::new(),
            account_id: String::new(),
            endpoint: String::new(),
            region: String::new(),
            access_key_id: String::new(),
            secret_access_key: String::new(),
            bucket: String::new(),
            key_prefix: String::new(),
        }
    }
}

/// Whether a provider is set up by signing in with the browser.
pub open spec fn signs_in(provider: CloudProvider) -> bool {
    provider == CloudProvider::GoogleDrive || provider == CloudProvider::OneDrive
}

impl CloudForm {
    /// Whether nothing was typed into the form, which then stands at a folder.
    pub open spec fn is_blank(&self) -> bool {
        &&& self.provider == CloudProvider::Folder
        &&& self.folder_path@.len() == 0
        &&& self.local_path@.len() == 0
        &&& self.account_id@.len() == 0
        &&& self.endpoint@.len() == 0
        &&& self.region@.len() == 0
        &&& self.access_key_id@.len() == 0
        &&& self.secret_access_key@.len() == 0
        &&& self.bucket@.len() == 0
        &&& self.key_prefix@.len() == 0
    }

    /// Whether these are the credentials typed into the form: trimmed, all but the secret.
    pub open spec fn gives(&self, credentials: S3Credentials) -> bool {
        &&& credentials.account_id@ == trimmed(self.account_id@)
        &&& credentials.endpoint@ == trimmed(self.endpoint@)
        &&& credentials.region@ == trimmed(self.region@)
        &&& credentials.access_key_id@ == trimmed(self.access_key_id@)
        &&& credentials.secret_access_key@ == self.secret_access_key@
        &&& credentials.bucket@ == trimmed(self.bucket@)
        &&& credentials.key_prefix@ == trimmed(self.key_prefix@)
    }

    fn credentials(&self) -> (credentials: S3Credentials)
        ensures
            self.gives(credentials),
    {
        S3Credentials {
            account_id: trim(self.account_id.as_str()),
            endpoint: trim(self.endpoint.as_str()),
            region: trim(self.region.as_str()),
            access_key_id: trim(self.access_key_id.as_str()),
            secret_access_key: self.secret_access_key.clone(),
            bucket: trim(self.bucket.as_str()),
            key_prefix: trim(self.key_prefix.as_str()),
        }
    }

    /// What the form says, `None` for a provider that is set up by signing in.
    pub fn to_settings(&self) -> (settings: Option<CloudSettings>)
        ensures
            settings is None <==> signs_in(self.provider),
            match self.provider {
                CloudProvider::LocalOnly => settings matches Some(CloudSettings::LocalOnly { path })
                    && path@ == trimmed(self.local_path@),
                CloudProvider::Folder => settings matches Some(CloudSettings::Folder { path })
                    && path@ == trimmed(self.folder_path@),
                CloudProvider::R2 => settings matches Some(CloudSettings::R2(credentials))
                    && self.gives(credentials),
                CloudProvider::S3 => settings matches Some(CloudSettings::S3(credentials))
                    && self.gives(credentials),
                CloudProvider::GoogleDrive => true,
                CloudProvider::OneDrive => true,
            },
    {
        match self.provider {
            CloudProvider::LocalOnly => Some(
                CloudSettings::LocalOnly { path: trim(self.local_path.as_str()) },
            ),
            CloudProvider::Folder => Some(
                CloudSettings::Folder { path: trim(self.folder_path.as_str()) },
            ),
            CloudProvider::R2 => Some(CloudSettings::R2(self.credentials())),
            CloudProvider::S3 => Some(CloudSettings::S3(self.credentials())),
            CloudProvider::GoogleDrive => None,
            CloudProvider::OneDrive => None,
        }
    }
}

/// What a button of the hook's card does.
#[derive(Clone, Copy, Debug, PartialEq, Eq, Structural)]
pub enum HookButton {
    Install,
    Update,
    Uninstall,
}

/// The card of the runtime hook, where there is a Steam folder.
pub struct HookCard {
    pub title: &'static str,
    pub detail: String,
    pub tone: Tone,
    pub buttons: Vec<HookButton>,
    /// Whether the buttons can be pressed: not while the hook is being fetched.
    pub enabled: bool,
}

/// What the form of the selected provider asks for.
#[derive(Clone, Copy, Debug, PartialEq, Eq, Structural)]
pub enum ProviderForm {
    Folder,
    LocalFolder,
    /// An account, and the keys of a bucket.
    Account,
    /// An endpoint and a region, and the keys of a bucket.
    Endpoint,
    /// A sign-in with the browser, and whether one is under way.
    SignIn(bool),
}

/// What the cloud page shows, apart from its fields.
pub struct CloudView {
    /// The provider that is configured now.
    pub active: Option<CloudProvider>,
    pub hook_pill: (&'static str, Tone),
    pub hook: Option<HookCard>,
    pub form: ProviderForm,
    /// Whether the form can be saved.
    pub can_save: bool,
}

/// The providers in the order of their chips, and their names there.
pub fn provider_chips() -> (chips: [(CloudProvider, &'static str); 6])
    ensures
        chips@[0].0 == CloudProvider::Folder && chips@[0].1@ == "Folder / Drive"@,
        chips@[1].0 == CloudProvider::LocalOnly && chips@[1].1@ == "Local Staging"@,
        chips@[2].0 == CloudProvider::GoogleDrive && chips@[2].1@ == "Google Drive"@,
        chips@[3].0 == CloudProvider::OneDrive && chips@[3].1@ == "OneDrive"@,
        chips@[4].0 == CloudProvider::R2 && chips@[4].1@ == "Cloudflare R2"@,
        chips@[5].0 == CloudProvider::S3 && chips@[5].1@ == "Amazon S3"@,
{
    [
        (CloudProvider::Folder, "Folder / Drive"),
        (CloudProvider::LocalOnly, "Local Staging"),
        (CloudProvider::GoogleDrive, "Google Drive"),
        (CloudProvider::OneDrive, "OneDrive"),
        (CloudProvider::R2, "Cloudflare R2"),
        (CloudProvider::S3, "Amazon S3"),
    ]
}

/// Where a downloaded hook goes, and which version it is.
pub struct HookOrder {
    pub root: String,
    pub version: String,
}

/// What follows a poll of the hook's download.
pub struct HookStep {
    /// The hook to deploy.
    pub deploy: Option<HookOrder>,
    /// Whether the state of the hook is to be read anew, after the deployment if there is one.
    pub refresh: bool,
}

impl CloudState {
    /// Whether the runtime hook is known to be installed.
    pub open spec fn hook_is_active(&self) -> bool {
        self.dll_installed == Some(true)
    }
}

impl DrydockApp {
    /// Takes what was found of the hook in the Steam folder and of its configuration. Without a
    /// Steam folder nothing is known of the hook.
    pub fn refresh_cloud_state(&mut self, hook_installed: bool, provider: Option<CloudProvider>)
        ensures
            old(self).keeps_all_but(set![Part::Cloud], *final(self)),
            final(self).cloud == (CloudState {
                dll_installed: if old(self).steam.root is Some {
                    Some(hook_installed)
                } else {
                    None
                },
                provider,
                ..old(self).cloud
            }),
    {
        self.cloud.dll_installed = if self.steam.root.is_some() {
            Some(hook_installed)
        } else {
            None
        };
        self.cloud.provider = provider;
    }

    /// Starts the download of the hook, and tells whether it is to be fetched: not while it is being
    /// fetched already.
    pub fn start_cloud_download(&mut self) -> (fetch: bool)
        ensures
            fetch == !old(self).side_jobs.cloud_download,
            old(self).keeps_all_but(set![Part::SideJobs, Part::Line], *final(self)),
            final(self).side_jobs == (SideJobs { cloud_download: true, ..old(self).side_jobs }),
            fetch ==> final(self).line.says(
                "Downloading CloudRedirect…"@,
                false,
                old(self).line.busy,
            ),
            !fetch ==> final(self).line == old(self).line,
    {
        if self.side_jobs.cloud_download {
            return false;
        }
        self.side_jobs.cloud_download = true;
        self.report("Downloading CloudRedirect…".to_owned(), false);
        true
    }

    /// Whether a poll of the hook's download has an answer to act on.
    pub open spec fn hears_cloud_download(&self, reply: Reply<Result<String, String>>) -> bool {
        self.side_jobs.cloud_download && !(reply is Waiting)
    }

    /// Takes the version of the hook that was downloaded. The step tells where it is to be
    /// deployed; `hook_deployed` takes the outcome. Every answer has the state of the hook read
    /// anew.
    pub fn poll_cloud_download(&mut self, reply: Reply<Result<String, String>>) -> (step: HookStep)
        ensures
            ({
                let before = *old(self);
                let after = *final(self);
                let heard = before.hears_cloud_download(reply);
                &&& step.refresh == (heard && reply is Done)
                &&& before.keeps_all_but(set![Part::SideJobs, Part::Line], after)
                &&& after.side_jobs == if heard {
                    SideJobs { cloud_download: false, ..before.side_jobs }
                } else {
                    before.side_jobs
                }
                &&& match reply {
                    Reply::Done(Ok(version)) if heard && before.steam.root is Some => {
                        &&& step.deploy == Some(HookOrder { root: before.steam.root->0, version })
                        &&& after.line == before.line
                    },
                    Reply::Done(Ok(_)) if heard => {
                        &&& step.deploy is None
                        &&& after.line.says(
                            "Downloaded, but no Steam folder is set — configure it in Settings"@,
                            true,
                            before.line.busy,
                        )
                    },
                    Reply::Done(Err(error)) if heard => {
                        &&& step.deploy is None
                        &&& after.line.says(
                            "CloudRedirect download failed: "@ + error@,
                            true,
                            before.line.busy,
                        )
                    },
                    _ => step.deploy is None && after.line == before.line,
                }
            }),
    {
        let nothing = HookStep { deploy: None, refresh: false };
        if !self.side_jobs.cloud_download {
            return nothing;
        }
        match reply {
            Reply::Waiting => nothing,
            Reply::Lost => {
                self.side_jobs.cloud_download = false;
                nothing
            },
            Reply::Done(Ok(version)) => {
                self.side_jobs.cloud_download = false;
                let deploy = match self.steam.root.clone() {
                    Some(root) => Some(HookOrder { root, version }),
                    None => {
                        self.report(
                            "Downloaded, but no Steam folder is set — configure it in Settings".to_owned(),
                            true,
                        );
                        None
                    },
                };
                HookStep { deploy, refresh: true }
            },
            Reply::Done(Err(error)) => {
                self.side_jobs.cloud_download = false;
                let text = cat2("CloudRedirect download failed: ", error.as_str());
                self.report(text, true);
                HookStep { deploy: None, refresh: true }
            },
        }
    }

    /// Takes the outcome of deploying the hook.
    pub fn hook_deployed(&mut self, version: &str, deployed: Result<(), String>)
        ensures
            old(self).keeps_all_but(set![Part::Line], *final(self)),
            match deployed {
                Ok(_) => final(self).line.says(
                    "CloudRedirect "@ + version@ + " installed next to steam.exe"@,
                    false,
                    old(self).line.busy,
                ),
                Err(error) => final(self).line.says(
                    "CloudRedirect could not be installed: "@ + error@,
                    true,
                    old(self).line.busy,
                ),
            },
    {
        match deployed {
            Ok(_) => {
                let text = cat3("CloudRedirect ", version, " installed next to steam.exe");
                self.report(text, false);
            },
            Err(error) => {
                let text = cat2("CloudRedirect could not be installed: ", error.as_str());
                self.report(text, true);
            },
        }
    }

    /// Takes the outcome of removing the hook.
    pub fn hook_removed(&mut self, removed: Result<(), String>)
        ensures
            old(self).keeps_all_but(set![Part::Line], *final(self)),
            match removed {
                Ok(_) => final(self).line.says(
                    "CloudRedirect DLL removed"@,
                    false,
                    old(self).line.busy,
                ),
                Err(error) => final(self).line.says(
                    "Could not remove DLL: "@ + error@,
                    true,
                    old(self).line.busy,
                ),
            },
    {
        match removed {
            Ok(_) => {
                self.report("CloudRedirect DLL removed".to_owned(), false);
            },
            Err(error) => {
                let text = cat2("Could not remove DLL: ", error.as_str());
                self.report(text, true);
            },
        }
    }

    /// Starts a sign-in with the browser, and tells whether it is to be opened: not while one is
    /// under way. `provider` is the provider's name.
    pub fn start_cloud_oauth(&mut self, provider: &str) -> (open: bool)
        ensures
            open == !old(self).side_jobs.cloud_oauth,
            old(self).keeps_all_but(set![Part::SideJobs, Part::Line], *final(self)),
            final(self).side_jobs == (SideJobs { cloud_oauth: true, ..old(self).side_jobs }),
            open ==> final(self).line.says(
                "Opening "@ + provider@ + " sign-in in your browser…"@,
                false,
                old(self).line.busy,
            ),
            !open ==> final(self).line == old(self).line,
    {
        if self.side_jobs.cloud_oauth {
            return false;
        }
        self.side_jobs.cloud_oauth = true;
        let text = cat3("Opening ", provider, " sign-in in your browser…");
        self.report(text, false);
        true
    }

    /// Takes the outcome of a sign-in, which counts as done only once its configuration was saved,
    /// and tells whether the state of the cloud is to be read anew.
    pub fn poll_cloud_oauth(&mut self, reply: Reply<Result<(), String>>) -> (refresh: bool)
        ensures
            ({
                let before = *old(self);
                let after = *final(self);
                let heard = before.side_jobs.cloud_oauth && !(reply is Waiting);
                &&& refresh == (heard && reply is Done)
                &&& before.keeps_all_but(set![Part::SideJobs, Part::Line], after)
                &&& after.side_jobs == if heard {
                    SideJobs { cloud_oauth: false, ..before.side_jobs }
                } else {
                    before.side_jobs
                }
                &&& match reply {
                    Reply::Done(Ok(_)) if heard => after.line.says(
                        "Cloud sign-in complete and saved. Restart Steam to apply."@,
                        false,
                        before.line.busy,
                    ),
                    Reply::Done(Err(error)) if heard => after.line.says(
                        "Cloud sign-in failed: "@ + error@,
                        true,
                        before.line.busy,
                    ),
                    _ => after.line == before.line,
                }
            }),
    {
        if !self.side_jobs.cloud_oauth {
            return false;
        }
        match reply {
            Reply::Waiting => false,
            Reply::Lost => {
                self.side_jobs.cloud_oauth = false;
                false
            },
            Reply::Done(Ok(_)) => {
                self.side_jobs.cloud_oauth = false;
                self.report(
                    "Cloud sign-in complete and saved. Restart Steam to apply.".to_owned(),
                    false,
                );
                true
            },
            Reply::Done(Err(error)) => {
                self.side_jobs.cloud_oauth = false;
                let text = cat2("Cloud sign-in failed: ", error.as_str());
                self.report(text, true);
                true
            },
        }
    }

    /// Takes the outcome of saving the form. `provider` is the provider's name.
    pub fn cloud_saved(&mut self, provider: &str, saved: Result<(), String>)
        ensures
            old(self).keeps_all_but(set![Part::Line], *final(self)),
            match saved {
                Ok(_) => final(self).line.says(
                    "Cloud configuration saved for "@ + provider@ + ". Restart Steam to apply."@,
                    false,
                    old(self).line.busy,
                ),
                Err(error) => final(self).line.says(
                    "Could not save cloud configuration: "@ + error@,
                    true,
                    old(self).line.busy,
                ),
            },
    {
        match saved {
            Ok(_) => {
                let text = cat3(
                    "Cloud configuration saved for ",
                    provider,
                    ". Restart Steam to apply.",
                );
                self.report(text, false);
            },
            Err(error) => {
                let text = cat2("Could not save cloud configuration: ", error.as_str());
                self.report(text, true);
            },
        }
    }

    /// Whether `card` is the card of the runtime hook.
    pub open spec fn is_hook_card(&self, card: Option<HookCard>) -> bool {
        &&& card is Some <==> self.steam.root is Some
        &&& card matches Some(card) ==> {
            let root = self.steam.root->0@;
            &&& card.enabled == !self.side_jobs.cloud_download
            &&& if self.cloud.hook_is_active() {
                &&& card.title@ == "Runtime Hook Installed & Ready"@
                &&& card.detail@ == "cloud_redirect.dll active in "@ + root
                &&& card.tone == Tone::Verdigris
                &&& card.buttons@ == seq![HookButton::Uninstall, HookButton::Update]
            } else {
                &&& card.title@ == "Runtime Hook Not Installed"@
                &&& card.detail@ == "Hook missing from steam.exe directory ("@ + root + ")"@
                &&& card.tone == Tone::Muted
                &&& card.buttons@ == seq![HookButton::Install]
            }
        }
    }

    fn hook_card(&self) -> (card: Option<HookCard>)
        ensures
            self.is_hook_card(card),
    {
        let installed = match self.cloud.dll_installed {
            Some(installed) => installed,
            None => false,
        };
        match &self.steam.root {
            None => None,
            Some(root) => {
                let enabled = !self.side_jobs.cloud_download;
                if installed {
                    let buttons = vec![HookButton::Uninstall, HookButton::Update];
                    assert(buttons@ =~= seq![HookButton::Uninstall, HookButton::Update]);
                    Some(
                        HookCard {
                            title: "Runtime Hook Installed & Ready",
                            detail: cat2("cloud_redirect.dll active in ", root.as_str()),
                            tone: Tone::Verdigris,
                            buttons,
                            enabled,
                        },
                    )
                } else {
                    let buttons = vec![HookButton::Install];
                    assert(buttons@ =~= seq![HookButton::Install]);
                    Some(
                        HookCard {
                            title: "Runtime Hook Not Installed",
                            detail: cat3(
                                "Hook missing from steam.exe directory (",
                                root.as_str(),
                                ")",
                            ),
                            tone: Tone::Muted,
                            buttons,
                            enabled,
                        },
                    )
                }
            },
        }
    }

    /// What the cloud page shows, apart from its fields.
    pub fn cloud_page(&self) -> (view: CloudView)
        ensures
            view.active == self.cloud.provider,
            (view.hook_pill.0@, view.hook_pill.1) == (if self.cloud.hook_is_active() {
                ("● Hook Active"@, Tone::Verdigris)
            } else {
                ("○ Hook Inactive"@, Tone::Muted)
            }),
            self.is_hook_card(view.hook),
            view.form == (match self.cloud.form.provider {
                CloudProvider::Folder => ProviderForm::Folder,
                CloudProvider::LocalOnly => ProviderForm::LocalFolder,
                CloudProvider::R2 => ProviderForm::Account,
                CloudProvider::S3 => ProviderForm::Endpoint,
                CloudProvider::GoogleDrive => ProviderForm::SignIn(self.side_jobs.cloud_oauth),
                CloudProvider::OneDrive => ProviderForm::SignIn(self.side_jobs.cloud_oauth),
            }),
            view.can_save == !signs_in(self.cloud.form.provider),
    {
        let installed = match self.cloud.dll_installed {
            Some(installed) => installed,
            None => false,
        };
        let form = match self.cloud.form.provider {
            CloudProvider::Folder => ProviderForm::Folder,
            CloudProvider::LocalOnly => ProviderForm::LocalFolder,
            CloudProvider::R2 => ProviderForm::Account,
            CloudProvider::S3 => ProviderForm::Endpoint,
            CloudProvider::GoogleDrive => ProviderForm::SignIn(self.side_jobs.cloud_oauth),
            CloudProvider::OneDrive => ProviderForm::SignIn(self.side_jobs.cloud_oauth),
        };
        CloudView {
            active: self.cloud.provider,
            hook_pill: if installed {
                ("● Hook Active", Tone::Verdigris)
            } else {
                ("○ Hook Inactive", Tone::Muted)
            },
            hook: self.hook_card(),
            form,
            can_save: match self.cloud.form.provider {
                CloudProvider::GoogleDrive => false,
                CloudProvider::OneDrive => false,
                _ => true,
            },
        }
    }
}

} // verus!
