//! Depot downloads and verifies: one job at a time, and a queue whose front is the current
//! download.
use crate::helpers::ellipsized;
use crate::state::{
    DownloadJob, DownloadKind, DownloadProgress, DownloadState, DrydockApp, Part, QueuedDownload,
    Settings, StatusLine,
};
use crate::text::{cat2, cat3};
use vstd::prelude::*;

verus! {

/// How many connections a download uses where the settings leave it open.
pub const DEFAULT_DOWNLOAD_CONNECTIONS: u32 = 16;

/// The most connections that a download uses.
pub const MAXIMUM_DOWNLOAD_CONNECTIONS: u32 = 32;

/// What a depot job may use.
#[derive(Clone, Copy, Debug, PartialEq, Eq, Structural)]
pub struct JobLimits {
    pub connections: u32,
    /// Bytes per second, `None` for no limit.
    pub max_bps: Option<u64>,
    pub verify_threads: u32,
}

/// A depot job to start.
pub struct JobOrder {
    pub app_id: u32,
    pub name: String,
    pub kind: DownloadKind,
    /// The folder to verify, where it is not the game's usual one.
    pub root: Option<String>,
    pub limits: JobLimits,
}

/// What a running depot job has to say.
pub enum DownloadUpdate {
    Progress(DownloadProgress),
    /// The game was installed in this folder.
    Installed(String),
    /// Whether a verify found every file intact.
    Verified(bool),
    Finished(Result<String, String>),
}

/// What a change of the queue asks for.
#[derive(Clone, Copy, Debug, PartialEq, Eq, Structural)]
pub enum QueueEffect {
    /// Nothing changed.
    Unchanged,
    /// Save the queue.
    PersistOnly,
    /// Save the queue and start its front.
    StartFront,
    /// Save the queue and stop the running job in favour of the new front.
    SwitchToFront,
}

/// How a depot job that has just ended goes on.
pub enum DownloadEnd {
    /// No job has ended.
    Nothing,
    /// A download is complete: it leaves the queue, is registered as installed where its folder is
    /// known, and the settings are saved; then `start_front_download` goes on with the queue.
    Completed { app_id: u32, name: String, root: Option<String> },
    /// A download was stopped for a reordered queue: `start_front_download` goes on with it.
    Switched,
    /// A download was paused or failed. It stays at the front.
    Stopped,
    /// A verify is over; an activation may be waiting for it.
    Verified { app_id: u32, verified: Option<bool>, result: Result<String, String> },
}

impl Settings {
    /// The limits that a depot job runs under.
    pub open spec fn limits(&self) -> JobLimits {
        JobLimits {
            connections: if self.max_download_connections == 0 {
                DEFAULT_DOWNLOAD_CONNECTIONS
            } else if self.max_download_connections > MAXIMUM_DOWNLOAD_CONNECTIONS {
                MAXIMUM_DOWNLOAD_CONNECTIONS
            } else {
                self.max_download_connections
            },
            max_bps: if self.max_download_mbps == 0 {
                None
            } else {
                Some((self.max_download_mbps * 1024 * 1024) as u64)
            },
            verify_threads: self.verify_threads,
        }
    }

    /// The limits that a depot job runs under.
    pub fn job_limits(&self) -> (limits: JobLimits)
        ensures
            limits == self.limits(),
    {
        let connections: u32 = if self.max_download_connections == 0 {
            DEFAULT_DOWNLOAD_CONNECTIONS
        } else if self.max_download_connections > MAXIMUM_DOWNLOAD_CONNECTIONS {
            MAXIMUM_DOWNLOAD_CONNECTIONS
        } else {
            self.max_download_connections
        };
        let max_bps: Option<u64> = if self.max_download_mbps == 0 {
            None
        } else {
            Some(self.max_download_mbps as u64 * 1024 * 1024)
        };
        JobLimits { connections, max_bps, verify_threads: self.verify_threads }
    }
}

/// A job never uses more connections than allowed, nor none.
pub proof fn connections_stay_bounded(settings: Settings)
    ensures
        1 <= settings.limits().connections <= MAXIMUM_DOWNLOAD_CONNECTIONS,
        settings.limits().max_bps matches Some(bps) ==> bps == settings.max_download_mbps * 1048576,
{
}

/// A result, copied.
pub fn copy_result(result: &Result<String, String>) -> (copy: Result<String, String>)
    ensures
        copy == *result,
{
    match result {
        Ok(text) => Ok(text.clone()),
        Err(text) => Err(text.clone()),
    }
}

/// A progress report, copied.
pub fn copy_progress(progress: &DownloadProgress) -> (copy: DownloadProgress)
    ensures
        copy == *progress,
{
    DownloadProgress {
        app_id: progress.app_id,
        done_bytes: progress.done_bytes,
        total_bytes: progress.total_bytes,
        current_file: progress.current_file.clone(),
    }
}

impl DownloadJob {
    /// A job that has just started.
    pub open spec fn fresh(app_id: u32, name: String, kind: DownloadKind) -> DownloadJob {
        DownloadJob {
            app_id,
            name,
            kind,
            cancel: false,
            progress: None,
            install_root: None,
            verified: None,
            finished: None,
        }
    }

    /// This job after one update.
    pub open spec fn updated(self, update: DownloadUpdate) -> DownloadJob {
        match update {
            DownloadUpdate::Progress(progress) => DownloadJob { progress: Some(progress), ..self },
            DownloadUpdate::Installed(root) => DownloadJob { install_root: Some(root), ..self },
            DownloadUpdate::Verified(complete) => DownloadJob { verified: Some(complete), ..self },
            DownloadUpdate::Finished(result) => DownloadJob { finished: Some(result), ..self },
        }
    }

    /// This job after a run of updates. What follows the end of the job is ignored.
    pub open spec fn updated_by(self, updates: Seq<DownloadUpdate>) -> DownloadJob
        decreases updates.len(),
    {
        if updates.len() == 0 {
            self
        } else {
            let before = self.updated_by(updates.drop_last());
            if before.finished is Some {
                before
            } else {
                before.updated(updates.last())
            }
        }
    }

    /// Takes one update.
    pub fn take_update(&mut self, update: DownloadUpdate)
        ensures
            *final(self) == old(self).updated(update),
    {
        match update {
            DownloadUpdate::Progress(progress) => {
                self.progress = Some(progress);
            },
            DownloadUpdate::Installed(root) => {
                self.install_root = Some(root);
            },
            DownloadUpdate::Verified(complete) => {
                self.verified = Some(complete);
            },
            DownloadUpdate::Finished(result) => {
                self.finished = Some(result);
            },
        }
    }

    /// Takes a run of updates.
    pub fn take_updates(&mut self, updates: Vec<DownloadUpdate>)
        ensures
            *final(self) == old(self).updated_by(updates@),
    {
        let ghost start = *self;
        let ghost all = updates@;
        assert(all.take(0) =~= Seq::<DownloadUpdate>::empty());
        for update in it: updates.into_iter()
            invariant
                it.seq() == all,
                *self == start.updated_by(all.take(it.index())),
        {
            proof {
                let more = all.take(it.index() + 1);
                assert(more.drop_last() =~= all.take(it.index()));
                assert(more.last() == all[it.index()]);
            }
            if self.finished.is_none() {
                self.take_update(update);
            }
        }
        assert(all.take(all.len() as int) =~= all);
    }
}

/// Updates never change which game a job is for, nor what it does.
pub proof fn updates_keep_the_job(job: DownloadJob, updates: Seq<DownloadUpdate>)
    ensures
        job.updated_by(updates).app_id == job.app_id,
        job.updated_by(updates).name == job.name,
        job.updated_by(updates).kind == job.kind,
        job.updated_by(updates).cancel == job.cancel,
    decreases updates.len(),
{
    if updates.len() > 0 {
        updates_keep_the_job(job, updates.drop_last());
    }
}

/// Nothing that arrives after the end of a job changes it.
pub proof fn finished_job_stays(
    job: DownloadJob,
    updates: Seq<DownloadUpdate>,
    more: Seq<DownloadUpdate>,
)
    requires
        job.updated_by(updates).finished is Some,
    ensures
        job.updated_by(updates + more) == job.updated_by(updates),
    decreases more.len(),
{
    if more.len() == 0 {
        assert(updates + more =~= updates);
    } else {
        finished_job_stays(job, updates, more.drop_last());
        assert((updates + more).drop_last() =~= updates + more.drop_last());
    }
}

/// What a lost job ends with.
pub open spec fn lost_text() -> Seq<char> {
    "The download ended unexpectedly."@
}

impl DownloadState {
    /// Whether a depot job is at work.
    pub open spec fn is_running(&self) -> bool {
        self.job matches Some(job) && job.finished is None
    }

    /// Whether a depot job is at work.
    pub fn running(&self) -> (running: bool)
        ensures
            running == self.is_running(),
    {
        match &self.job {
            Some(job) => job.finished.is_none(),
            None => false,
        }
    }

    /// Whether `after` is the running job once it has said `updates`, and has gone away without a
    /// last word where `lost`.
    pub open spec fn hears(
        &self,
        updates: Seq<DownloadUpdate>,
        lost: bool,
        after: DownloadState,
    ) -> bool {
        let heard = self.job->0.updated_by(updates);
        &&& after == (DownloadState {
            job: after.job,
            last: if heard.progress is Some {
                heard.progress
            } else {
                self.last
            },
            ..*self
        })
        &&& after.job matches Some(job) && if heard.finished is None && lost {
            &&& job == (DownloadJob { finished: job.finished, ..heard })
            &&& job.finished matches Some(Err(error)) && error@ == lost_text()
        } else {
            job == heard
        }
    }

    fn hear(&mut self, updates: Vec<DownloadUpdate>, lost: bool)
        requires
            old(self).is_running(),
        ensures
            old(self).hears(updates@, lost, *final(self)),
    {
        if let Some(mut job) = self.job.take() {
            job.take_updates(updates);
            if lost && job.finished.is_none() {
                job.finished = Some(Err("The download ended unexpectedly.".to_owned()));
            }
            if let Some(progress) = &job.progress {
                self.last = Some(copy_progress(progress));
            }
            self.job = Some(job);
        }
    }

    /// These downloads once the running download has ended with `result`.
    pub open spec fn ended(&self, result: Result<String, String>) -> DownloadState {
        match result {
            Ok(_) => DownloadState {
                job: None,
                paused: false,
                error: None,
                switch_pending: false,
                ..*self
            },
            Err(message) => if self.switch_pending {
                DownloadState {
                    job: None,
                    paused: false,
                    error: None,
                    switch_pending: false,
                    ..*self
                }
            } else {
                DownloadState {
                    job: None,
                    paused: true,
                    error: if self.paused {
                        None
                    } else {
                        Some(message)
                    },
                    ..*self
                }
            },
        }
    }

    /// These downloads with a job of their own.
    pub open spec fn with_job(&self, app_id: u32, name: String, kind: DownloadKind) -> DownloadState {
        DownloadState { job: Some(DownloadJob::fresh(app_id, name, kind)), ..*self }
    }

    /// These downloads with the running job asked to stop.
    pub open spec fn stopping(&self) -> DownloadState {
        DownloadState {
            job: match self.job {
                Some(job) => Some(DownloadJob { cancel: true, ..job }),
                None => None,
            },
            ..*self
        }
    }

    fn stop(&mut self)
        ensures
            *final(self) == old(self).stopping(),
    {
        if let Some(mut job) = self.job.take() {
            job.cancel = true;
            self.job = Some(job);
        }
    }
}

/// A download stopped only to start another one is neither paused nor in error.
pub proof fn switch_is_no_pause(downloads: DownloadState, result: Result<String, String>)
    requires
        downloads.switch_pending,
    ensures
        !downloads.ended(result).paused,
        downloads.ended(result).error is None,
        !downloads.ended(result).switch_pending,
{
}

/// A deliberate pause records no error, while a failure is remembered; either way the download
/// counts as paused, so that it can be resumed.
pub proof fn pause_is_no_error(downloads: DownloadState, message: String)
    requires
        !downloads.switch_pending,
    ensures
        downloads.ended(Err(message)).paused,
        downloads.paused ==> downloads.ended(Err(message)).error is None,
        !downloads.paused ==> downloads.ended(Err(message)).error == Some(message),
{
}

/// The end of a download leaves no job behind, and the position it reached stays known.
pub proof fn ended_download_keeps_its_position(
    downloads: DownloadState,
    result: Result<String, String>,
)
    ensures
        !downloads.ended(result).is_running(),
        downloads.ended(result).last == downloads.last,
{
}

impl StatusLine {
    /// Whether `after` is this line once the settings were written with this outcome.
    pub open spec fn after_write(&self, written: Result<(), String>, after: StatusLine) -> bool {
        match written {
            Ok(_) => after == *self,
            Err(error) => after.says(
                ellipsized("Your change could not be saved: "@ + error@, 160),
                true,
                self.busy,
            ),
        }
    }
}

impl DrydockApp {
    /// Whether a depot job is at work.
    pub fn download_running(&self) -> (running: bool)
        ensures
            running == self.downloads.is_running(),
    {
        self.downloads.running()
    }

    /// The order to start a job.
    pub open spec fn order_for(
        &self,
        app_id: u32,
        name: String,
        kind: DownloadKind,
        root: Option<String>,
    ) -> JobOrder {
        JobOrder { app_id, name, kind, root, limits: self.settings.limits() }
    }

    /// Makes a new depot job the active one. The callers see to it that no other one is at work.
    pub fn spawn_job(
        &mut self,
        app_id: u32,
        name: String,
        kind: DownloadKind,
        root: Option<String>,
    ) -> (order: JobOrder)
        ensures
            order == old(self).order_for(app_id, name, kind, root),
            old(self).keeps_all_but(set![Part::Downloads], *final(self)),
            final(self).downloads == old(self).downloads.with_job(app_id, name, kind),
    {
        let limits = self.settings.job_limits();
        let copy = name.clone();
        self.downloads.job = Some(
            DownloadJob {
                app_id,
                name: copy,
                kind,
                cancel: false,
                progress: None,
                install_root: None,
                verified: None,
                finished: None,
            },
        );
        JobOrder { app_id, name, kind, root, limits }
    }

    /// Whether the front of the queue can be started.
    pub open spec fn front_can_start(&self) -> bool {
        !self.downloads.is_running() && self.settings.download_queue@.len() > 0
    }

    /// The front of the queue.
    pub open spec fn front(&self) -> QueuedDownload {
        self.settings.download_queue@[0]
    }

    /// These downloads with the front of the queue started.
    pub open spec fn front_job(&self) -> DownloadState {
        DownloadState {
            paused: false,
            error: None,
            ..self.downloads.with_job(
                self.front().app_id,
                self.front().name,
                DownloadKind::Download,
            )
        }
    }

    /// Whether starting the front of the queue gives `order`.
    pub open spec fn front_order(&self, order: Option<JobOrder>) -> bool {
        order == if self.front_can_start() {
            Some(
                self.order_for(
                    self.front().app_id,
                    self.front().name,
                    DownloadKind::Download,
                    None,
                ),
            )
        } else {
            None
        }
    }

    /// What the status bar says of a download that starts.
    pub open spec fn front_text(&self) -> Seq<char> {
        "Downloading "@ + self.front().name@ + "…"@
    }

    /// Starts or resumes the download at the front of the queue. What is already on disk is not
    /// fetched again, so an interrupted download goes on where it left off.
    pub fn start_front_download(&mut self) -> (order: Option<JobOrder>)
        ensures
            old(self).keeps_all_but(set![Part::Downloads, Part::Line], *final(self)),
            old(self).front_order(order),
            order is None ==> {
                &&& final(self).downloads == old(self).downloads
                &&& final(self).line == old(self).line
            },
            order is Some ==> {
                &&& final(self).downloads == old(self).front_job()
                &&& final(self).line.says(old(self).front_text(), false, old(self).line.busy)
            },
    {
        if self.downloads.running() || self.settings.download_queue.len() == 0 {
            return None;
        }
        let app_id: u32 = self.settings.download_queue[0].app_id;
        let name = self.settings.download_queue[0].name.clone();
        let text = cat3("Downloading ", name.as_str(), "…");
        self.downloads.paused = false;
        self.downloads.error = None;
        let order = self.spawn_job(app_id, name, DownloadKind::Download, None);
        self.report(text, false);
        Some(order)
    }

    /// Runs a verify, which is not queued, where no job is at work.
    pub fn start_verify(&mut self, app_id: u32, name: String) -> (order: Option<JobOrder>)
        ensures
            old(self).keeps_all_but(set![Part::Downloads, Part::Line], *final(self)),
            old(self).downloads.is_running() ==> {
                &&& order is None
                &&& final(self).downloads == old(self).downloads
                &&& final(self).line.says(
                    "A download is already in progress."@,
                    true,
                    old(self).line.busy,
                )
            },
            !old(self).downloads.is_running() ==> {
                &&& order == Some(old(self).order_for(app_id, name, DownloadKind::Verify, None))
                &&& final(self).downloads == old(self).downloads.with_job(
                    app_id,
                    name,
                    DownloadKind::Verify,
                )
                &&& final(self).line.says("Verifying files…"@, false, old(self).line.busy)
            },
    {
        if self.downloads.running() {
            self.report("A download is already in progress.".to_owned(), true);
            return None;
        }
        let order = self.spawn_job(app_id, name, DownloadKind::Verify, None);
        self.report("Verifying files…".to_owned(), false);
        Some(order)
    }

    /// Whether the running job is a download, which can be paused.
    pub open spec fn can_pause(&self) -> bool {
        self.downloads.is_running() && self.downloads.job->0.kind == DownloadKind::Download
    }

    /// Pauses the running download: the job is asked to stop, and its entry stays at the front of
    /// the queue.
    pub fn pause_download(&mut self)
        ensures
            old(self).keeps_all_but(set![Part::Downloads, Part::Line], *final(self)),
            !old(self).can_pause() ==> {
                &&& final(self).downloads == old(self).downloads
                &&& final(self).line == old(self).line
            },
            old(self).can_pause() ==> {
                &&& final(self).downloads == (DownloadState {
                    paused: true,
                    ..old(self).downloads.stopping()
                })
                &&& final(self).line.says("Pausing the download…"@, false, old(self).line.busy)
            },
    {
        let can = match &self.downloads.job {
            Some(job) => job.finished.is_none() && job.kind == DownloadKind::Download,
            None => false,
        };
        if can {
            self.downloads.stop();
            self.downloads.paused = true;
            self.report("Pausing the download…".to_owned(), false);
        }
    }

    /// Whether taking an effect of a queue change leads from this shell to `after`, with `order` to
    /// be started.
    pub open spec fn effect_taken(
        self,
        effect: QueueEffect,
        switching: Seq<char>,
        written: Result<(), String>,
        after: DrydockApp,
        order: Option<JobOrder>,
    ) -> bool {
        &&& self.keeps_all_but(set![Part::Downloads, Part::Line], after)
        &&& match effect {
            QueueEffect::Unchanged => {
                &&& order is None
                &&& after.downloads == self.downloads
                &&& after.line == self.line
            },
            QueueEffect::PersistOnly => {
                &&& order is None
                &&& after.downloads == self.downloads
                &&& self.line.after_write(written, after.line)
            },
            _ => if effect == QueueEffect::SwitchToFront && self.downloads.is_running() {
                &&& order is None
                &&& after.downloads == (DownloadState {
                    switch_pending: true,
                    ..self.downloads.stopping()
                })
                &&& after.line.says(switching, false, self.line.busy)
            } else {
                self.restarted(written, after, order)
            },
        }
    }

    /// Whether `after` is this shell with its settings written and the front of the queue started,
    /// where it can be. A pause or an error of before is forgotten either way.
    pub open spec fn restarted(
        self,
        written: Result<(), String>,
        after: DrydockApp,
        order: Option<JobOrder>,
    ) -> bool {
        &&& self.front_order(order)
        &&& order is Some ==> {
            &&& after.downloads == self.front_job()
            &&& after.line.says(self.front_text(), false, self.line.busy)
        }
        &&& order is None ==> {
            &&& after.downloads == (DownloadState { paused: false, error: None, ..self.downloads })
            &&& self.line.after_write(written, after.line)
        }
    }

    fn restart(&mut self, written: Result<(), String>) -> (order: Option<JobOrder>)
        ensures
            old(self).keeps_all_but(set![Part::Downloads, Part::Line], *final(self)),
            old(self).restarted(written, *final(self), order),
    {
        let _ = self.persist_settings(written);
        self.downloads.paused = false;
        self.downloads.error = None;
        self.start_front_download()
    }

    /// Stops the running job so that the new front of the queue can start, or starts the front
    /// right away where no job is at work.
    pub fn switch_or_start(&mut self, switching: &str, written: Result<(), String>) -> (order:
        Option<JobOrder>)
        ensures
            old(self).effect_taken(
                QueueEffect::SwitchToFront,
                switching@,
                written,
                *final(self),
                order,
            ),
    {
        if self.downloads.running() {
            self.downloads.stop();
            self.downloads.switch_pending = true;
            self.report(switching.to_owned(), false);
            None
        } else {
            self.restart(written)
        }
    }

    /// Takes the effect of a queue change. The queue itself has been replaced by then, and
    /// `written` is the outcome of saving it.
    pub fn apply_queue_effect(
        &mut self,
        effect: QueueEffect,
        switching: &str,
        written: Result<(), String>,
    ) -> (order: Option<JobOrder>)
        ensures
            old(self).effect_taken(effect, switching@, written, *final(self), order),
    {
        match effect {
            QueueEffect::Unchanged => None,
            QueueEffect::PersistOnly => {
                let _ = self.persist_settings(written);
                None
            },
            QueueEffect::StartFront => self.restart(written),
            QueueEffect::SwitchToFront => self.switch_or_start(switching, written),
        }
    }

    /// Whether a download that is added now has to wait.
    pub fn download_busy(&self) -> (busy: bool)
        ensures
            busy == (self.downloads.is_running() || self.downloads.paused),
    {
        self.downloads.running() || self.downloads.paused
    }

    /// Takes the effect of adding a game to the queue.
    pub fn enqueue_download(&mut self, name: &str, effect: QueueEffect, written: Result<(), String>)
        -> (order: Option<JobOrder>)
        ensures
            effect == QueueEffect::Unchanged ==> {
                &&& order is None
                &&& old(self).keeps_all_but(set![Part::Line], *final(self))
                &&& final(self).line.says(
                    name@ + " is already in the download queue."@,
                    false,
                    old(self).line.busy,
                )
            },
            effect == QueueEffect::PersistOnly ==> {
                &&& order is None
                &&& old(self).keeps_all_but(set![Part::Line], *final(self))
                &&& final(self).line.says(
                    "Queued "@ + name@ + " for download."@,
                    false,
                    old(self).line.busy,
                )
            },
            effect == QueueEffect::StartFront || effect == QueueEffect::SwitchToFront ==> old(self).effect_taken(effect, "Switching download…"@, written, *final(self), order),
    {
        match effect {
            QueueEffect::Unchanged => {
                let text = cat2(name, " is already in the download queue.");
                self.report(text, false);
                None
            },
            QueueEffect::PersistOnly => {
                let text = cat3("Queued ", name, " for download.");
                self.report(text, false);
                None
            },
            _ => self.apply_queue_effect(effect, "Switching download…", written),
        }
    }

    /// Takes the effect of removing the current download from the queue.
    pub fn remove_current_download(&mut self, effect: QueueEffect, written: Result<(), String>) -> (
    order: Option<JobOrder>)
        ensures
            old(self).effect_taken(effect, "Switching download…"@, written, *final(self), order),
    {
        self.apply_queue_effect(effect, "Switching download…", written)
    }

    /// Takes the effect of removing a download that is not the current one.
    pub fn remove_queued_download(&mut self, effect: QueueEffect, written: Result<(), String>) -> (
    order: Option<JobOrder>)
        ensures
            old(self).effect_taken(effect, "Switching download…"@, written, *final(self), order),
    {
        self.apply_queue_effect(effect, "Switching download…", written)
    }

    /// Takes the effect of making a queued download the current one.
    pub fn activate_download(&mut self, effect: QueueEffect, written: Result<(), String>) -> (order:
        Option<JobOrder>)
        ensures
            old(self).effect_taken(effect, "Switching download…"@, written, *final(self), order),
    {
        self.apply_queue_effect(effect, "Switching download…", written)
    }

    /// Takes the effect of sending the current download to the back of the queue. Where there is no
    /// back to move to, pausing is the useful action.
    pub fn demote_current_download(&mut self, effect: QueueEffect, written: Result<(), String>) -> (
    order: Option<JobOrder>)
        ensures
            effect != QueueEffect::Unchanged ==> old(self).effect_taken(
                effect,
                "Moving to the back of the queue…"@,
                written,
                *final(self),
                order,
            ),
            effect == QueueEffect::Unchanged ==> {
                &&& order is None
                &&& old(self).keeps_all_but(set![Part::Downloads, Part::Line], *final(self))
                &&& !old(self).can_pause() ==> {
                    &&& final(self).downloads == old(self).downloads
                    &&& final(self).line == old(self).line
                }
                &&& old(self).can_pause() ==> {
                    &&& final(self).downloads == (DownloadState {
                        paused: true,
                        ..old(self).downloads.stopping()
                    })
                    &&& final(self).line.says("Pausing the download…"@, false, old(self).line.busy)
                }
            },
    {
        match effect {
            QueueEffect::Unchanged => {
                self.pause_download();
                None
            },
            _ => self.apply_queue_effect(effect, "Moving to the back of the queue…", written),
        }
    }

    /// Asks the running verify to stop.
    pub fn cancel_verify(&mut self)
        ensures
            old(self).keeps_all_but(set![Part::Downloads, Part::Line], *final(self)),
            final(self).downloads == old(self).downloads.stopping(),
            final(self).line.says("Cancelling the verify…"@, false, old(self).line.busy),
    {
        self.downloads.stop();
        self.report("Cancelling the verify…".to_owned(), false);
    }

    /// Puts a finished verify away.
    pub fn dismiss_verify(&mut self)
        ensures
            old(self).keeps_all_but(set![Part::Downloads], *final(self)),
            final(self).downloads == (DownloadState { job: None, ..old(self).downloads }),
    {
        self.downloads.job = None;
    }

    /// Whether `end` is how a job that heard its last word goes on, from `heard` to `after`.
    pub open spec fn job_ended(
        heard: DownloadState,
        after: DownloadState,
        end: DownloadEnd,
    ) -> bool {
        let job = heard.job->0;
        let result = job.finished->0;
        if job.kind == DownloadKind::Verify {
            &&& after == heard
            &&& end == (DownloadEnd::Verified {
                app_id: job.app_id,
                verified: job.verified,
                result,
            })
        } else {
            &&& after == heard.ended(result)
            &&& end == if result is Ok {
                DownloadEnd::Completed { app_id: job.app_id, name: job.name, root: job.install_root }
            } else if heard.switch_pending {
                DownloadEnd::Switched
            } else {
                DownloadEnd::Stopped
            }
        }
    }

    /// Takes what the depot job has said since it was last asked, `lost` telling that it has gone
    /// away.
    pub fn poll_download(&mut self, updates: Vec<DownloadUpdate>, lost: bool) -> (end: DownloadEnd)
        ensures
            old(self).keeps_all_but(set![Part::Downloads, Part::Line], *final(self)),
            !old(self).downloads.is_running() ==> {
                &&& end is Nothing
                &&& final(self).downloads == old(self).downloads
                &&& final(self).line == old(self).line
            },
            old(self).downloads.is_running() ==> exists|heard: DownloadState| #[trigger]
                old(self).downloads.hears(updates@, lost, heard) && if heard.is_running() {
                    &&& end is Nothing
                    &&& final(self).downloads == heard
                    &&& final(self).line == old(self).line
                } else {
                    &&& Self::job_ended(heard, final(self).downloads, end)
                    &&& final(self).line.says(
                        (match heard.job->0.finished->0 {
                            Ok(message) => message@,
                            Err(message) => message@,
                        }),
                        heard.job->0.finished->0 is Err,
                        old(self).line.busy,
                    )
                },
    {
        if !self.downloads.running() {
            return DownloadEnd::Nothing;
        }
        self.downloads.hear(updates, lost);
        if self.downloads.running() {
            return DownloadEnd::Nothing;
        }
        self.end_job()
    }

    fn end_job(&mut self) -> (end: DownloadEnd)
        requires
            old(self).downloads.job is Some,
            old(self).downloads.job->0.finished is Some,
        ensures
            old(self).keeps_all_but(set![Part::Downloads, Part::Line], *final(self)),
            Self::job_ended(old(self).downloads, final(self).downloads, end),
            final(self).line.says(
                (match old(self).downloads.job->0.finished->0 {
                    Ok(message) => message@,
                    Err(message) => message@,
                }),
                old(self).downloads.job->0.finished->0 is Err,
                old(self).line.busy,
            ),
    {
        let (message, failed) = match &self.downloads.job {
            Some(job) => match &job.finished {
                Some(Ok(message)) => (message.clone(), false),
                Some(Err(message)) => (message.clone(), true),
                None => (String::new(), false),
            },
            None => (String::new(), false),
        };
        self.report(message, failed);
        self.downloads.end()
    }
}

impl DownloadState {
    fn end(&mut self) -> (end: DownloadEnd)
        requires
            old(self).job is Some,
            old(self).job->0.finished is Some,
        ensures
            DrydockApp::job_ended(*old(self), *final(self), end),
    {
        if let Some(job) = self.job.take() {
            if let Some(result) = &job.finished {
                let result = copy_result(result);
                if job.kind == DownloadKind::Verify {
                    let app_id: u32 = job.app_id;
                    let verified = job.verified;
                    self.job = Some(job);
                    return DownloadEnd::Verified { app_id, verified, result };
                }
                let switching = self.switch_pending;
                self.switch_pending = false;
                match result {
                    Ok(_) => {
                        self.paused = false;
                        self.error = None;
                        return DownloadEnd::Completed {
                            app_id: job.app_id,
                            name: job.name,
                            root: job.install_root,
                        };
                    },
                    Err(message) => {
                        if switching {
                            self.paused = false;
                            self.error = None;
                            return DownloadEnd::Switched;
                        }
                        self.error = if self.paused {
                            None
                        } else {
                            Some(message)
                        };
                        self.paused = true;
                        return DownloadEnd::Stopped;
                    },
                }
            }
        }
        DownloadEnd::Nothing
    }
}

} // verus!
