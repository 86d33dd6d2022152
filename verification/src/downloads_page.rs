//! What the downloads page shows.
use crate::downloads::{copy_progress, copy_result};
use crate::helpers::{
    artwork, artwork_url, ellipsize, ellipsized, human_bytes, size_text, tail, tail_text,
};
use crate::state::{DownloadJob, DownloadKind, DownloadProgress, DrydockApp, QueuedDownload};
use crate::text::{cat2, cat3, cat4, decimal, decimal_text, digit, digit_of, no_text};
use crate::types::Tone;
use vstd::prelude::*;

verus! {

/// A number below a hundred, in two digits.
pub open spec fn two_digits(n: nat) -> Seq<char> {
    seq![digit(n / 10), digit(n % 10)]
}

fn padded(n: u64) -> (text: String)
    requires
        n < 100,
    ensures
        text@ == two_digits(n as nat),
{
    let mut text = String::new();
    text.push(digit_of((n / 10) as u8));
    text.push(digit_of((n % 10) as u8));
    assert(text@ =~= two_digits(n as nat));
    text
}

/// A duration, in its two largest units.
pub open spec fn eta_text(seconds: nat) -> Seq<char> {
    if seconds < 60 {
        decimal_text(seconds) + "s"@
    } else if seconds < 3600 {
        decimal_text(seconds / 60) + "m "@ + two_digits(seconds % 60) + "s"@
    } else {
        decimal_text(seconds / 3600) + "h "@ + two_digits((seconds % 3600) / 60) + "m"@
    }
}

/// A duration, in its two largest units.
pub fn format_eta(seconds: u64) -> (text: String)
    ensures
        text@ == eta_text(seconds as nat),
{
    if seconds < 60 {
        let number = decimal(seconds);
        cat2(number.as_str(), "s")
    } else if seconds < 3600 {
        let minutes = decimal(seconds / 60);
        let rest = padded(seconds % 60);
        cat4(minutes.as_str(), "m ", rest.as_str(), "s")
    } else {
        let hours = decimal(seconds / 3600);
        let rest = padded((seconds % 3600) / 60);
        cat4(hours.as_str(), "h ", rest.as_str(), "m")
    }
}

/// The buttons of the banner, from the right.
#[derive(Clone, Copy, Debug, PartialEq, Eq, Structural)]
pub enum BannerButton {
    Dismiss,
    Cancel,
    Pause,
    ToQueue,
    Remove,
    Resume,
}

/// What the line above the progress bar says on the right.
pub enum FileLine {
    Nothing,
    /// The end of the path of the file at hand.
    File(String),
    /// The job has not reported yet.
    Initializing,
}

/// The banner of the downloads page: a verify that runs or has finished, else the current
/// download, whether it runs, is paused or was stopped by an error.
pub struct DownloadBanner {
    pub is_verify: bool,
    pub app_id: u32,
    pub name: String,
    pub running: bool,
    /// How the verify ended.
    pub result: Option<Result<String, String>>,
    /// Why the download stopped.
    pub error: Option<String>,
    pub progress: Option<DownloadProgress>,
}

impl DownloadBanner {
    /// The state of the job in two words.
    pub fn status(&self) -> (status: (&'static str, Tone))
        ensures
            status.0@ == (if self.is_verify {
                if self.result is Some {
                    "VERIFY COMPLETE"@
                } else {
                    "VERIFYING FILES"@
                }
            } else if self.running {
                "DOWNLOADING"@
            } else if self.error is Some {
                "DOWNLOAD ERROR"@
            } else {
                "PAUSED"@
            }),
            status.1 == (if self.is_verify {
                if self.result is Some {
                    Tone::Verdigris
                } else {
                    Tone::Accent
                }
            } else if self.running {
                Tone::Verdigris
            } else if self.error is Some {
                Tone::Danger
            } else {
                Tone::Amber
            }),
    {
        if self.is_verify {
            if self.result.is_some() {
                ("VERIFY COMPLETE", Tone::Verdigris)
            } else {
                ("VERIFYING FILES", Tone::Accent)
            }
        } else if self.running {
            ("DOWNLOADING", Tone::Verdigris)
        } else if self.error.is_some() {
            ("DOWNLOAD ERROR", Tone::Danger)
        } else {
            ("PAUSED", Tone::Amber)
        }
    }

    /// The game's name, cut to fit.
    pub fn title(&self) -> (title: String)
        ensures
            title@ == ellipsized(self.name@, 26),
    {
        ellipsize(self.name.as_str(), 26)
    }

    /// How many bytes are done.
    pub open spec fn done_bytes(&self) -> u64 {
        match self.progress {
            Some(progress) => progress.done_bytes,
            None => 0,
        }
    }

    /// How many bytes there are.
    pub open spec fn total_bytes(&self) -> u64 {
        match self.progress {
            Some(progress) => progress.total_bytes,
            None => 0,
        }
    }

    /// How many bytes are done, and how many there are.
    pub fn bytes(&self) -> (bytes: (u64, u64))
        ensures
            bytes == (self.done_bytes(), self.total_bytes()),
    {
        match &self.progress {
            Some(progress) => (progress.done_bytes, progress.total_bytes),
            None => (0, 0),
        }
    }

    /// How much was transferred.
    pub fn transferred(&self) -> (text: String)
        ensures
            text@ == (if self.total_bytes() > 0 {
                size_text(self.done_bytes() as nat) + " / "@ + size_text(self.total_bytes() as nat)
            } else {
                "—"@
            }),
    {
        let (done, total) = self.bytes();
        if total > 0 {
            let a = human_bytes(done);
            let b = human_bytes(total);
            cat3(a.as_str(), " / ", b.as_str())
        } else {
            "—".to_owned()
        }
    }

    /// How long the job will take. `seconds` is what the rest takes at the present speed, where
    /// that is high enough to tell.
    pub fn time_left(&self, seconds: Option<u64>) -> (text: String)
        ensures
            text@ == (if self.running && self.total_bytes() > self.done_bytes() && seconds is Some {
                "~"@ + eta_text(seconds->0 as nat)
            } else if self.running {
                "Calculating…"@
            } else if self.is_verify {
                "—"@
            } else {
                "Paused"@
            }),
    {
        let (done, total) = self.bytes();
        if self.running && total > done {
            if let Some(seconds) = seconds {
                let eta = format_eta(seconds);
                return cat2("~", eta.as_str());
            }
        }
        if self.running {
            "Calculating…".to_owned()
        } else if self.is_verify {
            "—".to_owned()
        } else {
            "Paused".to_owned()
        }
    }

    /// What the line above the progress bar says on the right.
    pub fn file_line(&self) -> (line: FileLine)
        ensures
            match self.progress {
                Some(progress) => if progress.current_file@.len() > 0 {
                    line matches FileLine::File(text) && text@ == tail_text(
                        progress.current_file@,
                        42,
                    )
                } else {
                    line is Nothing
                },
                None => if self.running {
                    line is Initializing
                } else {
                    line is Nothing
                },
            },
    {
        match &self.progress {
            Some(progress) => if no_text(progress.current_file.as_str()) {
                FileLine::Nothing
            } else {
                FileLine::File(tail(progress.current_file.as_str(), 42))
            },
            None => if self.running {
                FileLine::Initializing
            } else {
                FileLine::Nothing
            },
        }
    }

    /// The buttons, from the right. A download can be sent back only where another one waits.
    pub fn buttons(&self, queue_len: usize) -> (buttons: Vec<BannerButton>)
        ensures
            buttons@ == (if self.is_verify {
                if self.result is Some {
                    seq![BannerButton::Dismiss]
                } else {
                    seq![BannerButton::Cancel]
                }
            } else if self.running {
                if queue_len > 1 {
                    seq![BannerButton::Pause, BannerButton::ToQueue]
                } else {
                    seq![BannerButton::Pause]
                }
            } else {
                seq![BannerButton::Remove, BannerButton::Resume]
            }),
    {
        let mut buttons: Vec<BannerButton> = Vec::new();
        if self.is_verify {
            if self.result.is_some() {
                buttons.push(BannerButton::Dismiss);
            } else {
                buttons.push(BannerButton::Cancel);
            }
        } else if self.running {
            buttons.push(BannerButton::Pause);
            if queue_len > 1 {
                buttons.push(BannerButton::ToQueue);
            }
        } else {
            buttons.push(BannerButton::Remove);
            buttons.push(BannerButton::Resume);
        }
        assert(buttons@ =~= (if self.is_verify {
            if self.result is Some {
                seq![BannerButton::Dismiss]
            } else {
                seq![BannerButton::Cancel]
            }
        } else if self.running {
            if queue_len > 1 {
                seq![BannerButton::Pause, BannerButton::ToQueue]
            } else {
                seq![BannerButton::Pause]
            }
        } else {
            seq![BannerButton::Remove, BannerButton::Resume]
        }));
        buttons
    }

    /// The message beside the buttons: how a verify ended, or why a download stopped.
    pub fn message(&self) -> (message: Option<(String, Tone)>)
        ensures
            message == (if self.is_verify {
                match self.result {
                    Some(Ok(text)) => Some((text, Tone::Verdigris)),
                    Some(Err(text)) => Some((text, Tone::Danger)),
                    None => None,
                }
            } else if self.running {
                None
            } else {
                match self.error {
                    Some(text) => Some((text, Tone::Danger)),
                    None => None,
                }
            }),
    {
        if self.is_verify {
            match &self.result {
                Some(Ok(text)) => Some((text.clone(), Tone::Verdigris)),
                Some(Err(text)) => Some((text.clone(), Tone::Danger)),
                None => None,
            }
        } else if self.running {
            None
        } else {
            match &self.error {
                Some(text) => Some((text.clone(), Tone::Danger)),
                None => None,
            }
        }
    }

    /// The pictures to try for the banner, in order.
    pub fn artwork(&self) -> (urls: [String; 3])
        ensures
            urls@[0]@ == artwork_url(self.app_id, "header.jpg"@),
            urls@[1]@ == artwork_url(self.app_id, "capsule_616x353.jpg"@),
            urls@[2]@ == artwork_url(self.app_id, "library_hero.jpg"@),
    {
        [
            artwork(self.app_id, "header.jpg"),
            artwork(self.app_id, "capsule_616x353.jpg"),
            artwork(self.app_id, "library_hero.jpg"),
        ]
    }
}

/// A download that waits for its turn.
pub struct UpcomingRow {
    pub badge: String,
    pub app_id: u32,
    pub name: String,
    pub label: String,
}

/// Whether `row` shows the download at `place` of the queue.
pub open spec fn shows_upcoming(row: UpcomingRow, item: QueuedDownload, place: nat) -> bool {
    &&& row.badge@ == "#"@ + decimal_text(place)
    &&& row.app_id == item.app_id
    &&& row.name == item.name
    &&& row.label@ == "APP "@ + decimal_text(item.app_id as nat)
}

/// The pictures to try for a waiting download, in order.
pub fn upcoming_artwork(app_id: u32) -> (urls: [String; 2])
    ensures
        urls@[0]@ == artwork_url(app_id, "header.jpg"@),
        urls@[1]@ == artwork_url(app_id, "capsule_231x87.jpg"@),
{
    [artwork(app_id, "header.jpg"), artwork(app_id, "capsule_231x87.jpg")]
}

impl DrydockApp {
    /// The verify that the banner shows.
    pub open spec fn shown_verify(&self) -> Option<DownloadJob> {
        match self.downloads.job {
            Some(job) if job.kind == DownloadKind::Verify => Some(job),
            _ => None,
        }
    }

    /// The job at work on `app_id`.
    pub open spec fn active_job(&self, app_id: u32) -> Option<DownloadJob> {
        match self.downloads.job {
            Some(job) if job.finished is None && job.app_id == app_id => Some(job),
            _ => None,
        }
    }

    /// How far the job on `app_id` has come: as the job at work reports, else as last remembered.
    pub open spec fn shown_progress(&self, app_id: u32) -> Option<DownloadProgress> {
        match self.active_job(app_id) {
            Some(DownloadJob { progress: Some(progress), .. }) => Some(progress),
            _ => match self.downloads.last {
                Some(progress) if progress.app_id == app_id => Some(progress),
                _ => None,
            },
        }
    }

    /// The banner to show.
    pub open spec fn banner(&self) -> Option<DownloadBanner> {
        match self.shown_verify() {
            Some(job) => Some(
                DownloadBanner {
                    is_verify: true,
                    app_id: job.app_id,
                    name: job.name,
                    running: self.active_job(job.app_id) is Some,
                    result: job.finished,
                    error: None,
                    progress: self.shown_progress(job.app_id),
                },
            ),
            None => if self.settings.download_queue@.len() > 0 {
                let front = self.settings.download_queue@[0];
                let running = self.active_job(front.app_id) is Some;
                Some(
                    DownloadBanner {
                        is_verify: false,
                        app_id: front.app_id,
                        name: front.name,
                        running,
                        result: None,
                        error: if running {
                            None
                        } else {
                            self.downloads.error
                        },
                        progress: self.shown_progress(front.app_id),
                    },
                )
            } else {
                None
            },
        }
    }

    fn progress_of(&self, app_id: u32) -> (progress: Option<DownloadProgress>)
        ensures
            progress == self.shown_progress(app_id),
    {
        if let Some(job) = &self.downloads.job {
            if job.finished.is_none() && job.app_id == app_id {
                if let Some(progress) = &job.progress {
                    return Some(copy_progress(progress));
                }
            }
        }
        if let Some(progress) = &self.downloads.last {
            if progress.app_id == app_id {
                return Some(copy_progress(progress));
            }
        }
        None
    }

    fn works_on(&self, app_id: u32) -> (works: bool)
        ensures
            works == (self.active_job(app_id) is Some),
    {
        match &self.downloads.job {
            Some(job) => job.finished.is_none() && job.app_id == app_id,
            None => false,
        }
    }

    /// The banner of the downloads page, `None` where there is nothing to show.
    pub fn downloads_page(&self) -> (banner: Option<DownloadBanner>)
        ensures
            banner == self.banner(),
    {
        if let Some(job) = &self.downloads.job {
            if job.kind == DownloadKind::Verify {
                let result = match &job.finished {
                    Some(result) => Some(copy_result(result)),
                    None => None,
                };
                return Some(
                    DownloadBanner {
                        is_verify: true,
                        app_id: job.app_id,
                        name: job.name.clone(),
                        running: self.works_on(job.app_id),
                        result,
                        error: None,
                        progress: self.progress_of(job.app_id),
                    },
                );
            }
        }
        if self.settings.download_queue.len() == 0 {
            return None;
        }
        let front = &self.settings.download_queue[0];
        let running = self.works_on(front.app_id);
        let error = if running {
            None
        } else {
            self.downloads.error.clone()
        };
        Some(
            DownloadBanner {
                is_verify: false,
                app_id: front.app_id,
                name: front.name.clone(),
                running,
                result: None,
                error,
                progress: self.progress_of(front.app_id),
            },
        )
    }

    /// The pill that counts the queue, where it is not empty.
    pub fn queue_pill(&self) -> (pill: Option<String>)
        ensures
            pill is Some <==> self.settings.download_queue@.len() > 0,
            pill matches Some(text) ==> text@ == decimal_text(self.settings.download_queue@.len())
                + " IN QUEUE"@,
    {
        let count: usize = self.settings.download_queue.len();
        if count == 0 {
            return None;
        }
        let number = decimal(count as u64);
        Some(cat2(number.as_str(), " IN QUEUE"))
    }

    /// The downloads behind the current one, in the order they will start.
    pub fn upcoming_downloads(&self) -> (rows: Vec<UpcomingRow>)
        ensures
            rows@.len() == (if self.settings.download_queue@.len() == 0 {
                0
            } else {
                self.settings.download_queue@.len() - 1
            }),
            forall|i: int|
                0 <= i < rows@.len() ==> shows_upcoming(
                    #[trigger] rows@[i],
                    self.settings.download_queue@[i + 1],
                    (i + 1) as nat,
                ),
    {
        let mut rows: Vec<UpcomingRow> = Vec::new();
        let queue = &self.settings.download_queue;
        let total: usize = queue.len();
        let mut i: usize = 1;
        while i < total
            invariant
                1 <= i,
                total == queue@.len(),
                queue == self.settings.download_queue,
                total > 0 ==> i <= total && rows@.len() == i - 1,
                total == 0 ==> rows@.len() == 0,
                forall|k: int|
                    0 <= k < rows@.len() ==> shows_upcoming(
                        #[trigger] rows@[k],
                        queue@[k + 1],
                        (k + 1) as nat,
                    ),
            decreases total - i,
        {
            let place = decimal(i as u64);
            let id = decimal(queue[i].app_id as u64);
            let row = UpcomingRow {
                badge: cat2("#", place.as_str()),
                app_id: queue[i].app_id,
                name: queue[i].name.clone(),
                label: cat2("APP ", id.as_str()),
            };
            assert(shows_upcoming(row, queue@[i as int], i as nat));
            rows.push(row);
            i += 1;
        }
        rows
    }

    /// The heading of the waiting downloads.
    pub fn up_next_label(&self) -> (label: String)
        ensures
            label@ == "UP NEXT ("@ + decimal_text(
                if self.settings.download_queue@.len() == 0 {
                    0
                } else {
                    (self.settings.download_queue@.len() - 1) as nat
                },
            ) + ")"@,
    {
        let count: usize = self.settings.download_queue.len();
        let waiting: usize = if count == 0 {
            0
        } else {
            count - 1
        };
        let number = decimal(waiting as u64);
        cat3("UP NEXT (", number.as_str(), ")")
    }
}

/// The progress shown belongs to the game shown: a remembered position of another game is never
/// used, and neither is a job at work on another game.
pub proof fn progress_belongs_to_the_game(app: DrydockApp, app_id: u32)
    requires
        app.downloads.job matches Some(job) ==> (job.progress matches Some(progress)
            ==> progress.app_id == job.app_id),
    ensures
        app.shown_progress(app_id) matches Some(progress) ==> progress.app_id == app_id,
{
}

} // verus!
