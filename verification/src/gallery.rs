//! The tour of the pages that screenshots of the shell are taken on.
use crate::state::{
    DetailsPage, DownloadJob, DownloadKind, DownloadProgress, DownloadState, DrydockApp,
    LibraryState, ListJobs, Part, StoreState,
};
use crate::text::same_text;
use crate::types::{GuideFlow, Page, StoreTab};
use vstd::prelude::*;

verus! {

/// The pages of the tour, as the keys name them.
#[derive(Clone, Copy, Debug, PartialEq, Eq, Structural)]
pub enum Stop {
    Details,
    Denuvo,
    Repacks,
    AddGame,
    Guide(GuideFlow),
    Downloads,
    Plain(Page),
}

/// Where a key leads: home, where it is none of the keys.
#[verifier::opaque]
pub open spec fn stop_of(key: Seq<char>) -> Stop {
    if key == "details"@ {
        Stop::Details
    } else if key == "denuvo"@ {
        Stop::Denuvo
    } else if key == "repacks"@ {
        Stop::Repacks
    } else if key == "add-game"@ {
        Stop::AddGame
    } else if key == "library"@ {
        Stop::Plain(Page::Library)
    } else if key == "tools"@ {
        Stop::Plain(Page::Tools)
    } else if key == "cloud"@ {
        Stop::Plain(Page::Cloud)
    } else if key == "activation"@ {
        Stop::Plain(Page::Activation)
    } else if key == "updates"@ {
        Stop::Plain(Page::Updates)
    } else if key == "settings"@ {
        Stop::Plain(Page::Settings)
    } else if key == "guide"@ {
        Stop::Guide(GuideFlow::Activation)
    } else if key == "guide-fixes"@ {
        Stop::Guide(GuideFlow::Fixes)
    } else if key == "downloads"@ {
        Stop::Downloads
    } else {
        Stop::Plain(Page::Home)
    }
}

fn find_stop(key: &str) -> (stop: Stop)
    ensures
        stop == stop_of(key@),
{
    reveal(stop_of);
    if same_text(key, "details") {
        Stop::Details
    } else if same_text(key, "denuvo") {
        Stop::Denuvo
    } else if same_text(key, "repacks") {
        Stop::Repacks
    } else if same_text(key, "add-game") {
        Stop::AddGame
    } else if same_text(key, "library") {
        Stop::Plain(Page::Library)
    } else if same_text(key, "tools") {
        Stop::Plain(Page::Tools)
    } else if same_text(key, "cloud") {
        Stop::Plain(Page::Cloud)
    } else if same_text(key, "activation") {
        Stop::Plain(Page::Activation)
    } else if same_text(key, "updates") {
        Stop::Plain(Page::Updates)
    } else if same_text(key, "settings") {
        Stop::Plain(Page::Settings)
    } else if same_text(key, "guide") {
        Stop::Guide(GuideFlow::Activation)
    } else if same_text(key, "guide-fixes") {
        Stop::Guide(GuideFlow::Fixes)
    } else if same_text(key, "downloads") {
        Stop::Downloads
    } else {
        Stop::Plain(Page::Home)
    }
}

/// Whether this is the job that stands in for a download under way.
pub open spec fn is_sample_job(job: DownloadJob) -> bool {
    &&& job.app_id == 3_751_260
    &&& job.name@ == "The Blood of Dawnwalker"@
    &&& job.kind == DownloadKind::Download
    &&& !job.cancel
    &&& job.install_root is None
    &&& job.verified is None
    &&& job.finished is None
    &&& job.progress matches Some(progress) && progress.app_id == 3_751_260
        && progress.done_bytes == 1_288_490_188 && progress.total_bytes == 10_737_418_240
        && progress.current_file@ == "Dawnwalker/Content/Paks/Dawnwalker-Windows.ucas"@
}

fn sample_job() -> (job: DownloadJob)
    ensures
        is_sample_job(job),
{
    DownloadJob {
        app_id: 3_751_260,
        name: "The Blood of Dawnwalker".to_owned(),
        kind: DownloadKind::Download,
        cancel: false,
        progress: Some(
            DownloadProgress {
                app_id: 3_751_260,
                done_bytes: 1_288_490_188,
                total_bytes: 10_737_418_240,
                current_file: "Dawnwalker/Content/Paks/Dawnwalker-Windows.ucas".to_owned(),
            },
        ),
        install_root: None,
        verified: None,
        finished: None,
    }
}

impl DrydockApp {
    /// The game whose details are shown: an installed one where there is one, else the first of the
    /// catalog.
    pub open spec fn tour_game(&self) -> Option<u32> {
        if self.steam.manifests@.len() > 0 {
            Some(self.steam.manifests@[0].app_id)
        } else if self.catalog.apps@.len() > 0 {
            Some(self.catalog.apps@[0].app_id)
        } else {
            None
        }
    }

    /// Whether `after` is this shell at a page of the tour, with the details of `game` opened.
    pub open spec fn toured(self, stop: Stop, game: Option<u32>, after: DrydockApp) -> bool {
        let before = self;
        match stop {
                    Stop::Details => {
                        &&& before.keeps_all_but(
                            set![Part::Page, Part::Details, Part::ListJobs],
                            after,
                        )
                        &&& after.page == Page::Details
                        &&& game matches Some(app_id) ==> {
                            &&& after.details == DetailsPage::opened(app_id)
                            &&& after.list_jobs == (ListJobs { store: true, ..before.list_jobs })
                        }
                        &&& game is None ==> {
                            &&& after.details == before.details
                            &&& after.list_jobs == before.list_jobs
                        }
                    },
                    Stop::Denuvo => {
                        &&& before.keeps_all_but(set![Part::Page, Part::Store], after)
                        &&& after.page == Page::Home
                        &&& after.store == (StoreState {
                            tab: StoreTab::DenuvoWatch,
                            ..before.store
                        })
                    },
                    Stop::Repacks => {
                        &&& before.keeps_all_but(set![Part::Page, Part::Store], after)
                        &&& after.page == Page::Home
                        &&& after.store == (StoreState { tab: StoreTab::Repacks, ..before.store })
                    },
                    Stop::AddGame => {
                        &&& before.keeps_all_but(set![Part::Page, Part::Library], after)
                        &&& after.page == Page::Library
                        &&& after.library == (LibraryState {
                            add_game_folder: after.library.add_game_folder,
                            ..before.library
                        })
                        &&& after.library.add_game_folder matches Some(folder) && folder@
                            == "D:\\Games\\Onimusha Way of the Sword"@
                    },
                    Stop::Guide(flow) => {
                        &&& before.keeps_all_but(set![Part::Page, Part::GuideFlow], after)
                        &&& after.page == Page::Guide
                        &&& after.guide_flow == flow
                    },
                    Stop::Downloads => {
                        &&& before.keeps_all_but(set![Part::Page, Part::Downloads], after)
                        &&& after.page == Page::Downloads
                        &&& after.downloads == (DownloadState {
                            job: after.downloads.job,
                            ..before.downloads
                        })
                        &&& after.downloads.job matches Some(job) && is_sample_job(job)
                    },
                    Stop::Plain(page) => {
                        &&& before.keeps_all_but(set![Part::Page], after)
                        &&& after.page == page
                    },
                }
    }

    fn go_to_details(&mut self) -> (fetch: Option<u32>)
        ensures
            fetch == old(self).tour_game(),
            old(self).toured(Stop::Details, fetch, *final(self)),
    {
        let game: Option<u32> = if self.steam.manifests.len() > 0 {
            Some(self.steam.manifests[0].app_id)
        } else if self.catalog.apps.len() > 0 {
            Some(self.catalog.apps[0].app_id)
        } else {
            None
        };
        match game {
            Some(app_id) => {
                self.open_details(app_id);
            },
            None => {
                self.page = Page::Details;
            },
        }
        game
    }

    fn go_to_tab(&mut self, tab: StoreTab)
        ensures
            old(self).keeps_all_but(set![Part::Page, Part::Store], *final(self)),
            final(self).page == Page::Home,
            final(self).store == (StoreState { tab, ..old(self).store }),
    {
        self.page = Page::Home;
        self.store.tab = tab;
    }

    fn go_to_add_game(&mut self)
        ensures
            old(self).toured(Stop::AddGame, None, *final(self)),
    {
        self.page = Page::Library;
        self.library.add_game_folder = Some("D:\\Games\\Onimusha Way of the Sword".to_owned());
    }

    fn go_to_downloads(&mut self)
        ensures
            old(self).toured(Stop::Downloads, None, *final(self)),
    {
        self.downloads.job = Some(sample_job());
        self.page = Page::Downloads;
    }

    fn go_to_page(&mut self, page: Page)
        ensures
            old(self).keeps_all_but(set![Part::Page], *final(self)),
            final(self).page == page,
    {
        self.page = page;
    }

    fn go_to_guide(&mut self, flow: GuideFlow)
        ensures
            old(self).toured(Stop::Guide(flow), None, *final(self)),
    {
        self.guide_flow = flow;
        self.page = Page::Guide;
    }

    fn go_to(&mut self, stop: Stop) -> (fetch: Option<u32>)
        ensures
            fetch == if stop == Stop::Details {
                old(self).tour_game()
            } else {
                None
            },
            old(self).toured(stop, fetch, *final(self)),
    {
        match stop {
            Stop::Details => {
                return self.go_to_details();
            },
            Stop::Denuvo => {
                self.go_to_tab(StoreTab::DenuvoWatch);
            },
            Stop::Repacks => {
                self.go_to_tab(StoreTab::Repacks);
            },
            Stop::AddGame => {
                self.go_to_add_game();
            },
            Stop::Guide(flow) => {
                self.go_to_guide(flow);
            },
            Stop::Downloads => {
                self.go_to_downloads();
            },
            Stop::Plain(page) => {
                self.go_to_page(page);
            },
        }
        None
    }

    /// Goes to a page of the tour. A details page is opened with a game where there is one, which is
    /// then to be fetched.
    pub fn screenshot_goto(&mut self, key: &str) -> (fetch: Option<u32>)
        ensures
            fetch == if stop_of(key@) == Stop::Details {
                old(self).tour_game()
            } else {
                None
            },
            old(self).toured(stop_of(key@), fetch, *final(self)),
    {
        let stop = find_stop(key);
        self.go_to(stop)
    }
}

} // verus!
