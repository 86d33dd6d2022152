//! What depot downloads promise: how a job's reports reach the page, and how downloads are started,
//! paused, resumed and switched.
use crate::downloads::{DownloadEnd, DownloadUpdate, JobOrder, QueueEffect};
use crate::downloads_page::DownloadBanner;
use crate::state::{DownloadJob, DownloadKind, DownloadProgress, DrydockApp};
use vstd::prelude::*;

verus! {

/// Whether the job goes on past every update before place `i`.
pub open spec fn lives_until(job: DownloadJob, updates: Seq<DownloadUpdate>, i: int) -> bool {
    &&& job.finished is None
    &&& forall|k: int| 0 <= k < i ==> !(#[trigger] updates[k] is Finished)
}

proof fn a_live_job_is_unfinished(job: DownloadJob, updates: Seq<DownloadUpdate>)
    requires
        lives_until(job, updates, updates.len() as int),
    ensures
        job.updated_by(updates).finished is None,
    decreases updates.len(),
{
    if updates.len() > 0 {
        let before = updates.drop_last();
        assert forall|k: int| 0 <= k < before.len() implies !(#[trigger] before[k] is Finished) by {
            assert(before[k] == updates[k]);
        }
        a_live_job_is_unfinished(job, before);
        assert(!(updates[updates.len() - 1] is Finished));
    }
}

proof fn one_update_counts(job: DownloadJob, updates: Seq<DownloadUpdate>, i: int)
    requires
        0 <= i < updates.len(),
        lives_until(job, updates, i),
    ensures
        ({
            let after = job.updated_by(updates);
            &&& updates[i] matches DownloadUpdate::Progress(progress) ==> (forall|k: int|
                i < k < updates.len() ==> !(#[trigger] updates[k] is Progress)) ==> after.progress
                == Some(progress)
            &&& updates[i] matches DownloadUpdate::Installed(root) ==> (forall|k: int|
                i < k < updates.len() ==> !(#[trigger] updates[k] is Installed))
                ==> after.install_root == Some(root)
            &&& updates[i] matches DownloadUpdate::Verified(complete) ==> (forall|k: int|
                i < k < updates.len() ==> !(#[trigger] updates[k] is Verified)) ==> after.verified
                == Some(complete)
            &&& updates[i] matches DownloadUpdate::Finished(result) ==> after.finished == Some(
                result,
            )
        }),
    decreases updates.len(),
{
    let before = updates.drop_last();
    let n = updates.len() - 1;
    if i == n {
        assert forall|k: int| 0 <= k < before.len() implies !(#[trigger] before[k] is Finished) by {
            assert(before[k] == updates[k]);
        }
        a_live_job_is_unfinished(job, before);
    } else {
        assert forall|k: int| 0 <= k < i implies !(#[trigger] before[k] is Finished) by {
            assert(before[k] == updates[k]);
        }
        assert(before[i] == updates[i]);
        one_update_counts(job, before, i);
        assert forall|k: int| i < k < before.len() implies before[k] == #[trigger] updates[k] by {}
        assert((forall|k: int| i < k < updates.len() ==> !(#[trigger] updates[k] is Progress))
            ==> (forall|k: int| i < k < before.len() ==> !(#[trigger] before[k] is Progress))) by {
            assert forall|k: int|
                (forall|m: int| i < m < updates.len() ==> !(#[trigger] updates[m] is Progress)) && i
                    < k < before.len() implies !(#[trigger] before[k] is Progress) by {
                assert(before[k] == updates[k]);
            }
        }
        assert((forall|k: int| i < k < updates.len() ==> !(#[trigger] updates[k] is Installed))
            ==> (forall|k: int| i < k < before.len() ==> !(#[trigger] before[k] is Installed))) by {
            assert forall|k: int|
                (forall|m: int| i < m < updates.len() ==> !(#[trigger] updates[m] is Installed))
                    && i < k < before.len() implies !(#[trigger] before[k] is Installed) by {
                assert(before[k] == updates[k]);
            }
        }
        assert((forall|k: int| i < k < updates.len() ==> !(#[trigger] updates[k] is Verified))
            ==> (forall|k: int| i < k < before.len() ==> !(#[trigger] before[k] is Verified))) by {
            assert forall|k: int|
                (forall|m: int| i < m < updates.len() ==> !(#[trigger] updates[m] is Verified)) && i
                    < k < before.len() implies !(#[trigger] before[k] is Verified) by {
                assert(before[k] == updates[k]);
            }
        }
        assert(!(updates[n] is Progress) || updates[n] is Progress);
    }
}

/// A job stands at the last progress that it reported before its end.
pub proof fn the_last_report_stands(
    job: &mut DownloadJob,
    updates: Vec<DownloadUpdate>,
    i: int,
    progress: DownloadProgress,
)
    requires
        call_ensures(DownloadJob::take_updates, (job, updates), ()),
        0 <= i < updates@.len(),
        updates@[i] == DownloadUpdate::Progress(progress),
        lives_until(*old(job), updates@, i),
        forall|k: int| i < k < updates@.len() ==> !(#[trigger] updates@[k] is Progress),
    ensures
        final(job).progress == Some(progress),
{
    one_update_counts(*old(job), updates@, i);
}

/// A job knows the last folder that it was said to be installed in before its end.
pub proof fn the_last_folder_stands(
    job: &mut DownloadJob,
    updates: Vec<DownloadUpdate>,
    i: int,
    root: String,
)
    requires
        call_ensures(DownloadJob::take_updates, (job, updates), ()),
        0 <= i < updates@.len(),
        updates@[i] == DownloadUpdate::Installed(root),
        lives_until(*old(job), updates@, i),
        forall|k: int| i < k < updates@.len() ==> !(#[trigger] updates@[k] is Installed),
    ensures
        final(job).install_root == Some(root),
{
    one_update_counts(*old(job), updates@, i);
}

/// A job keeps the last verdict of its verify before its end.
pub proof fn the_last_verdict_stands(
    job: &mut DownloadJob,
    updates: Vec<DownloadUpdate>,
    i: int,
    complete: bool,
)
    requires
        call_ensures(DownloadJob::take_updates, (job, updates), ()),
        0 <= i < updates@.len(),
        updates@[i] == DownloadUpdate::Verified(complete),
        lives_until(*old(job), updates@, i),
        forall|k: int| i < k < updates@.len() ==> !(#[trigger] updates@[k] is Verified),
    ensures
        final(job).verified == Some(complete),
{
    one_update_counts(*old(job), updates@, i);
}

/// The first end that is reported is the end of a job. Without one the job goes on.
pub proof fn the_first_end_stands(job: &mut DownloadJob, updates: Vec<DownloadUpdate>, i: int)
    requires
        call_ensures(DownloadJob::take_updates, (job, updates), ()),
        0 <= i <= updates@.len(),
        lives_until(*old(job), updates@, i),
        i < updates@.len() ==> updates@[i] is Finished,
    ensures
        i < updates@.len() ==> updates@[i] == DownloadUpdate::Finished(final(job).finished->0)
            && final(job).finished is Some,
        i == updates@.len() ==> final(job).finished is None,
{
    if i < updates@.len() {
        one_update_counts(*old(job), updates@, i);
    } else {
        a_live_job_is_unfinished(*old(job), updates@);
    }
}

proof fn what_is_not_reported_stays(job: DownloadJob, updates: Seq<DownloadUpdate>)
    ensures
        (forall|k: int| 0 <= k < updates.len() ==> !(#[trigger] updates[k] is Progress))
            ==> job.updated_by(updates).progress == job.progress,
        (forall|k: int| 0 <= k < updates.len() ==> !(#[trigger] updates[k] is Installed))
            ==> job.updated_by(updates).install_root == job.install_root,
        (forall|k: int| 0 <= k < updates.len() ==> !(#[trigger] updates[k] is Verified))
            ==> job.updated_by(updates).verified == job.verified,
    decreases updates.len(),
{
    if updates.len() > 0 {
        let before = updates.drop_last();
        what_is_not_reported_stays(job, before);
        let last = updates[updates.len() - 1];
        if forall|k: int| 0 <= k < updates.len() ==> !(#[trigger] updates[k] is Progress) {
            assert forall|k: int| 0 <= k < before.len() implies !(#[trigger] before[k] is Progress) by {
                assert(before[k] == updates[k]);
            }
            assert(!(last is Progress));
        }
        if forall|k: int| 0 <= k < updates.len() ==> !(#[trigger] updates[k] is Installed) {
            assert forall|k: int| 0 <= k < before.len() implies !(
            #[trigger] before[k] is Installed) by {
                assert(before[k] == updates[k]);
            }
            assert(!(last is Installed));
        }
        if forall|k: int| 0 <= k < updates.len() ==> !(#[trigger] updates[k] is Verified) {
            assert forall|k: int| 0 <= k < before.len() implies !(#[trigger] before[k] is Verified) by {
                assert(before[k] == updates[k]);
            }
            assert(!(last is Verified));
        }
    }
}

/// What a run of updates does not speak of stays as it was.
pub proof fn silence_changes_nothing(job: &mut DownloadJob, updates: Vec<DownloadUpdate>)
    requires
        call_ensures(DownloadJob::take_updates, (job, updates), ()),
    ensures
        (forall|k: int| 0 <= k < updates@.len() ==> !(#[trigger] updates@[k] is Progress))
            ==> final(job).progress == old(job).progress,
        (forall|k: int| 0 <= k < updates@.len() ==> !(#[trigger] updates@[k] is Installed))
            ==> final(job).install_root == old(job).install_root,
        (forall|k: int| 0 <= k < updates@.len() ==> !(#[trigger] updates@[k] is Verified))
            ==> final(job).verified == old(job).verified,
        final(job).app_id == old(job).app_id,
        final(job).name == old(job).name,
        final(job).kind == old(job).kind,
        final(job).cancel == old(job).cancel,
{
    what_is_not_reported_stays(*old(job), updates@);
    crate::downloads::updates_keep_the_job(*old(job), updates@);
}

/// One update taken alone leaves what it reports, and touches nothing else of the job.
pub proof fn one_report_is_taken(job: &mut DownloadJob, update: DownloadUpdate)
    requires
        call_ensures(DownloadJob::take_update, (job, update), ()),
    ensures
        update matches DownloadUpdate::Progress(progress) ==> final(job).progress == Some(progress),
        update matches DownloadUpdate::Installed(root) ==> final(job).install_root == Some(root),
        update matches DownloadUpdate::Verified(complete) ==> final(job).verified == Some(complete),
        update matches DownloadUpdate::Finished(result) ==> final(job).finished == Some(result),
        !(update is Progress) ==> final(job).progress == old(job).progress,
        !(update is Installed) ==> final(job).install_root == old(job).install_root,
        !(update is Verified) ==> final(job).verified == old(job).verified,
        !(update is Finished) ==> final(job).finished == old(job).finished,
        final(job).app_id == old(job).app_id,
        final(job).name == old(job).name,
        final(job).kind == old(job).kind,
        final(job).cancel == old(job).cancel,
{
}

/// What the running download at the front of the queue reported last is what the page shows.
pub proof fn the_page_shows_the_last_report(
    app: &mut DrydockApp,
    updates: Vec<DownloadUpdate>,
    end: DownloadEnd,
    i: int,
    progress: DownloadProgress,
    after: &DrydockApp,
    shown: Option<DownloadBanner>,
    bytes: (u64, u64),
)
    requires
        old(app).downloads.job is Some,
        old(app).downloads.job->0.kind == DownloadKind::Download,
        old(app).settings.download_queue@.len() > 0,
        old(app).downloads.job->0.app_id == old(app).settings.download_queue@[0].app_id,
        call_ensures(DrydockApp::poll_download, (app, updates, false), end),
        0 <= i < updates@.len(),
        updates@[i] == DownloadUpdate::Progress(progress),
        lives_until(old(app).downloads.job->0, updates@, updates@.len() as int),
        forall|k: int| i < k < updates@.len() ==> !(#[trigger] updates@[k] is Progress),
        *after == *final(app),
        call_ensures(DrydockApp::downloads_page, (after,), shown),
        shown is Some ==> call_ensures(DownloadBanner::bytes, (&shown->0,), bytes),
    ensures
        end is Nothing,
        shown matches Some(banner) && banner.running && !banner.is_verify && banner.progress == Some(
            progress,
        ) && banner.app_id == old(app).settings.download_queue@[0].app_id,
        bytes == (progress.done_bytes, progress.total_bytes),
        final(app).downloads.last == Some(progress),
        final(app).settings == old(app).settings,
{
    let job = old(app).downloads.job->0;
    assert(lives_until(job, updates@, i));
    one_update_counts(job, updates@, i);
    a_live_job_is_unfinished(job, updates@);
    crate::downloads::updates_keep_the_job(job, updates@);
}

/// A job is started for the front of the queue, and only where none is at work. It starts afresh.
pub proof fn the_front_is_started(app: &mut DrydockApp, order: Option<JobOrder>)
    requires
        call_ensures(DrydockApp::start_front_download, (app,), order),
    ensures
        order is Some <==> old(app).settings.download_queue@.len() > 0 && !(
        old(app).downloads.job matches Some(job) && job.finished is None),
        order matches Some(order) ==> {
            let front = old(app).settings.download_queue@[0];
            &&& order.app_id == front.app_id
            &&& order.name == front.name
            &&& order.kind == DownloadKind::Download
            &&& order.root is None
            &&& final(app).downloads.job matches Some(job) && {
                &&& job.app_id == front.app_id
                &&& job.name == front.name
                &&& job.kind == DownloadKind::Download
                &&& job.finished is None
                &&& job.progress is None
                &&& !job.cancel
            }
            &&& !final(app).downloads.paused
            &&& final(app).downloads.error is None
        },
        final(app).settings == old(app).settings,
        final(app).downloads.last == old(app).downloads.last,
{
}

/// A pause and a resume: the running download is asked to stop, its stop leaves it paused and
/// without an error at the front of the queue, and starting the front again resumes it.
pub proof fn a_paused_download_is_resumed(
    app: &mut DrydockApp,
    stopped: &mut DrydockApp,
    updates: Vec<DownloadUpdate>,
    end: DownloadEnd,
    message: String,
    resumed: &mut DrydockApp,
    order: Option<JobOrder>,
)
    requires
        old(app).downloads.job is Some,
        old(app).downloads.job->0.finished is None,
        old(app).downloads.job->0.kind == DownloadKind::Download,
        !old(app).downloads.switch_pending,
        old(app).settings.download_queue@.len() > 0,
        call_ensures(DrydockApp::pause_download, (app,), ()),
        *old(stopped) == *final(app),
        updates@ == seq![DownloadUpdate::Finished(Err::<String, String>(message))],
        call_ensures(DrydockApp::poll_download, (stopped, updates, false), end),
        *old(resumed) == *final(stopped),
        call_ensures(DrydockApp::start_front_download, (resumed,), order),
    ensures
        final(app).downloads.paused,
        final(app).downloads.job matches Some(job) && job.cancel,
        end is Stopped,
        final(stopped).downloads.job is None,
        final(stopped).downloads.paused,
        final(stopped).downloads.error is None,
        final(stopped).settings == old(app).settings,
        order matches Some(order) && order.app_id == old(app).settings.download_queue@[0].app_id,
        !final(resumed).downloads.paused,
{
    let job = final(app).downloads.job->0;
    one_update_counts(job, updates@, 0);
    crate::downloads::updates_keep_the_job(job, updates@);
}

/// A download that fails by itself is remembered with its error, and stays at the front.
pub proof fn a_failure_is_remembered(
    app: &mut DrydockApp,
    updates: Vec<DownloadUpdate>,
    end: DownloadEnd,
    message: String,
)
    requires
        old(app).downloads.job is Some,
        old(app).downloads.job->0.finished is None,
        old(app).downloads.job->0.kind == DownloadKind::Download,
        !old(app).downloads.switch_pending,
        !old(app).downloads.paused,
        updates@ == seq![DownloadUpdate::Finished(Err::<String, String>(message))],
        call_ensures(DrydockApp::poll_download, (app, updates, false), end),
    ensures
        end is Stopped,
        final(app).downloads.job is None,
        final(app).downloads.paused,
        final(app).downloads.error == Some(message),
        final(app).line.error,
        final(app).line.text@ == message@,
        final(app).settings == old(app).settings,
{
    let job = old(app).downloads.job->0;
    one_update_counts(job, updates@, 0);
    crate::downloads::updates_keep_the_job(job, updates@);
}

/// A job that is lost without a last word ends with an error, whatever it had reported.
pub proof fn a_lost_job_ends(app: &mut DrydockApp, updates: Vec<DownloadUpdate>, end: DownloadEnd)
    requires
        old(app).downloads.job is Some,
        old(app).downloads.job->0.kind == DownloadKind::Download,
        lives_until(old(app).downloads.job->0, updates@, updates@.len() as int),
        call_ensures(DrydockApp::poll_download, (app, updates, true), end),
    ensures
        end is Stopped || end is Switched,
        end is Switched <==> old(app).downloads.switch_pending,
        final(app).downloads.job is None,
        final(app).line.error,
        final(app).line.text@ == "The download ended unexpectedly."@,
{
    a_live_job_is_unfinished(old(app).downloads.job->0, updates@);
    crate::downloads::updates_keep_the_job(old(app).downloads.job->0, updates@);
}

/// A download that ends well is handed on with its name and the folder it was installed in, and
/// leaves neither a pause nor an error.
pub proof fn a_complete_download_is_handed_on(
    app: &mut DrydockApp,
    updates: Vec<DownloadUpdate>,
    end: DownloadEnd,
    root: String,
    message: String,
)
    requires
        old(app).downloads.job is Some,
        old(app).downloads.job->0.finished is None,
        updates@ == seq![
            DownloadUpdate::Installed(root),
            DownloadUpdate::Finished(Ok::<String, String>(message)),
        ],
        call_ensures(DrydockApp::poll_download, (app, updates, false), end),
    ensures
        old(app).downloads.job->0.kind == DownloadKind::Download ==> {
            &&& end == (DownloadEnd::Completed {
                app_id: old(app).downloads.job->0.app_id,
                name: old(app).downloads.job->0.name,
                root: Some(root),
            })
            &&& final(app).downloads.job is None
            &&& !final(app).downloads.paused
            &&& final(app).downloads.error is None
            &&& !final(app).downloads.switch_pending
        },
        old(app).downloads.job->0.kind == DownloadKind::Verify ==> {
            &&& end matches DownloadEnd::Verified { app_id, verified, result }
            &&& app_id == old(app).downloads.job->0.app_id
            &&& verified == old(app).downloads.job->0.verified
            &&& result == Ok::<String, String>(message)
            &&& final(app).downloads.job matches Some(job) && job.finished is Some
        },
        !final(app).line.error,
        final(app).line.text@ == message@,
{
    let job = old(app).downloads.job->0;
    assert(lives_until(job, updates@, 1));
    one_update_counts(job, updates@, 0);
    one_update_counts(job, updates@, 1);
    what_is_not_reported_stays(job, updates@);
    crate::downloads::updates_keep_the_job(job, updates@);
}

/// Bringing another download to the front stops the running one, and once it has stopped the new
/// front starts: the switch counts neither as a pause nor as an error.
pub proof fn a_switch_goes_on_with_the_new_front(
    app: &mut DrydockApp,
    written: Result<(), String>,
    none: Option<JobOrder>,
    stopped: &mut DrydockApp,
    updates: Vec<DownloadUpdate>,
    message: String,
    end: DownloadEnd,
    started: &mut DrydockApp,
    order: Option<JobOrder>,
)
    requires
        old(app).downloads.job is Some,
        old(app).downloads.job->0.finished is None,
        old(app).downloads.job->0.kind == DownloadKind::Download,
        old(app).settings.download_queue@.len() > 0,
        call_ensures(
            DrydockApp::activate_download,
            (app, QueueEffect::SwitchToFront, written),
            none,
        ),
        *old(stopped) == *final(app),
        updates@ == seq![DownloadUpdate::Finished(Err::<String, String>(message))],
        call_ensures(DrydockApp::poll_download, (stopped, updates, false), end),
        *old(started) == *final(stopped),
        call_ensures(DrydockApp::start_front_download, (started,), order),
    ensures
        none is None,
        final(app).downloads.job matches Some(job) && job.cancel,
        end is Switched,
        !final(stopped).downloads.paused,
        final(stopped).downloads.error is None,
        order matches Some(order) && order.app_id == old(app).settings.download_queue@[0].app_id,
{
    let job = final(app).downloads.job->0;
    one_update_counts(job, updates@, 0);
    crate::downloads::updates_keep_the_job(job, updates@);
}

/// A change that leaves the running download alone never stops it: it is neither cancelled nor
/// paused, and no other job is started.
pub proof fn saving_the_queue_disturbs_nothing(
    app: &mut DrydockApp,
    switching: &str,
    written: Result<(), String>,
    order: Option<JobOrder>,
)
    requires
        call_ensures(
            DrydockApp::apply_queue_effect,
            (app, QueueEffect::PersistOnly, switching, written),
            order,
        ),
    ensures
        order is None,
        final(app).downloads == old(app).downloads,
        final(app).settings == old(app).settings,
        written is Err ==> final(app).line.error,
        written is Ok ==> final(app).line == old(app).line,
{
}

/// A verify runs where no job is at work, and is refused with an error otherwise. It is no
/// download: it can be cancelled and not paused.
pub proof fn a_verify_waits_for_no_download(
    app: &mut DrydockApp,
    app_id: u32,
    name: String,
    order: Option<JobOrder>,
    paused: &mut DrydockApp,
    cancelled: &mut DrydockApp,
)
    requires
        call_ensures(DrydockApp::start_verify, (app, app_id, name), order),
        *old(paused) == *final(app),
        call_ensures(DrydockApp::pause_download, (paused,), ()),
        *old(cancelled) == *final(app),
        call_ensures(DrydockApp::cancel_verify, (cancelled,), ()),
    ensures
        order is None <==> (old(app).downloads.job matches Some(job) && job.finished is None),
        order is None ==> final(app).downloads == old(app).downloads && final(app).line.error,
        order matches Some(order) ==> {
            &&& order.app_id == app_id
            &&& order.name == name
            &&& order.kind == DownloadKind::Verify
            &&& final(app).downloads.job matches Some(job) && job.app_id == app_id && job.kind
                == DownloadKind::Verify && job.finished is None && job.verified is None
            &&& final(paused).downloads == final(app).downloads
            &&& final(cancelled).downloads.job matches Some(job) && job.cancel
        },
{
}

/// A job may use the connections and the bandwidth that the settings name: the connections as far
/// as they are allowed, and megabytes as bytes.
pub proof fn a_job_keeps_to_the_settings(app: &mut DrydockApp, order: Option<JobOrder>)
    requires
        call_ensures(DrydockApp::start_front_download, (app,), order),
        order is Some,
    ensures
        1 <= old(app).settings.max_download_connections <= 32 ==> order->0.limits.connections
            == old(app).settings.max_download_connections,
        old(app).settings.max_download_connections == 0 ==> order->0.limits.connections == 16,
        old(app).settings.max_download_connections > 32 ==> order->0.limits.connections == 32,
        old(app).settings.max_download_mbps == 0 <==> order->0.limits.max_bps is None,
        order->0.limits.max_bps matches Some(bps) ==> bps == old(app).settings.max_download_mbps
            * 1048576,
        order->0.limits.verify_threads == old(app).settings.verify_threads,
{
}

/// The page shows a verify while there is one, with its result once it ended; else the front of the
/// queue, which runs where its job does, and shows its error where it does not.
pub proof fn the_page_shows_the_verify_or_the_front(
    app: &DrydockApp,
    banner: Option<DownloadBanner>,
)
    requires
        call_ensures(DrydockApp::downloads_page, (app,), banner),
    ensures
        (app.downloads.job matches Some(job) && job.kind == DownloadKind::Verify) ==> {
            let job = app.downloads.job->0;
            &&& banner is Some
            &&& banner->0.is_verify
            &&& banner->0.app_id == job.app_id
            &&& banner->0.name == job.name
            &&& banner->0.running == (job.finished is None)
            &&& banner->0.result == job.finished
            &&& banner->0.error is None
        },
        !(app.downloads.job matches Some(job) && job.kind == DownloadKind::Verify) ==> {
            let queue = app.settings.download_queue@;
            &&& banner is Some <==> queue.len() > 0
            &&& queue.len() > 0 ==> {
                &&& !banner->0.is_verify
                &&& banner->0.app_id == queue[0].app_id
                &&& banner->0.name == queue[0].name
                &&& banner->0.running <==> (app.downloads.job matches Some(job) && job.finished
                    is None && job.app_id == queue[0].app_id)
                &&& banner->0.running ==> banner->0.error is None
                &&& !banner->0.running ==> banner->0.error == app.downloads.error
                &&& banner->0.result is None
            }
        },
{
}

/// Between two reports, and after a restart, the page shows the last report of the same app, never
/// that of another.
pub proof fn the_last_report_is_of_the_app(app: &DrydockApp, banner: DownloadBanner)
    requires
        call_ensures(DrydockApp::downloads_page, (app,), Some(banner)),
        app.downloads.job is None,
    ensures
        banner.progress is Some <==> (app.downloads.last matches Some(last) && last.app_id
            == banner.app_id),
        banner.progress is Some ==> banner.progress == app.downloads.last,
{
}

/// Pausing, cancelling and verifying are no errors, and nothing but the downloads changes by them. A
/// verify beside a running job is one.
pub proof fn asking_is_no_error(
    a: &mut DrydockApp,
    b: &mut DrydockApp,
    c: &mut DrydockApp,
    app_id: u32,
    name: String,
    order: Option<JobOrder>,
)
    requires
        call_ensures(DrydockApp::pause_download, (a,), ()),
        call_ensures(DrydockApp::cancel_verify, (b,), ()),
        call_ensures(DrydockApp::start_verify, (c, app_id, name), order),
    ensures
        final(a).line == old(a).line || !final(a).line.error,
        !final(b).line.error,
        final(b).downloads.job matches Some(job) ==> job.cancel,
        final(b).downloads.paused == old(b).downloads.paused,
        order is Some <==> !(old(c).downloads.job matches Some(job) && job.finished is None),
        order is Some <==> !final(c).line.error,
        order matches Some(order) ==> order.app_id == app_id && order.kind == DownloadKind::Verify,
        final(a).settings == old(a).settings,
        final(b).settings == old(b).settings,
        final(c).settings == old(c).settings,
{
}

} // verus!
