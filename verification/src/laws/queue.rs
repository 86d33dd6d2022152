//! What a change of the download queue promises, whichever way it came about, and what the page of
//! the downloads shows.
use crate::downloads::{copy_progress, copy_result, JobLimits, JobOrder, QueueEffect};
use crate::downloads_page::{format_eta, BannerButton, DownloadBanner, FileLine, UpcomingRow};
use crate::state::{DownloadKind, DownloadProgress, DrydockApp, Settings};
use crate::text::{decimal, decimal_text};
use crate::types::Tone;
use vstd::prelude::*;

verus! {

/// Whether a download or verify runs.
pub open spec fn runs(app: DrydockApp) -> bool {
    app.downloads.job matches Some(job) && job.finished is None
}

/// What becomes of the downloads by the effect that a change of the queue has: nothing while the
/// front stays; where a new front takes over a running job, that job is stopped first; else the
/// front is started, unless something runs.
pub open spec fn effect_shows(
    before: DrydockApp,
    effect: QueueEffect,
    after: DrydockApp,
    order: Option<JobOrder>,
) -> bool {
    let queue = before.settings.download_queue@;
    &&& after.settings == before.settings
    &&& after.catalog == before.catalog
    &&& after.steam == before.steam
    &&& after.library == before.library
    &&& effect == QueueEffect::Unchanged || effect == QueueEffect::PersistOnly ==> order is None
        && after.downloads == before.downloads
    &&& effect == QueueEffect::SwitchToFront && runs(before) ==> {
        &&& order is None
        &&& after.downloads.job is Some
        &&& after.downloads.job->0.cancel
        &&& after.downloads.job->0.app_id == before.downloads.job->0.app_id
        &&& after.downloads.job->0.progress == before.downloads.job->0.progress
        &&& after.downloads.switch_pending
        &&& after.downloads.paused == before.downloads.paused
    }
    &&& (effect == QueueEffect::StartFront || effect == QueueEffect::SwitchToFront) && !runs(before)
        && queue.len() > 0 ==> {
        &&& order is Some
        &&& order->0.app_id == queue[0].app_id
        &&& order->0.name == queue[0].name
        &&& order->0.kind == DownloadKind::Download
        &&& order->0.root is None
        &&& runs(after)
        &&& after.downloads.job->0.app_id == queue[0].app_id
        &&& !after.downloads.job->0.cancel
        &&& !after.downloads.paused
        &&& after.downloads.error is None
        &&& !after.line.error
    }
    &&& (effect == QueueEffect::StartFront || effect == QueueEffect::SwitchToFront) && queue.len()
        == 0 ==> order is None
    &&& effect == QueueEffect::StartFront && runs(before) ==> order is None && after.downloads.job
        == before.downloads.job
}

/// A removal of the current download, a removal of a waiting one and a choice of another to come
/// first all show the effect that the queue reported.
pub proof fn the_effect_is_taken(
    a: &mut DrydockApp,
    b: &mut DrydockApp,
    c: &mut DrydockApp,
    d: &mut DrydockApp,
    effect: QueueEffect,
    written: Result<(), String>,
    switching: &str,
    first: Option<JobOrder>,
    second: Option<JobOrder>,
    third: Option<JobOrder>,
    fourth: Option<JobOrder>,
)
    requires
        call_ensures(DrydockApp::remove_current_download, (a, effect, written), first),
        call_ensures(DrydockApp::remove_queued_download, (b, effect, written), second),
        call_ensures(DrydockApp::activate_download, (c, effect, written), third),
        call_ensures(DrydockApp::apply_queue_effect, (d, effect, switching, written), fourth),
    ensures
        effect_shows(*old(a), effect, *final(a), first),
        effect_shows(*old(b), effect, *final(b), second),
        effect_shows(*old(c), effect, *final(c), third),
        effect_shows(*old(d), effect, *final(d), fourth),
{
}

/// A game that is added to the queue starts where it became the front and nothing runs; the user is
/// told by its name whether it waits or was there already.
pub proof fn an_added_download_starts_or_waits(
    app: &mut DrydockApp,
    name: &str,
    effect: QueueEffect,
    written: Result<(), String>,
    order: Option<JobOrder>,
)
    requires
        call_ensures(DrydockApp::enqueue_download, (app, name, effect, written), order),
    ensures
        effect_shows(*old(app), effect, *final(app), order),
        effect == QueueEffect::Unchanged || effect == QueueEffect::PersistOnly
            ==> !final(app).line.error && exists|a: Seq<char>, b: Seq<char>|
            final(app).line.text@ == #[trigger] (a + name@ + b),
        effect == QueueEffect::PersistOnly ==> final(app).line.text@ == "Queued "@ + name@
            + " for download."@,
{
    if effect == QueueEffect::Unchanged {
        assert(final(app).line.text@ =~= Seq::<char>::empty() + name@
            + " is already in the download queue."@);
    }
    if effect == QueueEffect::PersistOnly {
        assert(final(app).line.text@ == "Queued "@ + name@ + " for download."@);
    }
}

/// A download that is sent to the back gives way to the next; where there is no other, it is paused.
pub proof fn a_demoted_download_gives_way(
    app: &mut DrydockApp,
    effect: QueueEffect,
    written: Result<(), String>,
    order: Option<JobOrder>,
)
    requires
        call_ensures(DrydockApp::demote_current_download, (app, effect, written), order),
    ensures
        effect != QueueEffect::Unchanged ==> effect_shows(*old(app), effect, *final(app), order),
        effect == QueueEffect::Unchanged ==> order is None,
        effect == QueueEffect::Unchanged && runs(*old(app)) && old(app).downloads.job->0.kind
            == DownloadKind::Download ==> final(app).downloads.paused
            && final(app).downloads.job->0.cancel && final(app).downloads.job->0.app_id
            == old(app).downloads.job->0.app_id,
        effect == QueueEffect::Unchanged && !runs(*old(app)) ==> final(app).downloads
            == old(app).downloads,
        final(app).settings == old(app).settings,
{
}

/// A new front takes over from whatever runs, and starts where nothing does.
pub proof fn a_new_front_takes_over(
    app: &mut DrydockApp,
    switching: &str,
    written: Result<(), String>,
    order: Option<JobOrder>,
)
    requires
        call_ensures(DrydockApp::switch_or_start, (app, switching, written), order),
    ensures
        effect_shows(*old(app), QueueEffect::SwitchToFront, *final(app), order),
        runs(*old(app)) ==> final(app).line.text@ == switching@ && !final(app).line.error,
{
}

/// A job runs for the app it was spawned for, from the start, with the limits of the settings.
pub proof fn a_spawned_job_starts_from_nothing(
    app: &mut DrydockApp,
    app_id: u32,
    name: String,
    kind: DownloadKind,
    root: Option<String>,
    order: JobOrder,
    limits: JobLimits,
    after: &DrydockApp,
    running: bool,
    busy: bool,
)
    requires
        call_ensures(DrydockApp::spawn_job, (app, app_id, name, kind, root), order),
        call_ensures(Settings::job_limits, (&old(app).settings,), limits),
        *after == *final(app),
        call_ensures(DrydockApp::download_running, (after,), running),
        call_ensures(DrydockApp::download_busy, (after,), busy),
    ensures
        order.app_id == app_id,
        order.name == name,
        order.kind == kind,
        order.root == root,
        order.limits == limits,
        running,
        busy,
        final(app).downloads.job is Some,
        final(app).downloads.job->0.app_id == app_id,
        final(app).downloads.job->0.name == name,
        final(app).downloads.job->0.kind == kind,
        final(app).downloads.job->0.progress is None,
        !final(app).downloads.job->0.cancel,
        final(app).downloads.last == old(app).downloads.last,
        final(app).downloads.paused == old(app).downloads.paused,
{
}

/// The shell is busy with downloads while one runs or is paused.
pub proof fn a_paused_download_keeps_busy(app: &DrydockApp, running: bool, busy: bool)
    requires
        call_ensures(DrydockApp::download_running, (app,), running),
        call_ensures(DrydockApp::download_busy, (app,), busy),
    ensures
        running <==> runs(*app),
        busy <==> runs(*app) || app.downloads.paused,
{
}

/// The limits of a job are those of the settings: sixteen connections where none are set, never more
/// than thirty-two, and megabytes per second where a limit is set.
pub proof fn the_limits_are_kept(settings: &Settings, limits: JobLimits)
    requires
        call_ensures(Settings::job_limits, (settings,), limits),
    ensures
        settings.max_download_connections == 0 ==> limits.connections == 16,
        1 <= settings.max_download_connections <= 32 ==> limits.connections
            == settings.max_download_connections,
        settings.max_download_connections > 32 ==> limits.connections == 32,
        limits.max_bps is None <==> settings.max_download_mbps == 0,
        limits.max_bps matches Some(bps) ==> bps == settings.max_download_mbps * 1048576,
        limits.verify_threads == settings.verify_threads,
{
    crate::downloads::connections_stay_bounded(*settings);
}

/// A verify whose result was read is gone; nothing else of the downloads is.
pub proof fn a_dismissed_verify_is_gone(
    app: &mut DrydockApp,
    after: &DrydockApp,
    running: bool,
    result: &Result<String, String>,
    copy: Result<String, String>,
    progress: &DownloadProgress,
    second: DownloadProgress,
)
    requires
        call_ensures(DrydockApp::dismiss_verify, (app,), ()),
        *after == *final(app),
        call_ensures(DrydockApp::download_running, (after,), running),
        call_ensures(copy_result, (result,), copy),
        call_ensures(copy_progress, (progress,), second),
    ensures
        final(app).downloads.job is None,
        !running,
        final(app).downloads.paused == old(app).downloads.paused,
        final(app).downloads.last == old(app).downloads.last,
        final(app).downloads.error == old(app).downloads.error,
        final(app).settings == old(app).settings,
        copy == *result,
        second == *progress,
{
}

/// The rows under the current download are the rest of the queue, numbered in its order.
pub proof fn the_rest_of_the_queue_is_listed(
    app: &DrydockApp,
    rows: Vec<UpcomingRow>,
    label: String,
    pill: Option<String>,
    i: int,
    number: String,
)
    requires
        call_ensures(DrydockApp::upcoming_downloads, (app,), rows),
        call_ensures(DrydockApp::up_next_label, (app,), label),
        call_ensures(DrydockApp::queue_pill, (app,), pill),
        0 <= i < rows@.len() ==> call_ensures(decimal, (rows@[i].app_id as u64,), number),
    ensures
        ({
            let queue = app.settings.download_queue@;
            &&& queue.len() > 0 ==> rows@.len() + 1 == queue.len()
            &&& queue.len() == 0 ==> rows@.len() == 0
            &&& 0 <= i < rows@.len() ==> {
                &&& rows@[i].app_id == queue[i + 1].app_id
                &&& rows@[i].name == queue[i + 1].name
                &&& rows@[i].badge@ == "#"@ + decimal_text((i + 1) as nat)
                &&& rows@[i].label@ == "APP "@ + number@
            }
            &&& label@ == "UP NEXT ("@ + decimal_text(rows@.len()) + ")"@
            &&& pill is Some <==> queue.len() > 0
            &&& pill matches Some(text) ==> text@ == decimal_text(queue.len()) + " IN QUEUE"@
        }),
{
    if 0 <= i < rows@.len() {
        assert(crate::downloads_page::shows_upcoming(
            rows@[i],
            app.settings.download_queue@[i + 1],
            (i + 1) as nat,
        ));
    }
}

/// The banner's word and buttons go by what can be done: a running download can be paused and, where
/// another waits, sent back; one that does not run can be resumed or removed; a verify can be
/// cancelled until it ends, then dismissed.
pub proof fn the_banner_offers_what_can_be_done(
    banner: &DownloadBanner,
    queue_len: usize,
    buttons: Vec<BannerButton>,
    status: (&'static str, Tone),
)
    requires
        call_ensures(DownloadBanner::buttons, (banner, queue_len), buttons),
        call_ensures(DownloadBanner::status, (banner,), status),
    ensures
        buttons@.contains(BannerButton::Pause) <==> !banner.is_verify && banner.running,
        buttons@.contains(BannerButton::ToQueue) <==> !banner.is_verify && banner.running
            && queue_len > 1,
        buttons@.contains(BannerButton::Resume) <==> !banner.is_verify && !banner.running,
        buttons@.contains(BannerButton::Remove) <==> !banner.is_verify && !banner.running,
        buttons@.contains(BannerButton::Cancel) <==> banner.is_verify && banner.result is None,
        buttons@.contains(BannerButton::Dismiss) <==> banner.is_verify && banner.result is Some,
        !banner.is_verify && banner.running ==> status.0@ == "DOWNLOADING"@ && status.1
            == Tone::Verdigris,
        !banner.is_verify && !banner.running && banner.error is Some ==> status.0@
            == "DOWNLOAD ERROR"@ && status.1 == Tone::Danger,
        !banner.is_verify && !banner.running && banner.error is None ==> status.0@ == "PAUSED"@
            && status.1 == Tone::Amber,
        banner.is_verify && banner.result is None ==> status.0@ == "VERIFYING FILES"@,
        banner.is_verify && banner.result is Some ==> status.0@ == "VERIFY COMPLETE"@,
{
    let list = buttons@;
    if list.len() > 0 {
        assert(list.contains(list[0]));
    }
    if list.len() > 1 {
        assert(list.contains(list[1]));
    }
}

/// What a verify found, or why a download stopped, is said: what went wrong as a danger.
pub proof fn the_banner_says_what_went_wrong(
    banner: &DownloadBanner,
    message: Option<(String, Tone)>,
)
    requires
        call_ensures(DownloadBanner::message, (banner,), message),
    ensures
        banner.is_verify && (banner.result matches Some(Ok(_))) ==> message == Some(
            (banner.result->0->Ok_0, Tone::Verdigris),
        ),
        banner.is_verify && (banner.result matches Some(Err(_))) ==> message == Some(
            (banner.result->0->Err_0, Tone::Danger),
        ),
        banner.is_verify && banner.result is None ==> message is None,
        !banner.is_verify && !banner.running && banner.error is Some ==> message == Some(
            (banner.error->0, Tone::Danger),
        ),
        !banner.is_verify && (banner.running || banner.error is None) ==> message is None,
{
}

/// The bytes that were done stand before those that there are, each as a size; before the first
/// report there is nothing to show.
pub proof fn the_banner_shows_the_bytes(
    banner: &DownloadBanner,
    text: String,
    done: String,
    total: String,
    bytes: (u64, u64),
    line: FileLine,
    title: String,
)
    requires
        call_ensures(DownloadBanner::bytes, (banner,), bytes),
        call_ensures(DownloadBanner::transferred, (banner,), text),
        call_ensures(crate::helpers::human_bytes, (bytes.0,), done),
        call_ensures(crate::helpers::human_bytes, (bytes.1,), total),
        call_ensures(DownloadBanner::file_line, (banner,), line),
        call_ensures(DownloadBanner::title, (banner,), title),
    ensures
        banner.progress matches Some(progress) ==> bytes == (
            progress.done_bytes,
            progress.total_bytes,
        ),
        banner.progress is None ==> bytes == (0u64, 0u64),
        bytes.1 > 0 ==> text@ == done@ + " / "@ + total@,
        bytes.1 == 0 ==> text@ == "—"@,
        (banner.progress matches Some(progress) && 0 < progress.current_file@.len() <= 42) ==> (
        line matches FileLine::File(name) && name@ == banner.progress->0.current_file@),
        banner.progress is None && banner.running ==> line is Initializing,
        banner.progress is None && !banner.running ==> line is Nothing,
        banner.name@.len() <= 26 ==> title@ == banner.name@,
{
}

/// The time that is left is told in seconds below a minute, in minutes and seconds below an hour,
/// else in hours and minutes, the smaller of the two with two digits.
pub proof fn the_time_left_is_told(
    seconds: u64,
    text: String,
    large: nat,
    small: nat,
    a: char,
    b: char,
)
    requires
        call_ensures(format_eta, (seconds,), text),
        small < 60,
        a as int == '0' as int + small / 10,
        b as int == '0' as int + small % 10,
    ensures
        seconds < 60 ==> text@ == decimal_text(seconds as nat) + "s"@,
        60 <= seconds < 3600 && seconds == large * 60 + small ==> text@ == decimal_text(large)
            + "m "@ + seq![a, b] + "s"@,
        seconds >= 3600 && large * 3600 + small * 60 <= seconds < large * 3600 + small * 60 + 60
            ==> text@ == decimal_text(large) + "h "@ + seq![a, b] + "m"@,
{
    let n = seconds as nat;
    assert(a == crate::text::digit(small / 10));
    assert(b == crate::text::digit(small % 10));
    if 60 <= n < 3600 && n == large * 60 + small {
        assert(n / 60 == large && n % 60 == small);
    }
    if n >= 3600 && large * 3600 + small * 60 <= n < large * 3600 + small * 60 + 60 {
        assert(n / 3600 == large && (n % 3600) / 60 == small);
    }
}

/// A running download tells how long it takes as soon as that is known; a paused one is called so.
pub proof fn a_running_download_tells_its_time(
    banner: &DownloadBanner,
    seconds: Option<u64>,
    text: String,
    time: String,
    bytes: (u64, u64),
)
    requires
        call_ensures(DownloadBanner::time_left, (banner, seconds), text),
        seconds is Some ==> call_ensures(format_eta, (seconds->0,), time),
        call_ensures(DownloadBanner::bytes, (banner,), bytes),
    ensures
        banner.running && seconds is Some && bytes.0 < bytes.1 ==> text@ == "~"@ + time@,
        banner.running && (seconds is None || bytes.0 >= bytes.1) ==> text@ == "Calculating…"@,
        !banner.running && !banner.is_verify ==> text@ == "Paused"@,
        !banner.running && banner.is_verify ==> text@ == "—"@,
{
}

} // verus!
