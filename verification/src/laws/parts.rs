//! What the smaller parts promise: addresses, ratings, words and the pieces that others are made of.
use crate::activation::provider_label;
use crate::activation_page::FolderCard;
use crate::catalog::Catalog;
use crate::details::Fact;
use crate::downloads::{JobOrder, QueueEffect};
use crate::downloads_page::{upcoming_artwork, DownloadBanner};
use crate::helpers::{artwork, format_number_with_commas, is_real_game, is_real_game_lowered};
use crate::home::{grid_rating, poster_rating, PosterRow};
use crate::laws::library::{is_runtime, runtimes_are_no_games};
use crate::laws::messages::mentions;
use crate::laws::queue::runs;
use crate::laws::store::{a_kept_place_is_listed_or_the_list_is_full, has_or_is_full};
use crate::laws::text::{
    a_part_is_found_wherever_it_stands, core_is_left, is_padding, is_tight, same_but_for_case,
};
use crate::library::{installed_game, passes_lowered, text_of, LibraryEntry};
use crate::settings_page::{source_pill, ConfigSource};
use crate::shell::{collapses, section_label, SidebarSection};
use crate::state::{
    empty_response_code, DrydockApp, InstalledGame, LibraryFilter, SteamStoreDetails,
};
use crate::steam::copy_names;
use crate::text::{
    cat2, cat3, cat4, cat5, decimal, decimal_text, digit_of, is_ascii_alphanumeric, lowercase,
    push_decimal, to_ascii_lower, to_ascii_upper,
};
use crate::tools::EmuTally;
use crate::types::{ActivationProvider, CatalogApp, StoreCapsule, Tone};
use crate::unlocks::{
    ManifestSet, NamedFile, SweepStage, UnlockSweep, UnlockWriteGuard, UnlockWrites,
};
use crate::updates::UpdateRow;
use std::collections::{BTreeMap, HashSet};
use vstd::prelude::*;

verus! {

broadcast use vstd::std_specs::hash::group_hash_axioms;

/// The address of a picture is that of its app and its file: another app or another file has another
/// address.
pub proof fn a_picture_has_an_address_of_its_own(
    app_id: u32,
    file: &str,
    url: String,
    number: String,
    second: &str,
    other: String,
)
    requires
        call_ensures(artwork, (app_id, file), url),
        call_ensures(decimal, (app_id as u64,), number),
        call_ensures(artwork, (app_id, second), other),
    ensures
        url@ == "https://cdn.cloudflare.steamstatic.com/steam/apps/"@ + number@ + "/"@ + file@,
        url@ == other@ <==> file@ == second@,
{
    let base = "https://cdn.cloudflare.steamstatic.com/steam/apps/"@ + number@ + "/"@;
    if url@ == other@ {
        assert(url@.len() == base.len() + file@.len());
        assert(other@.len() == base.len() + second@.len());
        assert(file@ =~= url@.skip(base.len() as int));
        assert(second@ =~= other@.skip(base.len() as int));
    }
}

/// Posters and banners are of the app that they stand for, wherever they are shown; a capsule's own
/// picture is the last resort.
pub proof fn posters_are_of_their_app(
    capsule: &StoreCapsule,
    poster: [String; 3],
    banner: [String; 2],
    entry: &LibraryEntry,
    shown: [String; 3],
    wide: [String; 2],
    download: &DownloadBanner,
    running: [String; 3],
    app_id: u32,
    waiting: [String; 2],
    of_capsule: String,
    of_entry: String,
    of_download: String,
    of_waiting: String,
)
    requires
        call_ensures(StoreCapsule::poster_artwork, (capsule,), poster),
        call_ensures(StoreCapsule::banner_artwork, (capsule,), banner),
        call_ensures(LibraryEntry::poster_artwork, (entry,), shown),
        call_ensures(LibraryEntry::banner_artwork, (entry,), wide),
        call_ensures(DownloadBanner::artwork, (download,), running),
        call_ensures(upcoming_artwork, (app_id,), waiting),
        call_ensures(artwork, (capsule.app_id, "header.jpg"), of_capsule),
        call_ensures(artwork, (entry.app_id, "library_hero.jpg"), of_entry),
        call_ensures(artwork, (download.app_id, "header.jpg"), of_download),
        call_ensures(artwork, (app_id, "header.jpg"), of_waiting),
    ensures
        poster@[1]@ == of_capsule@,
        poster@[2] == capsule.header_image_url,
        banner@[1] == capsule.header_image_url,
        shown@[1]@ == of_entry@,
        wide@[0]@ == of_entry@,
        running@[0]@ == of_download@,
        waiting@[0]@ == of_waiting@,
{
}

/// Ratings come round after ten posters.
pub proof fn ratings_come_round(
    row: PosterRow,
    at: usize,
    rating: &'static str,
    later: usize,
    again: &'static str,
    app_id: u32,
    column: usize,
    grid: &'static str,
    same: &'static str,
)
    requires
        call_ensures(poster_rating, (row, at), rating),
        later == at + 10,
        call_ensures(poster_rating, (row, later), again),
        app_id + column <= usize::MAX,
        call_ensures(grid_rating, (app_id, column), grid),
        call_ensures(poster_rating, (PosterRow::Featured, (app_id + column) as usize), same),
    ensures
        again@ == rating@,
        grid@ == same@,
{
}

/// A game is whatever is none of Steam's runtimes, whether its name was lowered before or not.
pub proof fn runtimes_are_told_from_games(
    app_id: u32,
    name: &str,
    genuine: bool,
    lower: &str,
    lowered: bool,
)
    requires
        call_ensures(is_real_game, (app_id, name), genuine),
        lower@ == lowercase(name@),
        call_ensures(is_real_game_lowered, (app_id, lower), lowered),
    ensures
        genuine <==> !is_runtime(app_id, name@),
        lowered == genuine,
{
    runtimes_are_no_games(app_id, name@);
}

/// A number with commas has the digits of the number, in their order.
pub proof fn commas_change_no_digit(value: usize, text: String, grouped: String)
    requires
        call_ensures(format_number_with_commas, (value,), text),
        call_ensures(crate::helpers::group_thousands, (value,), grouped),
    ensures
        text@ == grouped@,
{
}

/// A game passes the filter of the library where it is on the filter's side and its lowered name
/// holds the term.
pub proof fn the_lowered_name_is_searched(
    filter: LibraryFilter,
    installed: bool,
    lower: &str,
    term: &str,
    shown: bool,
)
    requires
        call_ensures(passes_lowered, (filter, installed, lower, term), shown),
    ensures
        shown <==> (filter == LibraryFilter::Installed ==> installed) && (filter
            == LibraryFilter::Available ==> !installed) && (term@.len() == 0 || exists|
            a: Seq<char>,
            b: Seq<char>,
        | lower@ == #[trigger] (a + term@ + b)),
{
    a_part_is_found_wherever_it_stands(lower@, term@);
}

/// A table gives what it holds under a number, and nothing under another.
pub proof fn tables_give_what_they_hold(
    paths: &BTreeMap<u32, String>,
    games: &BTreeMap<u32, InstalledGame>,
    app_id: u32,
    path: Option<String>,
    game: Option<InstalledGame>,
    names: &Vec<String>,
    copy: Vec<String>,
)
    requires
        call_ensures(text_of, (paths, app_id), path),
        call_ensures(installed_game, (games, app_id), game),
        call_ensures(copy_names, (names,), copy),
    ensures
        path is Some <==> paths@.contains_key(app_id),
        path matches Some(path) ==> paths@[app_id] == path,
        game is Some <==> games@.contains_key(app_id),
        game matches Some(game) ==> games@[app_id] == game,
        copy@ == names@,
{
}

/// The files of a finished download are looked for once at a time.
pub proof fn a_download_is_looked_at_once(
    app: &mut DrydockApp,
    first: bool,
    again: &mut DrydockApp,
    second: bool,
)
    requires
        call_ensures(DrydockApp::start_download_install_detect, (app,), first),
        *old(again) == *final(app),
        call_ensures(DrydockApp::start_download_install_detect, (again,), second),
    ensures
        first <==> !old(app).side_jobs.download_install,
        !second,
        final(app).side_jobs.download_install,
        final(app).side_jobs.add_game == old(app).side_jobs.add_game,
{
}

/// An update of a game names the game, and starts where it came to the front and nothing runs.
pub proof fn an_update_starts_or_waits(
    app: &mut DrydockApp,
    app_id: u32,
    effect: QueueEffect,
    written: Result<(), String>,
    order: Option<JobOrder>,
    shown: String,
)
    requires
        call_ensures(DrydockApp::update_drydock_game, (app, app_id, effect, written), order),
        call_ensures(Catalog::app_display_name, (&old(app).catalog, app_id), shown),
    ensures
        mentions(final(app).line.text@, shown@),
        !final(app).line.error,
        effect == QueueEffect::Unchanged || effect == QueueEffect::PersistOnly ==> order is None
            && final(app).downloads == old(app).downloads,
        effect == QueueEffect::StartFront && !runs(*old(app))
            && old(app).settings.download_queue@.len() > 0 ==> order is Some && order->0.app_id
            == old(app).settings.download_queue@[0].app_id,
        effect == QueueEffect::SwitchToFront && runs(*old(app)) ==> order is None
            && final(app).downloads.switch_pending && final(app).downloads.job->0.cancel,
        final(app).settings == old(app).settings,
{
    let name = shown@;
    assert(final(app).line.text@ == "Checking "@ + name + " for updates…"@);
}

/// A list that takes the place of another is told to have changed exactly where it is no copy.
pub proof fn a_copy_of_a_list_is_no_change(
    catalog: &mut Catalog,
    apps: Vec<CatalogApp>,
    changed: bool,
)
    requires
        old(catalog).wf(),
        call_ensures(Catalog::replace_apps, (catalog, apps), changed),
    ensures
        final(catalog).apps == apps,
        apps@ == old(catalog).apps@ ==> !changed,
        apps@.len() != old(catalog).apps@.len() ==> changed,
        final(catalog).fixes == old(catalog).fixes,
        final(catalog).repacks == old(catalog).repacks,
{
    reveal(Catalog::replaced);
}

/// A search box without anything typed, or with the name of the chosen game, shows no list, unless it
/// may be empty.
pub proof fn an_idle_box_shows_no_list(
    query: &str,
    selected: Option<String>,
    allow_empty: bool,
    collapsed: bool,
)
    requires
        call_ensures(collapses, (query, selected, allow_empty), collapsed),
    ensures
        allow_empty ==> !collapsed,
        !allow_empty && query@.len() == 0 ==> collapsed,
        !allow_empty && (selected matches Some(name) && name@ == query@) ==> collapsed,
        query@.len() > 0 && selected is None ==> !collapsed,
        query@.len() > 0 && (selected matches Some(name) && name@ != query@) ==> !collapsed,
{
}

/// The sections and the providers have names of their own.
pub proof fn sections_and_providers_are_named(
    a: SidebarSection,
    one: &'static str,
    p: ActivationProvider,
    two: &'static str,
)
    requires
        call_ensures(section_label, (a,), one),
        call_ensures(provider_label, (p,), two),
    ensures
        a == SidebarSection::Storefront ==> one@ == "STOREFRONT"@,
        a == SidebarSection::Services ==> one@ == "SERVICES & TOOLS"@,
        a == SidebarSection::System ==> one@ == "SYSTEM"@,
        p == ActivationProvider::Steam ==> two@ == "STEAM"@,
        p == ActivationProvider::Ubisoft ==> two@ == "UBISOFT"@,
        p == ActivationProvider::Ea ==> two@ == "EA"@,
{
}

/// A setting that is not set is a danger; every other tells where it comes from.
pub proof fn a_source_is_told(source: ConfigSource, pill: (&'static str, Tone))
    requires
        call_ensures(source_pill, (source,), pill),
    ensures
        pill.1 == Tone::Danger <==> source == ConfigSource::Unset,
        source == ConfigSource::Environment ==> pill.0@ == "Env Override"@,
        source == ConfigSource::UserSettings ==> pill.0@ == "User Settings"@,
        source == ConfigSource::BuildDefault ==> pill.0@ == "Built-in"@,
{
}

/// A game whose updates are allowed and one whose updates are blocked are told apart.
pub proof fn a_block_is_told(row: &UpdateRow, pill: (&'static str, Tone), label: String, number: String)
    requires
        call_ensures(UpdateRow::state_pill, (row,), pill),
        call_ensures(UpdateRow::id_label, (row,), label),
        call_ensures(decimal, (row.app_id as u64,), number),
    ensures
        row.allowed ==> pill.0@ == "UPDATES ALLOWED"@ && pill.1 == Tone::AccentSoft,
        !row.allowed ==> pill.0@ == "🛡 UPDATES BLOCKED"@ && pill.1 == Tone::Danger,
        label@ == "APP "@ + number@,
{
}

/// Work that needs Steam gets its folder, or the user is told that it is missing.
pub proof fn steam_is_asked_for(app: &mut DrydockApp, message: &str, root: Option<String>, fields: [String; 8], i: int)
    requires
        call_ensures(DrydockApp::steam_root_or_error, (app, message), root),
        call_ensures(empty_response_code, (), fields),
    ensures
        root == old(app).steam.root,
        root is None ==> final(app).line.error && final(app).line.text@ == message@,
        root is Some ==> final(app).line == old(app).line,
        final(app).settings == old(app).settings,
        0 <= i < 8 ==> fields@[i]@.len() == 0,
{
}

/// A Ubisoft folder can be gone on with where a path is typed and nothing runs.
pub proof fn a_typed_ubisoft_folder_is_ready(app: &DrydockApp, card: FolderCard)
    requires
        call_ensures(DrydockApp::activation_ubisoft_body, (app,), card),
    ensures
        card.ready <==> !is_padding(app.activation.path@) && !app.activation_jobs.ubisoft_prepare,
        card.busy == app.activation_jobs.ubisoft_prepare,
        card.has_game <==> app.selected_app is Some,
        card.verify_line is None,
        card.loading is Some <==> app.selected_app is None && app.catalog.apps@.len() == 0,
{
    crate::text::blank_means_trimmed_away(app.activation.path@);
}

proof fn a_mention_stays(text: Seq<char>, part: Seq<char>, more: Seq<char>)
    requires
        mentions(text, part),
    ensures
        mentions(text + more, part),
{
    let (a, b) = choose|a: Seq<char>, b: Seq<char>| text == #[trigger] (a + part + b);
    assert(text + more =~= a + part + (b + more));
}

proof fn a_mention_at_the_end(head: Seq<char>, part: Seq<char>)
    ensures
        mentions(head + part, part),
{
    assert(head + part =~= head + part + Seq::<char>::empty());
}

proof fn two_pieces(head: Seq<char>, a: Seq<char>, b: Seq<char>)
    ensures
        mentions(head + a + b, a + b),
{
    assert(head + a + b =~= head + (a + b) + Seq::<char>::empty());
}

proof fn four_pieces(head: Seq<char>, a: Seq<char>, b: Seq<char>, c: Seq<char>, d: Seq<char>)
    ensures
        mentions(head + a + b + c + d, a + b + c + d),
{
    assert(head + a + b + c + d =~= head + (a + b + c + d) + Seq::<char>::empty());
}

/// What goes beyond the plain files is told: how many pictures, and the framework.
proof fn extras_are_told(tally: &EmuTally)
    ensures
        tally.images > 0 ==> mentions(
            tally.extras_text(),
            decimal_text(tally.images as nat) + " achievement image(s)"@,
        ),
        tally.reframework ==> mentions(tally.extras_text(), "REFramework"@),
        tally.images == 0 && !tally.reframework ==> tally.extras_text().len() == 0,
{
    reveal_with_fuel(crate::text::joined, 3);
    let images = decimal_text(tally.images as nat) + " achievement image(s)"@;
    let framework = "REFramework"@;
    let plus = " + "@;
    let extras = tally.extras_text();
    if tally.images > 0 && tally.reframework {
        assert(tally.extra_parts() =~= seq![images, framework]);
        assert(tally.extra_parts().drop_last() =~= seq![images]);
        assert(extras =~= plus + images + (plus + framework));
        assert(extras =~= (plus + images + plus) + framework + Seq::<char>::empty());
    } else if tally.images > 0 {
        assert(tally.extra_parts() =~= seq![images]);
        assert(extras =~= plus + images + Seq::<char>::empty());
    } else if tally.reframework {
        assert(tally.extra_parts() =~= seq![framework]);
        assert(extras =~= plus + framework + Seq::<char>::empty());
    }
}

/// The note on the files of an emulator counts them, and names the app and the folder.
pub proof fn the_emulator_counts_its_files(tally: &EmuTally, folder: &str, note: String)
    requires
        call_ensures(EmuTally::deployed_note, (tally, folder), note),
    ensures
        mentions(note@, folder@),
        mentions(note@, decimal_text(tally.app_id as nat)),
        mentions(note@, decimal_text(tally.configs as nat) + " configs + "@ + decimal_text(
            tally.libraries as nat,
        ) + " DLLs"@),
        mentions(note@, decimal_text(tally.achievements as nat) + " achievement(s)."@),
        tally.images > 0 ==> mentions(note@, decimal_text(tally.images as nat)
            + " achievement image(s)"@),
        tally.reframework ==> mentions(note@, "REFramework"@),
{
    let app = decimal_text(tally.app_id as nat);
    let configs = decimal_text(tally.configs as nat);
    let libraries = decimal_text(tally.libraries as nat);
    let extras = tally.extras_text();
    let achievements = decimal_text(tally.achievements as nat);
    let t1 = "Cracked App "@ + app;
    let t2 = t1 + " ("@ + tally.arch@ + ") into "@;
    let t3 = t2 + folder@;
    let t4 = t3 + " — "@;
    let t5 = t4 + configs + " configs + "@ + libraries + " DLLs"@;
    let t6 = t5 + extras;
    let t7 = t6 + ", "@;
    assert(note@ == t7 + achievements + " achievement(s)."@);
    let counts = configs + " configs + "@ + libraries + " DLLs"@;
    a_mention_at_the_end("Cracked App "@, app);
    a_mention_stays(t1, app, " ("@);
    a_mention_stays(t1 + " ("@, app, tally.arch@);
    a_mention_stays(t1 + " ("@ + tally.arch@, app, ") into "@);
    a_mention_stays(t2, app, folder@);
    a_mention_at_the_end(t2, folder@);
    four_pieces(t4, configs, " configs + "@, libraries, " DLLs"@);
    a_mention_stays(t3, app, " — "@);
    a_mention_stays(t3, folder@, " — "@);
    a_mention_stays(t4, app, configs);
    a_mention_stays(t4, folder@, configs);
    a_mention_stays(t4 + configs, app, " configs + "@);
    a_mention_stays(t4 + configs, folder@, " configs + "@);
    a_mention_stays(t4 + configs + " configs + "@, app, libraries);
    a_mention_stays(t4 + configs + " configs + "@, folder@, libraries);
    a_mention_stays(t4 + configs + " configs + "@ + libraries, app, " DLLs"@);
    a_mention_stays(t4 + configs + " configs + "@ + libraries, folder@, " DLLs"@);
    to_the_end(t5, extras, achievements, app);
    to_the_end(t5, extras, achievements, folder@);
    to_the_end(t5, extras, achievements, counts);
    two_pieces(t7, achievements, " achievement(s)."@);
    extras_are_told(tally);
    if tally.images > 0 {
        let images = decimal_text(tally.images as nat) + " achievement image(s)"@;
        the_extras_stay(t5, extras, achievements, images);
    }
    if tally.reframework {
        the_extras_stay(t5, extras, achievements, "REFramework"@);
    }
}

proof fn to_the_end(text: Seq<char>, extras: Seq<char>, number: Seq<char>, part: Seq<char>)
    requires
        mentions(text, part),
    ensures
        mentions(text + extras + ", "@ + number + " achievement(s)."@, part),
{
    a_mention_stays(text, part, extras);
    a_mention_stays(text + extras, part, ", "@);
    a_mention_stays(text + extras + ", "@, part, number);
    a_mention_stays(text + extras + ", "@ + number, part, " achievement(s)."@);
}

proof fn the_extras_stay(text: Seq<char>, extras: Seq<char>, number: Seq<char>, part: Seq<char>)
    requires
        mentions(extras, part),
    ensures
        mentions(text + extras + ", "@ + number + " achievement(s)."@, part),
{
    let (a, b) = choose|a: Seq<char>, b: Seq<char>| extras == #[trigger] (a + part + b);
    assert(text + extras =~= (text + a) + part + b);
    a_mention_stays(text + extras, part, ", "@);
    a_mention_stays(text + extras + ", "@, part, number);
    a_mention_stays(text + extras + ", "@ + number, part, " achievement(s)."@);
}

/// The note on the archive names the app and the file.
pub proof fn the_archive_names_its_file(tally: &EmuTally, path: &str, zipped: String)
    requires
        call_ensures(EmuTally::zipped_note, (tally, path), zipped),
    ensures
        exists|rest: Seq<char>|
            zipped@ == #[trigger] ("Crack ZIP for App "@ + decimal_text(tally.app_id as nat)
                + " ("@ + tally.arch@ + ") saved to "@ + path@ + " — "@ + decimal_text(
                tally.configs as nat,
            ) + " config files + "@ + decimal_text(tally.libraries as nat) + " DLLs"@ + rest),
        exists|start: Seq<char>|
            zipped@ == #[trigger] (start + decimal_text(tally.depots as nat) + " depot(s), "@
                + decimal_text(tally.extras as nat) + " DLC(s), "@ + decimal_text(
                tally.achievements as nat,
            ) + " achievement(s)."@),
{
    let head = "Crack ZIP for App "@ + decimal_text(tally.app_id as nat) + " ("@ + tally.arch@
        + ") saved to "@ + path@ + " — "@ + decimal_text(tally.configs as nat)
        + " config files + "@ + decimal_text(tally.libraries as nat) + " DLLs"@;
    let extras = tally.extras_text();
    let a = decimal_text(tally.depots as nat);
    let b = " depot(s), "@;
    let c = decimal_text(tally.extras as nat);
    let d = " DLC(s), "@;
    let e = decimal_text(tally.achievements as nat);
    let f = " achievement(s)."@;
    assert(zipped@ == head + extras + ". "@ + a + b + c + d + e + f);
    gathered(head, extras, ". "@, a, b, c, d, e, f);
    assert(zipped@ == head + (extras + ". "@ + a + b + c + d + e + f));
}

proof fn gathered(
    head: Seq<char>,
    x: Seq<char>,
    y: Seq<char>,
    a: Seq<char>,
    b: Seq<char>,
    c: Seq<char>,
    d: Seq<char>,
    e: Seq<char>,
    f: Seq<char>,
)
    ensures
        head + x + y + a + b + c + d + e + f == head + (x + y + a + b + c + d + e + f),
{
    assert(head + x + y =~= head + (x + y));
    assert(head + (x + y) + a =~= head + (x + y + a));
    assert(head + (x + y + a) + b =~= head + (x + y + a + b));
    assert(head + (x + y + a + b) + c =~= head + (x + y + a + b + c));
    assert(head + (x + y + a + b + c) + d =~= head + (x + y + a + b + c + d));
    assert(head + (x + y + a + b + c + d) + e =~= head + (x + y + a + b + c + d + e));
    assert(head + (x + y + a + b + c + d + e) + f =~= head + (x + y + a + b + c + d + e + f));
}

/// The protection of a game is named as the store names it, without the space around it, and said
/// to need an activation; without a name it is Denuvo.
pub proof fn a_protection_is_named(
    details: &SteamStoreDetails,
    facts: Vec<Fact>,
    features: Vec<Fact>,
    a: Seq<char>,
    core: Seq<char>,
    b: Seq<char>,
)
    requires
        call_ensures(SteamStoreDetails::details_store_sidebar, (details, true), facts),
        call_ensures(SteamStoreDetails::details_features, (details, true), features),
        details.drm_notice@ == a + core + b,
        is_padding(a),
        is_padding(b),
        is_tight(core),
    ensures
        core.len() > 0 ==> facts@[4].value@ == core + " — activation required"@
            && features@[2].value@ == core + " — Drydock activation required"@,
        core.len() == 0 ==> facts@[4].value@ == "Denuvo — activation required"@
            && features@[2].value@ == "Denuvo Anti-Tamper — Drydock activation required"@,
{
    core_is_left(a, core, b);
    let one = crate::details::fact_models(facts@);
    let two = crate::details::fact_models(features@);
    assert(one.len() == facts@.len());
    assert(two.len() == features@.len());
    assert(one[4] == (facts@[4].label@, facts@[4].value@, facts@[4].tone));
    assert(two[2] == (features@[2].label@, features@[2].value@, features@[2].tone));
}

/// The page of a game is headed by the name that the catalog has of it.
pub proof fn the_page_is_headed_by_the_name(
    app: &DrydockApp,
    heading: String,
    app_id: u32,
    m: int,
)
    requires
        call_ensures(DrydockApp::details_heading, (app,), heading),
        app.details.app_id == Some(app_id),
        0 <= m < app.catalog.apps@.len(),
        app.catalog.apps@[m].app_id == app_id,
        forall|k: int| 0 <= k < m ==> (#[trigger] app.catalog.apps@[k]).app_id != app_id,
    ensures
        heading@ == app.catalog.apps@[m].name@,
{
    let ids = crate::catalog::app_ids(app.catalog.apps@);
    assert(ids[m] == app_id);
    assert(ids.contains(app_id));
    assert forall|i: int| #[trigger] crate::catalog::first_at(ids, app_id, i) implies i == m by {
        if i < m {
            assert(app.catalog.apps@[i].app_id != app_id);
        }
        if i > m {
            assert(ids[m] != app_id);
        }
    }
}

/// A game that the catalog does not have is headed by the name that Steam has of it; one that
/// neither has gets a plain heading.
pub proof fn an_unlisted_game_is_headed_by_steam(
    app: &DrydockApp,
    heading: String,
    app_id: u32,
    m: int,
)
    requires
        call_ensures(DrydockApp::details_heading, (app,), heading),
        app.details.app_id == Some(app_id),
        forall|k: int|
            0 <= k < app.catalog.apps@.len() ==> (#[trigger] app.catalog.apps@[k]).app_id != app_id,
        0 <= m < app.steam.manifests@.len(),
        app.steam.manifests@[m].app_id == app_id,
        forall|k: int| 0 <= k < m ==> (#[trigger] app.steam.manifests@[k]).app_id != app_id,
    ensures
        heading@ == app.steam.manifests@[m].name@,
{
    let apps = crate::catalog::app_ids(app.catalog.apps@);
    if apps.contains(app_id) {
        let k = choose|k: int| 0 <= k < apps.len() && apps[k] == app_id;
        assert(app.catalog.apps@[k].app_id == app_id);
    }
    let ids = crate::steam::manifest_ids(app.steam.manifests@);
    assert(ids[m] == app_id);
    assert(ids.contains(app_id));
    assert forall|i: int| #[trigger] crate::catalog::first_at(ids, app_id, i) implies i == m by {
        if i < m {
            assert(app.steam.manifests@[i].app_id != app_id);
        }
        if i > m {
            assert(ids[m] != app_id);
        }
    }
}

/// The six games of the watch list are the first of the catalog that it has, and the line counts the
/// tables.
pub proof fn the_watched_games_are_shown(
    catalog: &Catalog,
    places: Vec<usize>,
    line: String,
    at: int,
)
    requires
        call_ensures(Catalog::watched_games, (catalog,), places),
        call_ensures(Catalog::watch_line, (catalog,), line),
        catalog.apps@.len() <= usize::MAX,
        0 <= at < catalog.apps@.len(),
        catalog.denuvo_appids@.contains(catalog.apps@[at].app_id),
    ensures
        has_or_is_full(places@, at, 6),
        line@ == decimal_text(catalog.repackers_by_app@.len()) + " repacks · "@ + decimal_text(
            catalog.denuvo_appids@.len(),
        ) + " with Denuvo"@,
{
    let keep = |k: int| catalog.denuvo_appids@.contains(catalog.apps@[k].app_id);
    assert(keep(at));
    a_kept_place_is_listed_or_the_list_is_full(catalog.apps@.len(), keep, 6, at);
}

/// A right that was left behind is taken back: the one who had it writes no more.
pub proof fn a_reclaimed_right_ends_the_old_one(
    writes: &mut UnlockWrites,
    guard: UnlockWriteGuard,
    old_guard: UnlockWriteGuard,
    after: &UnlockWrites,
    apps: &HashSet<u32>,
    cleared: &mut UnlockWrites,
    app_id: u32,
)
    requires
        call_ensures(UnlockWrites::reclaim, (writes,), guard),
        old(writes).right().admits(old_guard),
        *after == *final(writes),
        call_ensures(UnlockWrites::touched_apps, (after,), apps),
        *old(cleared) == *final(writes),
        call_ensures(UnlockWrites::clear_touched, (cleared,), ()),
    ensures
        final(writes).right().admits(guard),
        !final(writes).right().admits(old_guard),
        final(writes).is_held(),
        apps@.contains(app_id) <==> old(writes).touched_set().contains(app_id),
        !final(cleared).touched_set().contains(app_id),
        final(cleared).right().admits(guard),
{
}

/// A sweep works on the first app without a verdict, and pauses before every app but the first.
pub proof fn a_sweep_works_through_its_apps(
    sweep: &UnlockSweep,
    current: Option<u32>,
    pause: bool,
    done: &mut UnlockSweep,
    writes: &UnlockWrites,
    guard: &UnlockWriteGuard,
    written: bool,
)
    requires
        sweep.wf(),
        call_ensures(UnlockSweep::current_app, (sweep,), current),
        call_ensures(UnlockSweep::pauses, (sweep,), pause),
        old(done).wf(),
        old(done).stage == SweepStage::Install,
        call_ensures(UnlockSweep::installed, (done, writes, guard, written), ()),
    ensures
        current is None <==> sweep.verdicts@.len() == sweep.apps@.len(),
        current is Some ==> current == Some(sweep.apps@[sweep.verdicts@.len() as int]),
        pause <==> sweep.verdicts@.len() > 0,
        final(done).verdicts@.len() == old(done).verdicts@.len() + 1,
        written ==> final(done).verdicts@.last() == crate::unlocks::UnlockVerdict::Updated,
        !written ==> final(done).verdicts@.last() == crate::unlocks::UnlockVerdict::Failed,
{
}

/// A file that is put into a set is there, in the place of the one of its name; every other stays.
pub proof fn a_file_takes_the_place_of_its_name(
    set: &mut ManifestSet,
    file: NamedFile,
    fresh: ManifestSet,
    empty: bool,
    name: Seq<char>,
)
    requires
        old(set).wf(),
        call_ensures(ManifestSet::insert, (set, file), ()),
        call_ensures(ManifestSet::new, (), fresh),
        call_ensures(ManifestSet::is_empty, (&fresh,), empty),
    ensures
        final(set)@.contains_key(file.name@) && final(set)@[file.name@] == file.bytes@,
        name != file.name@ ==> final(set)@.contains_key(name) == old(set)@.contains_key(name)
            && final(set)@[name] == old(set)@[name],
        empty,
        fresh.files@.len() == 0,
{
}

/// Texts are put together in their order.
pub proof fn texts_are_put_together_in_order(
    a: &str,
    b: &str,
    c: &str,
    d: &str,
    e: &str,
    two: String,
    three: String,
    four: String,
    five: String,
    text: &mut String,
    n: u128,
)
    requires
        call_ensures(cat2, (a, b), two),
        call_ensures(cat3, (a, b, c), three),
        call_ensures(cat4, (a, b, c, d), four),
        call_ensures(cat5, (a, b, c, d, e), five),
        call_ensures(push_decimal, (text, n), ()),
    ensures
        two@ == a@ + b@,
        three@ == two@ + c@,
        four@ == three@ + d@,
        five@ == four@ + e@,
        final(text)@ == old(text)@ + decimal_text(n as nat),
{
}

/// A character keeps its letter through a change of its case, and letters and digits are told from
/// the rest.
pub proof fn letters_keep_through_their_case(
    c: char,
    lower: char,
    upper: char,
    alphanumeric: bool,
    n: u8,
    digit: char,
)
    requires
        call_ensures(to_ascii_lower, (c,), lower),
        call_ensures(to_ascii_upper, (c,), upper),
        call_ensures(is_ascii_alphanumeric, (c,), alphanumeric),
        n < 10,
        call_ensures(digit_of, (n,), digit),
    ensures
        same_but_for_case(c, lower),
        same_but_for_case(c, upper),
        !('A' <= lower <= 'Z'),
        !('a' <= upper <= 'z'),
        alphanumeric <==> 'a' <= c <= 'z' || 'A' <= c <= 'Z' || '0' <= c <= '9',
        digit as int == '0' as int + n,
{
}

} // verus!
