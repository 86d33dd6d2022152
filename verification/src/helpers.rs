//! Small decisions and formatting rules that several pages share.
use crate::text::{
    ascii_alphanumeric, ascii_lowercase, ascii_lowered, ascii_upper, blank, cat2, cat3, cat4, chars_of,
    contains, contains_text, decimal, decimal_text, digit, digit_of, ends_with, is_ascii_alphanumeric,
    is_blank, join, joined, lowercase, no_text, push_decimal, same_text, starts_with, string_of, texts,
    to_ascii_upper, trim, trimmed, trimmed_end, white_space,
};
use vstd::prelude::*;

verus! {

/// Steam's own runtimes and redistributables: Steamworks Common Redistributables, Steam Linux
/// Runtimes and Proton builds.
pub open spec fn is_tool_app(app_id: u32) -> bool {
    app_id == 228980 || app_id == 1070560 || app_id == 1391110 || app_id == 1628350
}

/// Whether a lowercased name is that of one of Steam's runtimes or redistributables.
pub open spec fn is_tool_name(lower: Seq<char>) -> bool {
    ||| contains_text(lower, "redistributable"@)
    ||| contains_text(lower, "steam linux runtime"@)
    ||| "proton"@.is_prefix_of(lower)
}

/// Whether an installed app with this lowercased name is a game.
pub fn is_real_game_lowered(app_id: u32, lower: &str) -> (result: bool)
    ensures
        result == (!is_tool_app(app_id) && !is_tool_name(lower@)),
{
    if app_id == 228980 || app_id == 1070560 || app_id == 1391110 || app_id == 1628350 {
        return false;
    }
    !(contains(lower, "redistributable") || contains(lower, "steam linux runtime") || starts_with(
        lower,
        "proton",
    ))
}

/// Whether an installed app is a game rather than one of Steam's own runtimes.
pub fn is_real_game(app_id: u32, name: &str) -> (result: bool)
    ensures
        result == (!is_tool_app(app_id) && !is_tool_name(lowercase(name@))),
{
    let lower = name.to_lowercase();
    is_real_game_lowered(app_id, lower.as_str())
}

/// The architecture of a Windows executable.
#[derive(Clone, Copy, Debug, PartialEq, Eq, Structural)]
pub enum PeArch {
    X64,
    X86,
}

/// The architecture that a depot path gives away: a Windows exe or dll under a path that names a
/// word size.
pub open spec fn arch_of_path(path: Seq<char>) -> Option<PeArch> {
    let lower = ascii_lowered(path);
    if !".exe"@.is_suffix_of(lower) && !".dll"@.is_suffix_of(lower) {
        None
    } else if contains_text(lower, "win64"@) || contains_text(lower, "bin64"@) || contains_text(
        lower,
        "x64"@,
    ) {
        Some(PeArch::X64)
    } else if contains_text(lower, "win32"@) || contains_text(lower, "bin32"@) || contains_text(
        lower,
        "x86"@,
    ) {
        Some(PeArch::X86)
    } else {
        None
    }
}

/// The architecture that the first telling path gives away.
pub open spec fn arch_of_paths(paths: Seq<Seq<char>>) -> Option<PeArch>
    decreases paths.len(),
{
    if paths.len() == 0 {
        None
    } else if arch_of_path(paths[0]) is Some {
        arch_of_path(paths[0])
    } else {
        arch_of_paths(paths.drop_first())
    }
}

fn arch_from_path(path: &str) -> (arch: Option<PeArch>)
    ensures
        arch == arch_of_path(path@),
{
    let lower = ascii_lowercase(path);
    let lower = lower.as_str();
    if !ends_with(lower, ".exe") && !ends_with(lower, ".dll") {
        return None;
    }
    if contains(lower, "win64") || contains(lower, "bin64") || contains(lower, "x64") {
        return Some(PeArch::X64);
    }
    if contains(lower, "win32") || contains(lower, "bin32") || contains(lower, "x86") {
        return Some(PeArch::X86);
    }
    None
}

/// The architecture told by a depot's file layout, read in manifest order: the first exe or dll
/// whose path names a word size decides. `paths` holds the files of all manifests in that order.
pub fn arch_from_depot_paths(paths: &Vec<String>) -> (arch: Option<PeArch>)
    ensures
        arch == arch_of_paths(texts(paths@)),
{
    let ghost all = texts(paths@);
    assert(all.skip(0) =~= all);
    let mut i: usize = 0;
    while i < paths.len()
        invariant
            i <= paths@.len(),
            all == texts(paths@),
            arch_of_paths(all) == arch_of_paths(all.skip(i as int)),
        decreases paths@.len() - i,
    {
        let arch = arch_from_path(paths[i].as_str());
        assert(all.skip(i as int)[0] == paths@[i as int]@);
        assert(all.skip(i as int).drop_first() =~= all.skip(i + 1));
        if arch.is_some() {
            return arch;
        }
        i += 1;
    }
    None
}

/// A number in decimal, its digits grouped by threes from the right.
pub open spec fn grouped_text(n: nat) -> Seq<char>
    decreases n,
{
    if n < 1000 {
        decimal_text(n)
    } else {
        grouped_text(n / 1000) + ","@ + three_digits(n % 1000)
    }
}

/// A number below a thousand with leading zeros.
pub open spec fn three_digits(n: nat) -> Seq<char> {
    seq![digit(n / 100), digit(n / 10 % 10), digit(n % 10)]
}

fn push_grouped(text: &mut String, n: u64)
    ensures
        final(text)@ == old(text)@ + grouped_text(n as nat),
    decreases n,
{
    if n < 1000 {
        push_decimal(text, n as u128);
    } else {
        let ghost before = text@;
        push_grouped(text, n / 1000);
        text.append(",");
        let rest: u64 = n % 1000;
        text.push(digit_of((rest / 100) as u8));
        text.push(digit_of((rest / 10 % 10) as u8));
        text.push(digit_of((rest % 10) as u8));
        assert(text@ =~= before + (grouped_text((n / 1000) as nat) + ","@ + three_digits(
            rest as nat,
        )));
    }
}

/// A count with commas between its groups of three digits (70616 gives "70,616").
pub fn format_number_with_commas(n: usize) -> (text: String)
    ensures
        text@ == grouped_text(n as nat),
{
    let mut text = String::new();
    push_grouped(&mut text, n as u64);
    assert(text@ =~= grouped_text(n as nat));
    text
}

/// A count with commas between its groups of three digits.
pub fn group_thousands(value: usize) -> (text: String)
    ensures
        text@ == grouped_text(value as nat),
{
    format_number_with_commas(value)
}

/// The last `max` characters of a text, after an ellipsis where some are missing.
pub open spec fn tail_text(text: Seq<char>, max: nat) -> Seq<char> {
    if text.len() <= max {
        text
    } else {
        "…"@ + text.skip(text.len() - max)
    }
}

/// The last `max` characters of a text, after an ellipsis where some are missing.
pub fn tail(text: &str, max: usize) -> (result: String)
    ensures
        result@ == tail_text(text@, max as nat),
{
    let list = chars_of(text);
    if list.len() <= max {
        return text.to_owned();
    }
    let start: usize = list.len() - max;
    let mut result = "…".to_owned();
    let mut i: usize = start;
    while i < list.len()
        invariant
            start <= i <= list@.len(),
            result@ == "…"@ + list@.subrange(start as int, i as int),
        decreases list@.len() - i,
    {
        result.push(list[i]);
        assert(list@.subrange(start as int, i + 1) =~= list@.subrange(start as int, i as int).push(
            list@[i as int],
        ));
        i += 1;
    }
    assert(list@.subrange(start as int, i as int) =~= list@.skip(start as int));
    result
}

/// A text cut to at most `max` characters, the last an ellipsis where something was cut, with no
/// white space before it. Where there is no room for the ellipsis, nothing is left.
pub open spec fn ellipsized(text: Seq<char>, max: nat) -> Seq<char> {
    if text.len() <= max {
        text
    } else if max == 0 {
        Seq::empty()
    } else {
        trimmed_end(text.take(max - 1)) + "…"@
    }
}

/// Cuts a text to at most `max` characters, appending an ellipsis where it was cut. Keeps status
/// bar messages from overrunning the bar.
pub fn ellipsize(text: &str, max: usize) -> (result: String)
    ensures
        result@ == ellipsized(text@, max as nat),
{
    let list = chars_of(text);
    if list.len() <= max {
        return text.to_owned();
    }
    if max == 0 {
        return String::new();
    }
    let limit: usize = max - 1;
    let mut to: usize = limit;
    let ghost head = list@.take(limit as int);
    assert(head.take(limit as int) =~= head);
    while to > 0 && list[to - 1].is_whitespace()
        invariant
            to <= limit < list@.len(),
            head == list@.take(limit as int),
            trimmed_end(head) == trimmed_end(head.take(to as int)),
        decreases to,
    {
        assert(head.take(to as int).drop_last() =~= head.take(to - 1));
        to -= 1;
    }
    let mut result = String::new();
    let mut i: usize = 0;
    while i < to
        invariant
            i <= to <= limit < list@.len(),
            result@ == list@.take(i as int),
        decreases to - i,
    {
        result.push(list[i]);
        assert(list@.take(i + 1) =~= list@.take(i as int).push(list@[i as int]));
        i += 1;
    }
    assert(head.take(to as int) =~= list@.take(to as int));
    result.append("…");
    result
}

proof fn trimmed_end_is_no_longer(text: Seq<char>)
    ensures
        trimmed_end(text).len() <= text.len(),
    decreases text.len(),
{
    if text.len() > 0 && white_space(text.last()) {
        trimmed_end_is_no_longer(text.drop_last());
    }
}

/// A cut text is never longer than asked for.
pub proof fn ellipsized_text_fits(text: Seq<char>, max: nat)
    ensures
        ellipsized(text, max).len() <= max,
{
    if 0 < max < text.len() {
        reveal_strlit("…");
        trimmed_end_is_no_longer(text.take(max - 1));
    }
}

/// The values in one line, or a word for their absence.
pub fn joined_or_unknown(values: &Vec<String>) -> (text: String)
    ensures
        text@ == (if values@.len() == 0 {
            "Not available"@
        } else {
            joined(texts(values@), ", "@)
        }),
{
    if values.len() == 0 {
        "Not available".to_owned()
    } else {
        join(values, ", ")
    }
}

/// A value, or a word for its absence where it is blank.
pub fn value_or_unknown(value: &str) -> (text: String)
    ensures
        text@ == (if blank(value@) {
            "Not available"@
        } else {
            value@
        }),
{
    if is_blank(value) {
        "Not available".to_owned()
    } else {
        value.to_owned()
    }
}

/// Whether a text is an activation code of the short form: eight ASCII letters and digits.
pub open spec fn short_code(text: Seq<char>) -> bool {
    text.len() == 8 && forall|i: int| 0 <= i < 8 ==> ascii_alphanumeric(#[trigger] text[i])
}

/// Whether a text is an activation code of the short form.
pub fn is_short_activation_code(value: &str) -> (result: bool)
    ensures
        result == short_code(value@),
{
    let list = chars_of(value);
    if list.len() != 8 {
        return false;
    }
    let mut i: usize = 0;
    while i < list.len()
        invariant
            i <= list@.len() == 8,
            list@ == value@,
            forall|k: int| 0 <= k < i ==> ascii_alphanumeric(#[trigger] list@[k]),
        decreases list@.len() - i,
    {
        if !is_ascii_alphanumeric(list[i]) {
            assert(!ascii_alphanumeric(value@[i as int]));
            return false;
        }
        i += 1;
    }
    true
}

/// The ASCII letters and digits of a text, in capitals.
pub open spec fn normalized(text: Seq<char>) -> Seq<char> {
    text.filter(|c: char| ascii_alphanumeric(c)).map_values(|c: char| ascii_upper(c))
}

/// The ASCII letters and digits of a text, in capitals.
fn normalized_chars(value: &str) -> (list: Vec<char>)
    ensures
        list@ == normalized(value@),
{
    let all = chars_of(value);
    let ghost keep = |c: char| ascii_alphanumeric(c);
    let mut list: Vec<char> = Vec::new();
    let mut i: usize = 0;
    while i < all.len()
        invariant
            i <= all@.len(),
            keep == (|c: char| ascii_alphanumeric(c)),
            list@ == normalized(all@.take(i as int)),
        decreases all@.len() - i,
    {
        let c = all[i];
        proof {
            reveal(Seq::filter);
            assert(all@.take(i + 1).drop_last() =~= all@.take(i as int));
            let before = all@.take(i as int).filter(keep);
            assert(before.push(c).map_values(|c: char| ascii_upper(c)) =~= before.map_values(
                |c: char| ascii_upper(c),
            ).push(ascii_upper(c)));
        }
        if is_ascii_alphanumeric(c) {
            list.push(to_ascii_upper(c));
        }
        i += 1;
    }
    assert(all@.take(i as int) =~= all@);
    list
}

/// Reduces what was pasted into a response field to the characters of a code.
pub fn normalize_response_fragment(value: &str) -> (text: String)
    ensures
        text@ == normalized(value@),
{
    let list = normalized_chars(value);
    string_of(&list)
}

/// The views of the eight response fields.
pub open spec fn field_texts(fields: [String; 8]) -> Seq<Seq<char>> {
    texts(fields@)
}

/// The fields after a code was spread over them from `start` on, one character each, as far as
/// there are fields.
pub open spec fn distributed(
    fields: Seq<Seq<char>>,
    start: nat,
    code: Seq<char>,
) -> Seq<Seq<char>> {
    Seq::new(
        fields.len(),
        |i: int|
            if start <= i < start + code.len() {
                seq![code[i - start]]
            } else {
                fields[i]
            },
    )
}

/// The field to go on with after a code of `len` characters was spread from `start` on.
pub open spec fn next_field(start: nat, len: nat) -> nat {
    if start + len < 8 {
        start + len
    } else {
        7
    }
}

/// Spreads a pasted code over the response fields from `start` on, one character to a field, and
/// returns the field that takes the focus: the one after the last filled, or the last field.
pub fn distribute_response_code(characters: &mut [String; 8], start: usize, value: &str) -> (next:
    usize)
    ensures
        field_texts(*final(characters)) == distributed(
            field_texts(*old(characters)),
            start as nat,
            normalized(value@),
        ),
        next == next_field(start as nat, normalized(value@).len()),
{
    let code = normalized_chars(value);
    let ghost before = field_texts(*characters);
    let mut next: usize = if start < 7 {
        start
    } else {
        7
    };
    let mut offset: usize = 0;
    while offset < code.len() && start < 8 && offset < 8 - start
        invariant
            offset <= code@.len(),
            start < 8 ==> start + offset <= 8,
            start >= 8 ==> offset == 0,
            before.len() == 8,
            field_texts(*characters) =~= distributed(
                before,
                start as nat,
                code@.take(offset as int),
            ),
            next == next_field(start as nat, offset as nat),
        decreases code@.len() - offset,
    {
        let index: usize = start + offset;
        let mut one = String::new();
        one.push(code[offset]);
        assert(one@ =~= seq![code@[offset as int]]);
        let ghost previous = characters@;
        characters[index] = one;
        proof {
            let left = field_texts(*characters);
            let right = distributed(before, start as nat, code@.take(offset + 1));
            assert forall|i: int| 0 <= i < 8 implies left[i] == right[i] by {
                if i == index {
                    assert(characters@[i] == one);
                    assert(left[i] == one@);
                } else {
                    assert(characters@[i] == previous[i]);
                    assert(left[i] == texts(previous)[i]);
                }
            }
        }
        next = if index + 1 < 7 {
            index + 1
        } else {
            7
        };
        offset += 1;
    }
    assert(field_texts(*characters) =~= distributed(before, start as nat, code@));
    next
}

/// The address of one picture of an app on the Steam CDN.
pub open spec fn artwork_url(app_id: u32, file: Seq<char>) -> Seq<char> {
    "https://cdn.cloudflare.steamstatic.com/steam/apps/"@ + decimal_text(app_id as nat) + "/"@ + file
}

/// The address of one picture of an app.
pub fn artwork(app_id: u32, file: &str) -> (url: String)
    ensures
        url@ == artwork_url(app_id, file@),
{
    let id = decimal(app_id as u64);
    cat4("https://cdn.cloudflare.steamstatic.com/steam/apps/", id.as_str(), "/", file)
}

/// The Steam artwork URLs to try for an app, in order of preference. No single image exists for
/// every app, so the caller falls through the list until one loads. The wide hero art comes before
/// the capsules because newer titles often have nothing else.
pub fn steam_artwork_urls(app_id: u32) -> (urls: [String; 5])
    ensures
        texts(urls@) == seq![
            artwork_url(app_id, "header.jpg"@),
            artwork_url(app_id, "library_hero.jpg"@),
            artwork_url(app_id, "capsule_616x353.jpg"@),
            artwork_url(app_id, "capsule_231x87.jpg"@),
            artwork_url(app_id, "library_600x900.jpg"@),
        ],
{
    [
        artwork(app_id, "header.jpg"),
        artwork(app_id, "library_hero.jpg"),
        artwork(app_id, "capsule_616x353.jpg"),
        artwork(app_id, "capsule_231x87.jpg"),
        artwork(app_id, "library_600x900.jpg"),
    ]
}

/// The App IDs to use without asking the network: a cache that is still fresh, unless a refresh
/// is forced.
pub fn denuvo_appids_from_cache(force: bool, fresh: Option<Vec<u32>>) -> (appids: Option<Vec<u32>>)
    ensures
        appids == (if force {
            None
        } else {
            fresh
        }),
{
    if force {
        None
    } else {
        fresh
    }
}

/// The App IDs to use after asking the network: what was fetched, else any older cache, else the
/// error of the fetch.
pub fn fetch_denuvo_appids(
    fetched: Result<Vec<u32>, String>,
    stale: Option<Vec<u32>>,
) -> (appids: Result<Vec<u32>, String>)
    ensures
        appids == (match fetched {
            Ok(list) => Ok(list),
            Err(error) => match stale {
                Some(list) => Ok::<Vec<u32>, String>(list),
                None => Err(error),
            },
        }),
{
    match fetched {
        Ok(list) => Ok(list),
        Err(error) => match stale {
            Some(list) => Ok(list),
            None => Err(error),
        },
    }
}

/// `a / b`, rounded to the nearest whole number and to the even one of two that are as near.
pub open spec fn round_half_even(a: nat, b: nat) -> nat {
    let floor = a / b;
    let rest = a % b;
    if 2 * rest > b || (2 * rest == b && floor % 2 == 1) {
        floor + 1
    } else {
        floor
    }
}

/// The distance between two neighbouring double-precision numbers at a whole number.
pub open spec fn double_spacing(n: nat) -> nat
    decreases n,
{
    if n < 0x20_0000_0000_0000 {
        1
    } else {
        2 * double_spacing(n / 2)
    }
}

/// The double-precision number nearest to a whole number.
pub open spec fn nearest_double(n: nat) -> nat {
    round_half_even(n, double_spacing(n)) * double_spacing(n)
}

/// How many bytes one of the unit has in which a size is shown.
pub open spec fn size_unit(bytes: nat) -> (nat, Seq<char>) {
    if bytes < 0x400 {
        (1, " B"@)
    } else if bytes < 0x10_0000 {
        (0x400, " KB"@)
    } else if bytes < 0x4000_0000 {
        (0x10_0000, " MB"@)
    } else {
        (0x4000_0000, " GB"@)
    }
}

/// A number of tenths with one decimal.
pub open spec fn tenths_text(tenths: nat) -> Seq<char> {
    decimal_text(tenths / 10) + "."@ + seq![digit(tenths % 10)]
}

/// A size for people: whole bytes below a kilobyte, else one decimal of the largest unit up to
/// gigabytes, computed in double precision.
pub open spec fn size_text(bytes: nat) -> Seq<char> {
    let unit = size_unit(bytes);
    if bytes < 0x400 {
        decimal_text(bytes) + unit.1
    } else {
        tenths_text(round_half_even(nearest_double(bytes) * 10, unit.0)) + unit.1
    }
}

proof fn double_spacing_is_small(n: nat)
    ensures
        double_spacing(n) >= 1,
        n < 0x20_0000_0000_0000 ==> double_spacing(n) == 1,
        n >= 0x20_0000_0000_0000 ==> double_spacing(n) * 0x10_0000_0000_0000 <= n,
    decreases n,
{
    if n >= 0x20_0000_0000_0000 {
        double_spacing_is_small(n / 2);
    }
}

fn spacing_of(n: u64) -> (spacing: u64)
    ensures
        spacing == double_spacing(n as nat),
        1 <= spacing <= 4096,
    decreases n,
{
    proof {
        double_spacing_is_small(n as nat);
    }
    if n < 0x20_0000_0000_0000 {
        1
    } else {
        2 * spacing_of(n / 2)
    }
}

fn rounded_division(a: u128, b: u128) -> (result: u128)
    requires
        0 < b <= 0x4000_0000,
    ensures
        result == round_half_even(a as nat, b as nat),
        result <= a / b + 1,
{
    let floor: u128 = a / b;
    let rest: u128 = a % b;
    proof {
        assert(rest < b);
        assert(a / b <= a) by (nonlinear_arith)
            requires
                b > 0,
        ;
    }
    if 2 * rest > b || (2 * rest == b && floor % 2 == 1) {
        proof {
            assert(b >= 2);
            assert(floor <= a / 2) by (nonlinear_arith)
                requires
                    floor == a / b,
                    b >= 2,
            ;
        }
        floor + 1
    } else {
        floor
    }
}

/// A size for people (1536 gives "1.5 KB").
pub fn human_bytes(bytes: u64) -> (text: String)
    ensures
        text@ == size_text(bytes as nat),
{
    if bytes < 0x400 {
        let number = decimal(bytes);
        return cat2(number.as_str(), " B");
    }
    let spacing: u64 = spacing_of(bytes);
    let steps: u128 = rounded_division(bytes as u128, spacing as u128);
    assert(steps <= 0x1_0000_0000_0000_0000) by {
        assert(bytes as u128 / spacing as u128 <= bytes) by (nonlinear_arith)
            requires
                spacing >= 1,
        ;
    }
    assert(steps * spacing <= 0x1_0000_0000_0000_0000 * 4096) by (nonlinear_arith)
        requires
            steps <= 0x1_0000_0000_0000_0000,
            spacing <= 4096,
    ;
    let double: u128 = steps * (spacing as u128);
    assert(double == nearest_double(bytes as nat));
    assert(double <= 2 * bytes + 8192) by (nonlinear_arith)
        requires
            double == steps * spacing,
            steps <= (bytes as u128) / (spacing as u128) + 1,
            1 <= spacing <= 4096,
    ;
    let tenths: u128;
    let unit: &str;
    if bytes < 0x10_0000 {
        tenths = rounded_division(double * 10, 0x400);
        unit = " KB";
    } else if bytes < 0x4000_0000 {
        tenths = rounded_division(double * 10, 0x10_0000);
        unit = " MB";
    } else {
        tenths = rounded_division(double * 10, 0x4000_0000);
        unit = " GB";
    }
    let mut text = decimal((tenths / 10) as u64);
    text.append(".");
    text.push(digit_of((tenths % 10) as u8));
    text.append(unit);
    assert(text@ =~= size_text(bytes as nat));
    text
}

/// A path the user typed, trimmed, `None` where nothing is left.
pub fn path_if_present(value: &str) -> (path: Option<String>)
    ensures
        path is Some <==> !blank(value@),
        path is Some ==> path->0@ == trimmed(value@),
{
    proof {
        crate::text::blank_means_trimmed_away(value@);
    }
    let path = trim(value);
    if no_text(path.as_str()) {
        None
    } else {
        Some(path)
    }
}

/// Whether a refresh marker still stands: it holds what is expected now, and it was written no
/// longer ago than `maximum_age`. `contents` and `age` are `None` where the file could not be read
/// or its age could not be told. Ages are in nanoseconds.
pub fn refresh_marker_is_current(
    contents: Option<String>,
    expected: &str,
    age: Option<u128>,
    maximum_age: u128,
) -> (current: bool)
    ensures
        current <==> {
            &&& contents is Some
            &&& contents->0@ == expected@
            &&& age is Some
            &&& age->0 <= maximum_age
        },
{
    match contents {
        Some(contents) => if same_text(contents.as_str(), expected) {
            match age {
                Some(age) => age <= maximum_age,
                None => false,
            }
        } else {
            false
        },
        None => false,
    }
}

/// How GitHub is asked: with the token from the environment where it holds one.
pub fn github_access_mode(token: Option<&str>) -> (mode: &'static str)
    ensures
        mode@ == (match token {
            Some(token) if !blank(token@) => "authenticated"@,
            _ => "anonymous"@,
        }),
{
    match token {
        Some(token) => if is_blank(token) {
            "anonymous"
        } else {
            "authenticated"
        },
        None => "anonymous",
    }
}

/// The outcome of putting a stored unlock back where Steam expects it: whether the Lua was
/// restored and how many manifests were, or the first error. `lua` counts only where a Lua is
/// stored, and neither write is made for an empty copy.
pub fn restore_payload_into_steam(
    is_empty: bool,
    has_lua: bool,
    lua: Result<(), String>,
    manifests: Result<usize, String>,
) -> (restored: Result<(bool, usize), String>)
    ensures
        restored == (if is_empty {
            Ok((false, 0usize))
        } else if has_lua && lua is Err {
            Err(lua->Err_0)
        } else {
            match manifests {
                Ok(count) => Ok::<(bool, usize), String>((has_lua, count)),
                Err(error) => Err(error),
            }
        }),
{
    if is_empty {
        return Ok((false, 0));
    }
    if has_lua {
        if let Err(error) = lua {
            return Err(error);
        }
    }
    match manifests {
        Ok(count) => Ok((has_lua, count)),
        Err(error) => Err(error),
    }
}

/// The text of `added_note`.
pub open spec fn added_text(name: Seq<char>, manifests: Result<usize, String>) -> Seq<char> {
    match manifests {
        Ok(count) => if count == 0 {
            "\""@ + name + "\" added to Steam. No depot manifests were packaged for it."@
        } else {
            "\""@ + name + "\" added to Steam, with "@ + decimal_text(count as nat)
                + " depot manifest(s) cached."@
        },
        Err(_) => "\""@ + name + "\" added to Steam. Depot manifests could not be cached."@,
    }
}

/// The note shown after an add or update, with how the copy of the depot manifests went.
pub fn added_note(name: &str, manifests: &Result<usize, String>) -> (note: String)
    ensures
        note@ == added_text(name@, *manifests),
{
    match manifests {
        Ok(count) => if *count == 0 {
            cat3("\"", name, "\" added to Steam. No depot manifests were packaged for it.")
        } else {
            let number = decimal(*count as u64);
            let mut note = cat4("\"", name, "\" added to Steam, with ", number.as_str());
            note.append(" depot manifest(s) cached.");
            note
        },
        Err(_) => cat3("\"", name, "\" added to Steam. Depot manifests could not be cached."),
    }
}

/// The executable to verify a Ubisoft game folder against, relative to the game's root.
/// `executables` is what Steam lists for the app.
pub fn ubisoft_executable(
    chosen_is_folder: bool,
    executables: Result<Vec<String>, String>,
) -> (executable: Result<String, String>)
    ensures
        !chosen_is_folder ==> executable is Err && executable->Err_0@
            == "Select the game's folder first."@,
        chosen_is_folder ==> match executables {
            Err(error) => executable == Err::<String, String>(error),
            Ok(list) => if list@.len() == 0 {
                &&& executable is Err
                &&& executable->Err_0@
                    == "Steam lists no launch executable for this game to verify against."@
            } else {
                executable == Ok::<String, String>(list@[0])
            },
        },
{
    if !chosen_is_folder {
        return Err("Select the game's folder first.".to_owned());
    }
    match executables {
        Err(error) => Err(error),
        Ok(list) => if list.len() == 0 {
            Err("Steam lists no launch executable for this game to verify against.".to_owned())
        } else {
            Ok(list[0].clone())
        },
    }
}

/// The game's root, or what to tell the user where the chosen folder holds no such game.
pub fn ubisoft_root(root: Option<String>) -> (result: Result<String, String>)
    ensures
        root is Some ==> result == Ok::<String, String>(root->0),
        root is None ==> result is Err && result->Err_0@
            == "These files don't look like the selected game. Pick the correct game folder."@,
{
    match root {
        Some(root) => Ok(root),
        None => Err(
            "These files don't look like the selected game. Pick the correct game folder.".to_owned(),
        ),
    }
}

/// The folder of the game's executable, or what to tell the user where its path has none.
pub fn ubisoft_folder(folder: Option<String>) -> (result: Result<String, String>)
    ensures
        folder is Some ==> result == Ok::<String, String>(folder->0),
        folder is None ==> result is Err && result->Err_0@
            == "Could not resolve the game executable's folder."@,
{
    match folder {
        Some(folder) => Ok(folder),
        None => Err("Could not resolve the game executable's folder.".to_owned()),
    }
}

} // verus!
