//! What the shared formatting rules and small decisions promise.
use crate::helpers::{
    denuvo_appids_from_cache, distribute_response_code, ellipsize, fetch_denuvo_appids,
    github_access_mode, group_thousands, grouped_text, human_bytes, is_short_activation_code,
    nearest_double, normalize_response_fragment, normalized, path_if_present,
    refresh_marker_is_current, restore_payload_into_steam, round_half_even, steam_artwork_urls,
    tail, tenths_text, three_digits, ubisoft_executable,
};
use crate::laws::text::{core_is_left, decimal_text_has_its_value, is_padding, is_tight};
use crate::text::{
    ascii_alphanumeric, ascii_upper, decimal, decimal_text, digit, texts, trimmed_end, white_space,
};
use vstd::prelude::*;

verus! {

proof fn the_end_is_trimmed_to_a_head(text: Seq<char>)
    ensures
        trimmed_end(text).len() <= text.len(),
        trimmed_end(text) == text.take(trimmed_end(text).len() as int),
        trimmed_end(text).len() > 0 ==> !white_space(trimmed_end(text)[trimmed_end(text).len() - 1]),
        forall|i: int|
            trimmed_end(text).len() <= i < text.len() ==> white_space(#[trigger] text[i]),
    decreases text.len(),
{
    if text.len() > 0 && white_space(text.last()) {
        let head = text.drop_last();
        the_end_is_trimmed_to_a_head(head);
        assert(head.take(trimmed_end(text).len() as int) =~= text.take(
            trimmed_end(text).len() as int,
        ));
        assert forall|i: int| trimmed_end(text).len() <= i < text.len() implies white_space(
            #[trigger] text[i],
        ) by {
            if i < head.len() {
                assert(text[i] == head[i]);
            }
        }
    } else {
        assert(text.take(text.len() as int) =~= text);
    }
}

/// A text that fits is shown as it is. One that does not fit is shown from its start, as much of it
/// as there is room for before the ellipsis, less the white space right before it.
pub proof fn a_cut_text_shows_its_start(text: &str, max: usize, result: String)
    requires
        call_ensures(ellipsize, (text, max), result),
    ensures
        result@.len() <= max,
        text@.len() <= max ==> result@ == text@,
        text@.len() > max && max > 0 ==> {
            let head = result@.take(result@.len() - 1);
            &&& result@.len() >= 1
            &&& result@[result@.len() - 1] == '…'
            &&& head.is_prefix_of(text@)
            &&& head.len() > 0 ==> !white_space(head[head.len() - 1])
            &&& forall|i: int| head.len() <= i < max - 1 ==> white_space(#[trigger] text@[i])
        },
{
    crate::helpers::ellipsized_text_fits(text@, max as nat);
    if text@.len() > max && max > 0 {
        reveal_strlit("…");
        let start = text@.take(max - 1);
        the_end_is_trimmed_to_a_head(start);
        let head = trimmed_end(start);
        assert(result@ == head + "…"@);
        assert(result@.take(result@.len() - 1) =~= head);
        assert(head =~= text@.take(head.len() as int));
        assert forall|i: int| head.len() <= i < max - 1 implies white_space(#[trigger] text@[i]) by {
            assert(start[i] == text@[i]);
        }
    }
}

/// A path that is cut shows its end, after an ellipsis.
pub proof fn a_cut_path_shows_its_end(text: &str, max: usize, result: String)
    requires
        call_ensures(tail, (text, max), result),
    ensures
        text@.len() <= max ==> result@ == text@,
        text@.len() > max ==> {
            &&& result@.len() == max + 1
            &&& result@[0] == '…'
            &&& result@.skip(1).is_suffix_of(text@)
        },
{
    reveal_strlit("…");
    if text@.len() > max {
        let end = text@.skip(text@.len() - max);
        assert(result@ == "…"@ + end);
        assert(result@.skip(1) =~= end);
        assert(text@ =~= text@.take(text@.len() - max) + end);
    }
}

proof fn filtering_goes_one_by_one(text: Seq<char>, c: char)
    ensures
        text.push(c).filter(|c: char| c != ',') == (if c != ',' {
            text.filter(|c: char| c != ',').push(c)
        } else {
            text.filter(|c: char| c != ',')
        }),
{
    reveal(Seq::filter);
    assert(text.push(c).drop_last() =~= text);
}

proof fn a_group_is_pushed(n: nat)
    requires
        n >= 1000,
    ensures
        grouped_text(n) == grouped_text(n / 1000).push(',').push(three_digits(n % 1000)[0]).push(
            three_digits(n % 1000)[1],
        ).push(three_digits(n % 1000)[2]),
        forall|i: int| 0 <= i < 3 ==> #[trigger] three_digits(n % 1000)[i] != ',',
        decimal_text(n) == decimal_text(n / 1000).push(three_digits(n % 1000)[0]).push(
            three_digits(n % 1000)[1],
        ).push(three_digits(n % 1000)[2]),
{
    reveal_strlit(",");
    let head = grouped_text(n / 1000);
    let rest = three_digits(n % 1000);
    assert(grouped_text(n) =~= head.push(',').push(rest[0]).push(rest[1]).push(rest[2]));
    let m = n % 1000;
    assert(digit(m / 100) as int == 48 + m / 100);
    assert(digit(m / 10 % 10) as int == 48 + m / 10 % 10);
    assert(digit(m % 10) as int == 48 + m % 10);
    assert(decimal_text(n) == decimal_text(n / 10).push(digit(n % 10)));
    assert(decimal_text(n / 10) == decimal_text(n / 10 / 10).push(digit(n / 10 % 10)));
    assert(decimal_text(n / 10 / 10) == decimal_text(n / 10 / 10 / 10).push(
        digit(n / 10 / 10 % 10),
    ));
    assert(n / 10 / 10 / 10 == n / 1000 && n / 10 / 10 % 10 == m / 100 && n / 10 % 10 == m / 10 % 10
        && n % 10 == m % 10);
}

proof fn groups_hold_the_digits(n: nat)
    ensures
        grouped_text(n).filter(|c: char| c != ',') == decimal_text(n),
    decreases n,
{
    if n < 1000 {
        decimal_text_has_its_value(n);
        digits_are_kept(decimal_text(n));
    } else {
        let head = grouped_text(n / 1000);
        let rest = three_digits(n % 1000);
        groups_hold_the_digits(n / 1000);
        a_group_is_pushed(n);
        assert(rest[0] != ',' && rest[1] != ',' && rest[2] != ',');
        filtering_goes_one_by_one(head, ',');
        filtering_goes_one_by_one(head.push(','), rest[0]);
        filtering_goes_one_by_one(head.push(',').push(rest[0]), rest[1]);
        filtering_goes_one_by_one(head.push(',').push(rest[0]).push(rest[1]), rest[2]);
    }
}

proof fn commas_stand_before_three_digits(n: nat)
    ensures
        forall|i: int|
            0 <= i < grouped_text(n).len() ==> (#[trigger] grouped_text(n)[i] == ',' <==> (
            grouped_text(n).len() - i) % 4 == 0),
    decreases n,
{
    let text = grouped_text(n);
    if n < 1000 {
        decimal_text_has_its_value(n);
        digits_are_kept(decimal_text(n));
        few_digits(n);
    } else {
        let head = grouped_text(n / 1000);
        let rest = three_digits(n % 1000);
        commas_stand_before_three_digits(n / 1000);
        a_group_is_pushed(n);
        assert(rest[0] != ',' && rest[1] != ',' && rest[2] != ',');
        assert forall|i: int| 0 <= i < text.len() implies (#[trigger] text[i] == ',' <==> (text.len()
            - i) % 4 == 0) by {
            if i < head.len() {
                assert(text[i] == head[i]);
                assert((text.len() - i) % 4 == (head.len() - i) % 4);
            }
        }
    }
}

proof fn few_digits(n: nat)
    requires
        n < 1000,
    ensures
        decimal_text(n).len() <= 3,
{
    reveal_with_fuel(decimal_text, 4);
}

proof fn digits_are_kept(text: Seq<char>)
    requires
        crate::text::all_digits(text),
    ensures
        text.filter(|c: char| c != ',') == text,
        forall|i: int| 0 <= i < text.len() ==> #[trigger] text[i] != ',',
    decreases text.len(),
{
    reveal(Seq::filter);
    if text.len() > 0 {
        let head = text.drop_last();
        assert forall|i: int| 0 <= i < head.len() implies '0' <= #[trigger] head[i] && head[i]
            <= '9' by {
            assert(head[i] == text[i]);
        }
        digits_are_kept(head);
        assert('0' <= text[text.len() - 1]);
        assert(text =~= head.push(text.last()));
    }
}

/// Grouping a number puts a comma before every three digits from the right and changes none of
/// them.
pub proof fn grouping_changes_no_digit(value: usize, text: String, number: String)
    requires
        call_ensures(group_thousands, (value,), text),
        value <= u64::MAX,
        call_ensures(decimal, (value as u64,), number),
    ensures
        text@.filter(|c: char| c != ',') == number@,
        forall|i: int|
            0 <= i < text@.len() ==> (#[trigger] text@[i] == ',' <==> (text@.len() - i) % 4 == 0),
{
    groups_hold_the_digits(value as nat);
    commas_stand_before_three_digits(value as nat);
}

proof fn rounding_is_near(a: nat, b: nat)
    requires
        b > 0,
    ensures
        2 * (round_half_even(a, b) * b) <= 2 * a + b,
        2 * a <= 2 * (round_half_even(a, b) * b) + b,
{
    let floor = a / b;
    let rest = a % b;
    vstd::arithmetic::div_mod::lemma_fundamental_div_mod(a as int, b as int);
    assert(a == b * floor + rest);
    assert(floor * b == b * floor) by (nonlinear_arith);
    assert((floor + 1) * b == b * floor + b) by (nonlinear_arith);
}

/// A size is shown in the largest unit it reaches, with one decimal that is off by half a tenth of
/// the unit at most. Sizes up to eight petabytes are meant.
pub proof fn a_size_is_shown_as_it_is(bytes: u64, text: String, number: String)
    requires
        call_ensures(human_bytes, (bytes,), text),
        call_ensures(decimal, (bytes,), number),
        bytes < 0x20_0000_0000_0000,
    ensures
        bytes < 1024 ==> text@ == number@ + " B"@,
        1024 <= bytes < 1048576 ==> shows_tenths(text@, bytes as nat, 1024, " KB"@),
        1048576 <= bytes < 1073741824 ==> shows_tenths(text@, bytes as nat, 1048576, " MB"@),
        1073741824 <= bytes ==> shows_tenths(text@, bytes as nat, 1073741824, " GB"@),
{
    let n = bytes as nat;
    assert(n / 1 == n && n % 1 == 0);
    assert(nearest_double(n) == n) by {
        assert(crate::helpers::double_spacing(n) == 1);
        assert(round_half_even(n, 1) == n);
    }
    if bytes >= 1024 {
        let unit = crate::helpers::size_unit(n).0;
        rounding_is_near(n * 10, unit);
        let tenths = round_half_even(n * 10, unit);
        assert(tenths_text(tenths) == decimal_text(tenths / 10) + "."@ + seq![digit(tenths % 10)]);
        assert(tenths * unit == unit * tenths) by (nonlinear_arith);
    }
}

/// Whether a text shows a size in tenths of a unit, off by half a tenth at most.
pub open spec fn shows_tenths(text: Seq<char>, bytes: nat, unit: nat, name: Seq<char>) -> bool {
    exists|tenths: nat|
        text == #[trigger] tenths_text(tenths) + name && 2 * (tenths * unit) <= 20 * bytes + unit
            && 20 * bytes <= 2 * (tenths * unit) + unit
}

proof fn normalizing_goes_character_by_character(text: Seq<char>, c: char)
    ensures
        normalized(text.push(c)) == (if ascii_alphanumeric(c) {
            normalized(text).push(ascii_upper(c))
        } else {
            normalized(text)
        }),
        normalized(Seq::<char>::empty()).len() == 0,
{
    reveal(Seq::filter);
    let keep = |c: char| ascii_alphanumeric(c);
    let up = |c: char| ascii_upper(c);
    assert(text.push(c).drop_last() =~= text);
    let before = text.filter(keep);
    assert(before.push(c).map_values(up) =~= before.map_values(up).push(ascii_upper(c)));
}

/// A response code holds letters and digits only, small letters as capitals, in the order they were
/// typed; anything else that was pasted with it is dropped.
pub proof fn a_code_is_letters_and_digits(typed: Seq<char>, c: char)
    ensures
        'A' <= c <= 'Z' || '0' <= c <= '9' ==> normalized(typed.push(c)) == normalized(typed).push(c),
        'a' <= c <= 'z' ==> exists|d: char|
            d as int + 32 == c as int && normalized(typed.push(c)) == #[trigger] normalized(
                typed,
            ).push(d),
        !('A' <= c <= 'Z' || '0' <= c <= '9' || 'a' <= c <= 'z') ==> normalized(typed.push(c))
            == normalized(typed),
{
    normalizing_goes_character_by_character(typed, c);
    if 'a' <= c <= 'z' {
        let d = ascii_upper(c);
        assert(d as int + 32 == c as int);
        assert(normalized(typed.push(c)) == normalized(typed).push(d));
    }
}

/// A pasted code is spread over the fields from the one it was pasted into, one character to a
/// field; the fields before it and behind it keep what they had. The focus goes to the field after
/// the last one filled, or stays in the last field.
pub proof fn a_pasted_code_is_spread(
    fields: &mut [String; 8],
    start: usize,
    value: &str,
    code: String,
    next: usize,
    i: int,
)
    requires
        call_ensures(distribute_response_code, (fields, start, value), next),
        call_ensures(normalize_response_fragment, (value,), code),
        0 <= i < 8,
    ensures
        i < start || i >= start + code@.len() ==> final(fields)@[i]@ == old(fields)@[i]@,
        start <= i < start + code@.len() ==> final(fields)@[i]@ == seq![code@[i - start]],
        start + code@.len() < 8 ==> next == start + code@.len(),
        start + code@.len() >= 8 ==> next == 7,
{
    let before = texts(old(fields)@);
    let after = texts(final(fields)@);
    assert(after[i] == final(fields)@[i]@);
    assert(before[i] == old(fields)@[i]@);
    assert(after == crate::helpers::distributed(before, start as nat, code@));
}

/// A short code is eight letters and digits, and normalizing it changes its case only.
pub proof fn a_short_code_has_eight_characters(value: &str, result: bool)
    requires
        call_ensures(is_short_activation_code, (value,), result),
    ensures
        result ==> value@.len() == 8,
        result <==> value@.len() == 8 && forall|i: int|
            0 <= i < 8 ==> {
                ||| '0' <= #[trigger] value@[i] <= '9'
                ||| 'a' <= value@[i] <= 'z'
                ||| 'A' <= value@[i] <= 'Z'
            },
{
    if value@.len() == 8 {
        assert forall|i: int| 0 <= i < 8 implies (ascii_alphanumeric(#[trigger] value@[i]) <==> {
            ||| '0' <= value@[i] <= '9'
            ||| 'a' <= value@[i] <= 'z'
            ||| 'A' <= value@[i] <= 'Z'
        }) by {}
    }
}

/// A path that was typed is the text without the white space around it, and there is none where
/// nothing else was typed.
pub proof fn a_typed_path_is_its_core(
    value: &str,
    path: Option<String>,
    before: Seq<char>,
    core: Seq<char>,
    after: Seq<char>,
)
    requires
        call_ensures(path_if_present, (value,), path),
        value@ == before + core + after,
        is_padding(before),
        is_padding(after),
        is_tight(core),
    ensures
        path is None <==> core.len() == 0,
        path matches Some(path) ==> path@ == core,
{
    core_is_left(before, core, after);
    crate::text::blank_means_trimmed_away(value@);
}

/// The pictures of an app are all different and all of that app.
pub proof fn pictures_are_of_the_app(app_id: u32, urls: [String; 5], number: String, i: int)
    requires
        call_ensures(steam_artwork_urls, (app_id,), urls),
        call_ensures(decimal, (app_id as u64,), number),
        0 <= i < 5,
    ensures
        exists|file: Seq<char>|
            urls@[i]@ == #[trigger] ("https://cdn.cloudflare.steamstatic.com/steam/apps/"@ + number@
                + "/"@ + file),
{
    let all = texts(urls@);
    assert(all[i] == urls@[i]@);
    assert(all.len() == 5);
    assert(i == 0 || i == 1 || i == 2 || i == 3 || i == 4);
}

/// A watch list that is still fresh saves asking, unless a refresh is forced. A failed fetch falls
/// back on whatever older list there is, and fails only where there is none; a list that was
/// fetched is always the one used.
pub proof fn the_best_watch_list_is_used(
    force: bool,
    fresh: Option<Vec<u32>>,
    cached: Option<Vec<u32>>,
    fetched: Result<Vec<u32>, String>,
    stale: Option<Vec<u32>>,
    used: Result<Vec<u32>, String>,
)
    requires
        call_ensures(denuvo_appids_from_cache, (force, fresh), cached),
        call_ensures(fetch_denuvo_appids, (fetched, stale), used),
    ensures
        force ==> cached is None,
        !force ==> cached == fresh,
        fetched matches Ok(list) ==> used == Ok::<Vec<u32>, String>(list),
        fetched is Err && stale is Some ==> used == Ok::<Vec<u32>, String>(stale->0),
        fetched is Err && stale is None ==> used == fetched,
{
}

/// A marker stands while it says what is expected and is young enough: an older one never stands
/// where a younger does not.
pub proof fn a_marker_grows_old(
    contents: Option<String>,
    expected: &str,
    younger: u128,
    older: u128,
    maximum: u128,
    first: bool,
    second: bool,
    unread: bool,
)
    requires
        younger <= older,
        call_ensures(refresh_marker_is_current, (contents, expected, Some(younger), maximum), first),
        call_ensures(refresh_marker_is_current, (contents, expected, Some(older), maximum), second),
        call_ensures(
            refresh_marker_is_current,
            (contents, expected, None::<u128>, maximum),
            unread,
        ),
    ensures
        second ==> first,
        first ==> younger <= maximum && (contents matches Some(text) && text@ == expected@),
        contents matches Some(text) ==> text@ == expected@ ==> younger <= maximum ==> first,
        !unread,
{
}

/// GitHub is asked with a token exactly where there is one that is more than white space.
pub proof fn a_token_is_used(token: Option<&str>, mode: &'static str)
    requires
        call_ensures(github_access_mode, (token,), mode),
    ensures
        token is None ==> mode@ == "anonymous"@,
        token matches Some(token) ==> (is_padding(token@) ==> mode@ == "anonymous"@),
        token matches Some(token) ==> (!is_padding(token@) ==> mode@ == "authenticated"@),
{
    if let Some(token) = token {
        assert(is_padding(token@) == crate::text::blank(token@));
    }
}

/// Restoring a stored unlock reports what was put back, and the first error where one was met.
pub proof fn a_restore_reports_what_it_did(
    is_empty: bool,
    has_lua: bool,
    lua: Result<(), String>,
    manifests: Result<usize, String>,
    restored: Result<(bool, usize), String>,
)
    requires
        call_ensures(restore_payload_into_steam, (is_empty, has_lua, lua, manifests), restored),
    ensures
        is_empty ==> restored == Ok::<(bool, usize), String>((false, 0usize)),
        !is_empty && has_lua && lua is Err ==> restored is Err && restored->Err_0 == lua->Err_0,
        !is_empty && (!has_lua || lua is Ok) && manifests is Err ==> restored is Err
            && restored->Err_0 == manifests->Err_0,
        !is_empty && (!has_lua || lua is Ok) && manifests is Ok ==> restored is Ok && restored->Ok_0.0
            == has_lua && restored->Ok_0.1 == manifests->Ok_0,
{
}

/// The first executable that Steam lists is the one to verify against.
pub proof fn the_first_executable_is_used(
    is_folder: bool,
    listed: Result<Vec<String>, String>,
    executable: Result<String, String>,
)
    requires
        call_ensures(ubisoft_executable, (is_folder, listed), executable),
    ensures
        executable is Ok <==> is_folder && (listed matches Ok(list) && list@.len() > 0),
        executable matches Ok(path) ==> path == listed->Ok_0@[0],
        is_folder && listed is Err ==> executable->Err_0 == listed->Err_0,
{
}

} // verus!
