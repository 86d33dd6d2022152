//! What the text primitives promise.
use crate::text::{
    all_digits, ascii_lower, ascii_lowercase, ascii_lowered, contains, contains_text, decimal, decimal_text, digit,
    digits_value, ends_with, is_blank, join, joined, numeral, occurs_at, parse_u32, precedes, starts_with,
    texts, trim, trimmed, trimmed_end, trimmed_start, white_space,
};
use vstd::prelude::*;

verus! {

/// Whether a text starts and ends with something other than white space, or is empty.
pub open spec fn is_tight(text: Seq<char>) -> bool {
    text.len() > 0 ==> !white_space(text[0]) && !white_space(text[text.len() - 1])
}

/// Whether a text is made of white space.
pub open spec fn is_padding(text: Seq<char>) -> bool {
    forall|i: int| 0 <= i < text.len() ==> white_space(#[trigger] text[i])
}

proof fn start_is_trimmed(before: Seq<char>, rest: Seq<char>)
    requires
        is_padding(before),
        rest.len() > 0 ==> !white_space(rest[0]),
    ensures
        trimmed_start(before + rest) == rest,
    decreases before.len(),
{
    if before.len() > 0 {
        let tail = before.drop_first();
        assert forall|i: int| 0 <= i < tail.len() implies white_space(#[trigger] tail[i]) by {
            assert(tail[i] == before[i + 1]);
        }
        start_is_trimmed(tail, rest);
        assert((before + rest).drop_first() =~= tail + rest);
        assert((before + rest)[0] == before[0]);
    } else {
        assert(before + rest =~= rest);
    }
}

proof fn end_is_trimmed(rest: Seq<char>, after: Seq<char>)
    requires
        is_padding(after),
        rest.len() > 0 ==> !white_space(rest[rest.len() - 1]),
    ensures
        trimmed_end(rest + after) == rest,
    decreases after.len(),
{
    if after.len() > 0 {
        let head = after.drop_last();
        assert forall|i: int| 0 <= i < head.len() implies white_space(#[trigger] head[i]) by {
            assert(head[i] == after[i]);
        }
        end_is_trimmed(rest, head);
        assert((rest + after).drop_last() =~= rest + head);
        assert((rest + after).last() == after.last());
    } else {
        assert(rest + after =~= rest);
    }
}

/// Trimming takes the white space around a text and nothing of the text itself.
pub proof fn core_is_left(before: Seq<char>, core: Seq<char>, after: Seq<char>)
    requires
        is_padding(before),
        is_padding(after),
        is_tight(core),
    ensures
        trimmed(before + core + after) == core,
{
    if core.len() > 0 {
        assert(before + core + after =~= before + (core + after));
        assert((core + after)[0] == core[0]);
        start_is_trimmed(before, core + after);
        end_is_trimmed(core, after);
    } else {
        let all = before + core + after;
        assert forall|i: int| 0 <= i < all.len() implies white_space(#[trigger] all[i]) by {
            if i < before.len() {
                assert(all[i] == before[i]);
            } else {
                assert(all[i] == after[i - before.len()]);
            }
        }
        assert(all + Seq::<char>::empty() =~= all);
        start_is_trimmed(all, Seq::empty());
        assert(trimmed(all) =~= core);
    }
}

/// A text without white space around it is trimmed to itself.
pub proof fn tight_text_stays(text: Seq<char>)
    requires
        is_tight(text),
    ensures
        trimmed(text) == text,
{
    core_is_left(Seq::empty(), text, Seq::empty());
    assert(Seq::<char>::empty() + text + Seq::<char>::empty() =~= text);
}

/// `trim` gives back what stands between the white space around a text.
pub proof fn trim_gives_the_core(
    text: &str,
    before: Seq<char>,
    core: Seq<char>,
    after: Seq<char>,
    result: String,
)
    requires
        call_ensures(trim, (text,), result),
        text@ == before + core + after,
        is_padding(before),
        is_padding(after),
        is_tight(core),
    ensures
        result@ == core,
{
    core_is_left(before, core, after);
}

/// A text is blank exactly where it holds nothing that trimming would leave.
pub proof fn blank_text_trims_to_nothing(text: &str, blank: bool, result: String)
    requires
        call_ensures(is_blank, (text,), blank),
        call_ensures(trim, (text,), result),
    ensures
        blank <==> result@.len() == 0,
        blank <==> is_padding(text@),
{
    crate::text::blank_means_trimmed_away(text@);
}

/// A part is found in a text exactly where the text is something, the part, and something more.
pub proof fn a_part_is_found_wherever_it_stands(text: Seq<char>, part: Seq<char>)
    ensures
        contains_text(text, part) <==> exists|a: Seq<char>, b: Seq<char>|
            text == #[trigger] (a + part + b),
{
    if contains_text(text, part) {
        let at = choose|at: int| occurs_at(text, part, at);
        let a = text.subrange(0, at);
        let b = text.subrange(at + part.len(), text.len() as int);
        assert(text =~= a + part + b);
    }
    if exists|a: Seq<char>, b: Seq<char>| text == #[trigger] (a + part + b) {
        let (a, b) = choose|a: Seq<char>, b: Seq<char>| text == #[trigger] (a + part + b);
        part_is_found(a, part, b);
    }
}

/// A part is found in any text that is put together around it.
pub proof fn part_is_found(a: Seq<char>, part: Seq<char>, b: Seq<char>)
    ensures
        contains_text(a + part + b, part),
{
    let text = a + part + b;
    assert(text.subrange(a.len() as int, (a.len() + part.len()) as int) =~= part);
    assert(occurs_at(text, part, a.len() as int));
}

/// `contains`, `starts_with` and `ends_with` find a part in the middle, in front and at the end.
pub proof fn parts_are_found(text: &str, part: &str, found: bool, front: bool, end: bool)
    requires
        call_ensures(contains, (text, part), found),
        call_ensures(starts_with, (text, part), front),
        call_ensures(ends_with, (text, part), end),
    ensures
        found <==> exists|a: Seq<char>, b: Seq<char>| text@ == #[trigger] (a + part@ + b),
        front <==> exists|b: Seq<char>| text@ == #[trigger] (part@ + b),
        end <==> exists|a: Seq<char>| text@ == #[trigger] (a + part@),
{
    a_part_is_found_wherever_it_stands(text@, part@);
    if front {
        assert(text@ =~= part@ + text@.skip(part@.len() as int));
    }
    if exists|b: Seq<char>| text@ == #[trigger] (part@ + b) {
        let b = choose|b: Seq<char>| text@ == #[trigger] (part@ + b);
        assert(part@.is_prefix_of(part@ + b));
    }
    if end {
        assert(text@ =~= text@.take(text@.len() - part@.len()) + part@);
    }
    if exists|a: Seq<char>| text@ == #[trigger] (a + part@) {
        let a = choose|a: Seq<char>| text@ == #[trigger] (a + part@);
        assert(part@.is_suffix_of(a + part@));
    }
}

/// Whether two characters are the same but for the case of an ASCII letter.
pub open spec fn same_but_for_case(a: char, b: char) -> bool {
    ||| a == b
    ||| 'A' <= a <= 'Z' && b as int == a as int + 32
    ||| 'A' <= b <= 'Z' && a as int == b as int + 32
}

/// Lowering a text leaves no ASCII capital in it and changes nothing but the case.
pub proof fn lowering_changes_the_case_only(text: &str, result: String)
    requires
        call_ensures(ascii_lowercase, (text,), result),
    ensures
        result@.len() == text@.len(),
        forall|i: int|
            0 <= i < text@.len() ==> same_but_for_case(text@[i], #[trigger] result@[i]) && !('A'
                <= result@[i] <= 'Z'),
{
}

/// A text that differs from a small-lettered one only in its case is lowered to that one.
pub proof fn lowering_ignores_the_case(text: Seq<char>, small: Seq<char>)
    requires
        text.len() == small.len(),
        forall|i: int|
            0 <= i < text.len() ==> same_but_for_case(text[i], #[trigger] small[i]) && !('A'
                <= small[i] <= 'Z'),
    ensures
        ascii_lowered(text) == small,
{
    assert forall|i: int| 0 <= i < text.len() implies #[trigger] ascii_lowered(text)[i] == small[i] by {
        let a = text[i];
        let b = small[i];
        assert(same_but_for_case(a, b));
        assert(ascii_lowered(text)[i] == ascii_lower(a));
        if 'A' <= a <= 'Z' {
            if a != b && b as int != a as int + 32 {
                assert('A' <= b <= 'Z');
            }
            assert(b as int == a as int + 32);
        }
    }
    assert(ascii_lowered(text) =~= small);
}

/// A number in decimal has digits only, its first no zero but for zero itself, and stands for that
/// number.
pub proof fn decimal_text_has_its_value(n: nat)
    ensures
        decimal_text(n).len() > 0,
        all_digits(decimal_text(n)),
        digits_value(decimal_text(n)) == n,
        n >= 10 ==> decimal_text(n)[0] != '0',
        n > 0 ==> decimal_text(n)[0] != '0',
    decreases n,
{
    let text = decimal_text(n);
    if n < 10 {
        assert(digit(n) as int == 48 + n);
        assert(text.drop_last() =~= Seq::<char>::empty());
        assert(digits_value(text.drop_last()) == 0);
        assert(digits_value(text) == n);
    } else {
        let head = decimal_text(n / 10);
        decimal_text_has_its_value(n / 10);
        assert(digit(n % 10) as int == 48 + n % 10);
        assert(text.drop_last() =~= head);
        assert forall|i: int| 0 <= i < text.len() implies '0' <= #[trigger] text[i] && text[i]
            <= '9' by {
            if i < head.len() {
                assert(text[i] == head[i]);
            }
        }
        assert(text[0] == head[0]);
    }
}

/// A digit counts ten times as much for each digit behind it, by its distance from zero.
pub proof fn digits_count_by_their_place(text: Seq<char>, c: char)
    requires
        '0' <= c <= '9',
    ensures
        digits_value(text.push(c)) == 10 * digits_value(text) + (c as int - '0' as int),
        digits_value(seq![c]) == c as int - '0' as int,
        digits_value(Seq::<char>::empty()) == 0,
{
    assert(text.push(c).drop_last() =~= text);
    assert(seq![c].drop_last() =~= Seq::<char>::empty());
    assert(digits_value(seq![c].drop_last()) == 0);
    assert(seq![c].last() == c);
}

/// A number is written in decimal digits without a leading zero, and reading it gives it back.
pub proof fn a_number_reads_as_itself(n: u32, written: String, text: &str, read: Option<u32>)
    requires
        call_ensures(decimal, (n as u64,), written),
        text@ == written@,
        call_ensures(parse_u32, (text,), read),
    ensures
        all_digits(written@),
        n > 0 ==> written@[0] != '0',
        n < 10 ==> written@.len() == 1,
        read == Some(n),
{
    decimal_text_has_its_value(n as nat);
    assert(written@[0] != '+');
    assert(numeral(text@) == Some(n as nat));
}

/// Reading a number ignores nothing: what is read is written with the same digits, up to zeros and
/// a plus sign in front.
pub proof fn only_digits_are_read(text: &str, read: Option<u32>)
    requires
        call_ensures(parse_u32, (text,), read),
        read is Some,
    ensures
        text@.len() > 0,
        forall|i: int|
            0 <= i < text@.len() ==> '0' <= #[trigger] text@[i] && text@[i] <= '9' || i == 0
                && text@[i] == '+' && text@.len() > 1,
{
    assert forall|i: int| 0 <= i < text@.len() implies '0' <= #[trigger] text@[i] && text@[i] <= '9'
        || i == 0 && text@[i] == '+' && text@.len() > 1 by {
        if text@.len() > 1 && text@[0] == '+' {
            if i > 0 {
                assert(text@.drop_first()[i - 1] == text@[i]);
            }
        }
    }
}

/// Joining two lists is joining each and putting the separator between them.
pub proof fn joined_lists(a: Seq<Seq<char>>, b: Seq<Seq<char>>, separator: Seq<char>)
    requires
        a.len() > 0,
        b.len() > 0,
    ensures
        joined(a + b, separator) == joined(a, separator) + separator + joined(b, separator),
    decreases b.len(),
{
    let all = a + b;
    assert(all.drop_last() =~= a + b.drop_last());
    assert(all.last() == b.last());
    if b.len() == 1 {
        assert(a + b.drop_last() =~= a);
        assert(joined(b, separator) == b[0]);
    } else {
        joined_lists(a, b.drop_last(), separator);
        assert(joined(all, separator) =~= joined(a, separator) + separator + joined(b, separator));
    }
}

/// `join` of one part is that part, and of none no text at all.
pub proof fn join_of_few(parts: &Vec<String>, separator: &str, result: String)
    requires
        call_ensures(join, (parts, separator), result),
    ensures
        parts@.len() == 0 ==> result@.len() == 0,
        parts@.len() == 1 ==> result@ == parts@[0]@,
        parts@.len() == 2 ==> result@ == parts@[0]@ + separator@ + parts@[1]@,
{
    if parts@.len() == 2 {
        let all = texts(parts@);
        assert(all.drop_last().len() == 1);
        assert(joined(all.drop_last(), separator@) == all.drop_last()[0]);
        assert(all.drop_last()[0] == parts@[0]@);
        assert(all.last() == parts@[1]@);
    }
}

/// Two texts with a common start are in the order of the characters that follow it, and a text
/// comes before every longer one that starts with it.
pub proof fn the_first_difference_decides(
    start: Seq<char>,
    c: char,
    d: char,
    x: Seq<char>,
    y: Seq<char>,
)
    requires
        c != d,
    ensures
        precedes(start + seq![c] + x, start + seq![d] + y) <==> c < d,
        precedes(start, start + seq![c] + x),
        !precedes(start + seq![c] + x, start),
        !precedes(start, start),
    decreases start.len(),
{
    let a = start + seq![c] + x;
    let b = start + seq![d] + y;
    if start.len() == 0 {
        assert(a[0] == c && b[0] == d);
    } else {
        let rest = start.drop_first();
        the_first_difference_decides(rest, c, d, x, y);
        assert(a.drop_first() =~= rest + seq![c] + x);
        assert(b.drop_first() =~= rest + seq![d] + y);
        assert(a[0] == start[0] && b[0] == start[0]);
    }
}

/// Of the ASCII characters exactly the space, the tab and the line breaks are white.
pub proof fn spaces_and_breaks_are_white(c: char)
    requires
        c as int <= 127,
    ensures
        white_space(c) <==> c as int == 32 || 9 <= c as int <= 13,
{
}

} // verus!
