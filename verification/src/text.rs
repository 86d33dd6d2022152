//! Text primitives: what the rest of the crate needs to build, trim, search and order strings.
//!
//! Every function here is stated over `Seq<char>`, the view of a string.
use vstd::prelude::*;

verus! {

/// `String::push` appends one character and leaves what stood before it alone.
pub assume_specification[ String::push ](s: &mut String, c: char)
    ensures
        final(s)@ == old(s)@.push(c),
;

/// What `str::to_lowercase` returns: the Unicode lowercase mapping of a text. The mapping is a
/// table of the Unicode character database, so it is named here and not written out.
pub uninterp spec fn lowercase(text: Seq<char>) -> Seq<char>;

/// `str::to_lowercase` depends on its argument alone; its result is named `lowercase`.
pub assume_specification[ str::to_lowercase ](text: &str) -> (result: String)
    ensures
        result@ == lowercase(text@),
;

/// What `str::to_uppercase` makes of a text.
pub uninterp spec fn uppercase(text: Seq<char>) -> Seq<char>;

/// `str::to_uppercase` is a function of the text alone: it maps every character by the Unicode
/// tables that the standard library is built with, whatever the locale.
pub assume_specification[ str::to_uppercase ](text: &str) -> (result: String)
    ensures
        result@ == uppercase(text@),
;

/// The characters with the Unicode `White_Space` property.
pub open spec fn white_space(c: char) -> bool {
    let n = c as u32;
    ||| 0x9 <= n <= 0xd
    ||| n == 0x20
    ||| n == 0x85
    ||| n == 0xa0
    ||| n == 0x1680
    ||| 0x2000 <= n <= 0x200a
    ||| n == 0x2028
    ||| n == 0x2029
    ||| n == 0x202f
    ||| n == 0x205f
    ||| n == 0x3000
}

/// `char::is_whitespace` is true of exactly the characters with the `White_Space` property.
pub assume_specification[ char::is_whitespace ](c: char) -> (result: bool)
    ensures
        result == white_space(c),
;

/// The decimal digit of a number below ten.
pub open spec fn digit(n: nat) -> char {
    (48 + n) as char
}

/// A number in decimal, without leading zeros.
pub open spec fn decimal_text(n: nat) -> Seq<char>
    decreases n,
{
    if n < 10 {
        seq![digit(n)]
    } else {
        decimal_text(n / 10).push(digit(n % 10))
    }
}

/// The views of a list of strings.
pub open spec fn texts(list: Seq<String>) -> Seq<Seq<char>> {
    list.map_values(|s: String| s@)
}

/// A text without the white space it starts with.
pub open spec fn trimmed_start(text: Seq<char>) -> Seq<char>
    decreases text.len(),
{
    if text.len() > 0 && white_space(text[0]) {
        trimmed_start(text.drop_first())
    } else {
        text
    }
}

/// A text without the white space it ends with.
pub open spec fn trimmed_end(text: Seq<char>) -> Seq<char>
    decreases text.len(),
{
    if text.len() > 0 && white_space(text.last()) {
        trimmed_end(text.drop_last())
    } else {
        text
    }
}

/// A text without the white space around it.
pub open spec fn trimmed(text: Seq<char>) -> Seq<char> {
    trimmed_end(trimmed_start(text))
}

/// Whether nothing is left of a text once it is trimmed.
pub open spec fn blank(text: Seq<char>) -> bool {
    forall|i: int| 0 <= i < text.len() ==> white_space(#[trigger] text[i])
}

/// Whether `part` stands in `text` at `at`.
pub open spec fn occurs_at(text: Seq<char>, part: Seq<char>, at: int) -> bool {
    &&& 0 <= at
    &&& at + part.len() <= text.len()
    &&& text.subrange(at, at + part.len()) == part
}

/// Whether `part` stands somewhere in `text`.
pub open spec fn contains_text(text: Seq<char>, part: Seq<char>) -> bool {
    exists|at: int| occurs_at(text, part, at)
}

/// Whether a character is an ASCII letter or digit.
pub open spec fn ascii_alphanumeric(c: char) -> bool {
    ||| '0' <= c <= '9'
    ||| 'a' <= c <= 'z'
    ||| 'A' <= c <= 'Z'
}

/// A character with an ASCII capital turned into its small letter.
pub open spec fn ascii_lower(c: char) -> char {
    if 'A' <= c <= 'Z' {
        (c as u32 + 32) as char
    } else {
        c
    }
}

/// A character with an ASCII small letter turned into its capital.
pub open spec fn ascii_upper(c: char) -> char {
    if 'a' <= c <= 'z' {
        (c as u32 - 32) as char
    } else {
        c
    }
}

/// A text with its ASCII capitals turned into small letters.
pub open spec fn ascii_lowered(text: Seq<char>) -> Seq<char> {
    text.map_values(|c: char| ascii_lower(c))
}

/// The parts one after the other, `separator` between each two.
pub open spec fn joined(parts: Seq<Seq<char>>, separator: Seq<char>) -> Seq<char>
    decreases parts.len(),
{
    if parts.len() == 0 {
        Seq::empty()
    } else if parts.len() == 1 {
        parts[0]
    } else {
        joined(parts.drop_last(), separator) + separator + parts.last()
    }
}

/// Whether `a` stands before `b` in the order of strings: at the first place where they differ
/// it has the smaller character, or it is a proper prefix.
pub open spec fn precedes(a: Seq<char>, b: Seq<char>) -> bool
    decreases a.len(),
{
    if b.len() == 0 {
        false
    } else if a.len() == 0 {
        true
    } else if a[0] != b[0] {
        a[0] < b[0]
    } else {
        precedes(a.drop_first(), b.drop_first())
    }
}

/// The characters of a text.
pub fn chars_of(text: &str) -> (list: Vec<char>)
    ensures
        list@ == text@,
{
    let mut list: Vec<char> = Vec::new();
    for c in it: text.chars()
        invariant
            it.seq() == text@,
            list@ == text@.take(it.index()),
    {
        list.push(c);
        assert(text@.take(it.index() + 1) == text@.take(it.index()).push(c));
    }
    assert(list@ == text@);
    list
}

/// The text that a list of characters spells.
pub fn string_of(list: &Vec<char>) -> (text: String)
    ensures
        text@ == list@,
{
    let mut text = String::new();
    let mut i: usize = 0;
    while i < list.len()
        invariant
            i <= list@.len(),
            text@ == list@.take(i as int),
        decreases list@.len() - i,
    {
        text.push(list[i]);
        assert(list@.take(i + 1) == list@.take(i as int).push(list@[i as int]));
        i += 1;
    }
    assert(list@.take(i as int) == list@);
    text
}

/// The digit of a number below ten.
pub fn digit_of(n: u8) -> (c: char)
    requires
        n < 10,
    ensures
        c == digit(n as nat),
{
    (48 + n) as char
}

/// Appends a number in decimal.
pub fn push_decimal(text: &mut String, n: u128)
    ensures
        final(text)@ == old(text)@ + decimal_text(n as nat),
    decreases n,
{
    if n >= 10 {
        push_decimal(text, n / 10);
    }
    text.push(digit_of((n % 10) as u8));
}

/// A wide number in decimal.
pub fn decimal_wide(n: u128) -> (text: String)
    ensures
        text@ == decimal_text(n as nat),
{
    let mut text = String::new();
    push_decimal(&mut text, n);
    text
}

/// A number in decimal.
pub fn decimal(n: u64) -> (text: String)
    ensures
        text@ == decimal_text(n as nat),
{
    decimal_wide(n as u128)
}

/// Two texts, one after the other.
pub fn cat2(a: &str, b: &str) -> (text: String)
    ensures
        text@ == a@ + b@,
{
    let mut text = a.to_owned();
    text.append(b);
    text
}

/// Three texts, one after the other.
pub fn cat3(a: &str, b: &str, c: &str) -> (text: String)
    ensures
        text@ == a@ + b@ + c@,
{
    let mut text = cat2(a, b);
    text.append(c);
    text
}

/// Four texts, one after the other.
pub fn cat4(a: &str, b: &str, c: &str, d: &str) -> (text: String)
    ensures
        text@ == a@ + b@ + c@ + d@,
{
    let mut text = cat3(a, b, c);
    text.append(d);
    text
}

/// Five texts, one after the other.
pub fn cat5(a: &str, b: &str, c: &str, d: &str, e: &str) -> (text: String)
    ensures
        text@ == a@ + b@ + c@ + d@ + e@,
{
    let mut text = cat4(a, b, c, d);
    text.append(e);
    text
}

/// Whether `b` stands in `a` at `at`.
fn agrees(a: &Vec<char>, b: &Vec<char>, at: usize) -> (result: bool)
    requires
        at + b@.len() <= a@.len(),
    ensures
        result == occurs_at(a@, b@, at as int),
{
    let total: usize = a.len();
    let mut i: usize = 0;
    while i < b.len()
        invariant
            i <= b@.len(),
            at + b@.len() <= total,
            total == a@.len(),
            forall|k: int| 0 <= k < i ==> a@[at + k] == b@[k],
        decreases b@.len() - i,
    {
        if a[at + i] != b[i] {
            assert(a@.subrange(at as int, at + b@.len())[i as int] != b@[i as int]);
            return false;
        }
        i += 1;
    }
    assert(a@.subrange(at as int, at + b@.len()) =~= b@);
    true
}

/// Whether two texts are equal.
pub fn same_text(a: &str, b: &str) -> (result: bool)
    ensures
        result == (a@ == b@),
{
    let x = a.to_owned();
    let y = b.to_owned();
    x == y
}

/// Whether a text has no character.
pub fn no_text(text: &str) -> (result: bool)
    ensures
        result == (text@.len() == 0),
{
    let list = chars_of(text);
    list.len() == 0
}

/// Whether `text` starts with `part`.
pub fn starts_with(text: &str, part: &str) -> (result: bool)
    ensures
        result == part@.is_prefix_of(text@),
{
    let x = chars_of(text);
    let y = chars_of(part);
    if y.len() > x.len() {
        return false;
    }
    let result = agrees(&x, &y, 0);
    assert(result == part@.is_prefix_of(text@));
    result
}

/// Whether `text` ends with `part`.
pub fn ends_with(text: &str, part: &str) -> (result: bool)
    ensures
        result == part@.is_suffix_of(text@),
{
    let x = chars_of(text);
    let y = chars_of(part);
    if y.len() > x.len() {
        return false;
    }
    let at: usize = x.len() - y.len();
    let result = agrees(&x, &y, at);
    assert(result == part@.is_suffix_of(text@));
    result
}

/// Whether `part` stands somewhere in `text`.
pub fn contains(text: &str, part: &str) -> (result: bool)
    ensures
        result == contains_text(text@, part@),
{
    let x = chars_of(text);
    let y = chars_of(part);
    if y.len() > x.len() {
        return false;
    }
    let last: usize = x.len() - y.len();
    let mut at: usize = 0;
    while at <= last
        invariant
            at <= last + 1,
            last + y@.len() == x@.len(),
            x@ == text@,
            y@ == part@,
            forall|k: int| 0 <= k < at ==> !occurs_at(x@, y@, k),
        decreases last + 1 - at,
    {
        if agrees(&x, &y, at) {
            return true;
        }
        if at == last {
            assert forall|k: int| !occurs_at(text@, part@, k) by {}
            return false;
        }
        at += 1;
    }
    false
}

/// A text without the white space around it.
pub fn trim(text: &str) -> (result: String)
    ensures
        result@ == trimmed(text@),
{
    let list = chars_of(text);
    let mut from: usize = 0;
    assert(list@.skip(0) =~= list@);
    while from < list.len() && list[from].is_whitespace()
        invariant
            from <= list@.len(),
            trimmed_start(list@) == trimmed_start(list@.skip(from as int)),
        decreases list@.len() - from,
    {
        assert(list@.skip(from as int).drop_first() =~= list@.skip(from + 1));
        from += 1;
    }
    let mut to: usize = list.len();
    assert(list@.subrange(from as int, to as int) =~= list@.skip(from as int));
    while to > from && list[to - 1].is_whitespace()
        invariant
            from <= to <= list@.len(),
            trimmed_end(list@.skip(from as int)) == trimmed_end(
                list@.subrange(from as int, to as int),
            ),
        decreases to,
    {
        assert(list@.subrange(from as int, to as int).drop_last() =~= list@.subrange(
            from as int,
            to - 1,
        ));
        to -= 1;
    }
    let mut result = String::new();
    let mut i: usize = from;
    while i < to
        invariant
            from <= i <= to <= list@.len(),
            result@ == list@.subrange(from as int, i as int),
        decreases to - i,
    {
        result.push(list[i]);
        assert(list@.subrange(from as int, i + 1) =~= list@.subrange(from as int, i as int).push(
            list@[i as int],
        ));
        i += 1;
    }
    result
}

/// A trimmed text is empty exactly when all of it was white space.
pub proof fn blank_means_trimmed_away(text: Seq<char>)
    ensures
        blank(text) <==> trimmed(text).len() == 0,
{
    trimmed_start_is_a_tail(text);
    let rest = trimmed_start(text);
    trimmed_end_is_a_head(rest);
    if blank(text) {
        if rest.len() > 0 {
            assert(white_space(text[text.len() - rest.len()]));
        }
    } else if trimmed(text).len() == 0 {
        assert(rest.len() > 0 ==> white_space(rest[0]));
    }
}

proof fn trimmed_start_is_a_tail(text: Seq<char>)
    ensures
        trimmed_start(text).len() <= text.len(),
        trimmed_start(text) == text.skip(text.len() - trimmed_start(text).len()),
        trimmed_start(text).len() > 0 ==> !white_space(trimmed_start(text)[0]),
        forall|i: int|
            0 <= i < text.len() - trimmed_start(text).len() ==> white_space(#[trigger] text[i]),
    decreases text.len(),
{
    if text.len() > 0 && white_space(text[0]) {
        let tail = text.drop_first();
        trimmed_start_is_a_tail(tail);
        assert(trimmed_start(text) =~= text.skip(text.len() - trimmed_start(text).len()));
        assert forall|i: int| 0 <= i < text.len() - trimmed_start(text).len() implies white_space(
            #[trigger] text[i],
        ) by {
            if i > 0 {
                assert(text[i] == tail[i - 1]);
            }
        }
    } else {
        assert(text.skip(0) =~= text);
    }
}

proof fn trimmed_end_is_a_head(text: Seq<char>)
    ensures
        trimmed_end(text).len() <= text.len(),
        forall|i: int|
            trimmed_end(text).len() <= i < text.len() ==> white_space(#[trigger] text[i]),
    decreases text.len(),
{
    if text.len() > 0 && white_space(text.last()) {
        trimmed_end_is_a_head(text.drop_last());
        assert forall|i: int| trimmed_end(text).len() <= i < text.len() implies white_space(
            #[trigger] text[i],
        ) by {
            if i < text.len() - 1 {
                assert(text[i] == text.drop_last()[i]);
            }
        }
    }
}

/// Whether a text holds nothing but white space.
pub fn is_blank(text: &str) -> (result: bool)
    ensures
        result == blank(text@),
{
    let list = chars_of(text);
    let mut i: usize = 0;
    while i < list.len()
        invariant
            i <= list@.len(),
            list@ == text@,
            forall|k: int| 0 <= k < i ==> white_space(#[trigger] list@[k]),
        decreases list@.len() - i,
    {
        if !list[i].is_whitespace() {
            assert(!white_space(text@[i as int]));
            return false;
        }
        i += 1;
    }
    true
}

/// Whether a character is an ASCII letter or digit.
pub fn is_ascii_alphanumeric(c: char) -> (result: bool)
    ensures
        result == ascii_alphanumeric(c),
{
    ('0' <= c && c <= '9') || ('a' <= c && c <= 'z') || ('A' <= c && c <= 'Z')
}

/// A character with an ASCII capital turned into its small letter.
pub fn to_ascii_lower(c: char) -> (result: char)
    ensures
        result == ascii_lower(c),
{
    if 'A' <= c && c <= 'Z' {
        (c as u8 + 32) as char
    } else {
        c
    }
}

/// A character with an ASCII small letter turned into its capital.
pub fn to_ascii_upper(c: char) -> (result: char)
    ensures
        result == ascii_upper(c),
{
    if 'a' <= c && c <= 'z' {
        (c as u8 - 32) as char
    } else {
        c
    }
}

/// A text with its ASCII capitals turned into small letters.
pub fn ascii_lowercase(text: &str) -> (result: String)
    ensures
        result@ == ascii_lowered(text@),
{
    let list = chars_of(text);
    let mut result = String::new();
    let mut i: usize = 0;
    while i < list.len()
        invariant
            i <= list@.len(),
            result@ == ascii_lowered(list@.take(i as int)),
        decreases list@.len() - i,
    {
        result.push(to_ascii_lower(list[i]));
        assert(ascii_lowered(list@.take(i + 1)) =~= ascii_lowered(list@.take(i as int)).push(
            ascii_lower(list@[i as int]),
        ));
        i += 1;
    }
    assert(list@.take(i as int) =~= list@);
    result
}

/// Whether a text is made of decimal digits.
pub open spec fn all_digits(text: Seq<char>) -> bool {
    forall|i: int| 0 <= i < text.len() ==> '0' <= #[trigger] text[i] && text[i] <= '9'
}

/// The number that a run of decimal digits stands for.
pub open spec fn digits_value(text: Seq<char>) -> nat
    decreases text.len(),
{
    if text.len() == 0 {
        0
    } else {
        digits_value(text.drop_last()) * 10 + (text.last() as int - '0' as int) as nat
    }
}

/// The number that a text names: decimal digits, at least one, after a plus sign or none.
pub open spec fn numeral(text: Seq<char>) -> Option<nat> {
    let digits = if text.len() > 1 && text[0] == '+' {
        text.drop_first()
    } else {
        text
    };
    if digits.len() > 0 && all_digits(digits) {
        Some(digits_value(digits))
    } else {
        None
    }
}

/// The number that a text names, where there is one and it fits.
pub fn parse_u32(text: &str) -> (number: Option<u32>)
    ensures
        number == (match numeral(text@) {
            Some(n) => if n <= u32::MAX {
                Some(n as u32)
            } else {
                None
            },
            None => None,
        }),
{
    let list = chars_of(text);
    let start: usize = if list.len() > 1 && list[0] == '+' {
        1
    } else {
        0
    };
    let ghost digits = list@.skip(start as int);
    assert(digits =~= if list@.len() > 1 && list@[0] == '+' {
        list@.drop_first()
    } else {
        list@
    });
    if list.len() == 0 {
        return None;
    }
    let mut value: u64 = 0;
    let mut fits = true;
    let mut i: usize = start;
    while i < list.len()
        invariant
            start <= i <= list@.len(),
            digits == list@.skip(start as int),
            all_digits(digits.take(i - start)),
            fits <==> digits_value(digits.take(i - start)) <= u32::MAX,
            fits ==> value == digits_value(digits.take(i - start)),
            list@ == text@,
            numeral(text@) == (if digits.len() > 0 && all_digits(digits) {
                Some(digits_value(digits))
            } else {
                None
            }),
        decreases list@.len() - i,
    {
        let c = list[i];
        assert(digits[i - start] == c);
        if c < '0' || '9' < c {
            return None;
        }
        assert(digits.take(i + 1 - start).drop_last() =~= digits.take(i - start));
        if fits {
            value = value * 10 + (c as u64 - 48);
            fits = value <= 4_294_967_295;
        }
        i += 1;
    }
    assert(digits.take(i - start) =~= digits);
    if fits {
        Some(value as u32)
    } else {
        None
    }
}

/// The parts one after the other, `separator` between each two.
pub fn join(parts: &Vec<String>, separator: &str) -> (result: String)
    ensures
        result@ == joined(texts(parts@), separator@),
{
    let mut result = String::new();
    let mut i: usize = 0;
    while i < parts.len()
        invariant
            i <= parts@.len(),
            result@ == joined(texts(parts@.take(i as int)), separator@),
        decreases parts@.len() - i,
    {
        if i > 0 {
            result.append(separator);
        }
        result.append(parts[i].as_str());
        proof {
            let now = texts(parts@.take(i + 1));
            assert(now.drop_last() =~= texts(parts@.take(i as int)));
            assert(now.last() == parts@[i as int]@);
            assert(Seq::<char>::empty() + now.last() =~= now.last());
        }
        i += 1;
    }
    assert(parts@.take(i as int) =~= parts@);
    result
}

/// Whether `a` stands before `b` in the order of strings.
pub fn text_precedes(a: &Vec<char>, b: &Vec<char>) -> (result: bool)
    ensures
        result == precedes(a@, b@),
{
    let mut i: usize = 0;
    assert(a@.skip(0) =~= a@);
    assert(b@.skip(0) =~= b@);
    while i < a.len() && i < b.len()
        invariant
            i <= a@.len(),
            i <= b@.len(),
            precedes(a@, b@) == precedes(a@.skip(i as int), b@.skip(i as int)),
        decreases a@.len() - i,
    {
        let x = a[i];
        let y = b[i];
        if x != y {
            return x < y;
        }
        assert(a@.skip(i as int).drop_first() =~= a@.skip(i + 1));
        assert(b@.skip(i as int).drop_first() =~= b@.skip(i + 1));
        i += 1;
    }
    i < b.len()
}

} // verus!
