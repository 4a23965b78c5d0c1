//! Plain text: decimal numbers, trimming, joining and searching.
use vstd::prelude::*;

verus! {

/// `<str as PartialEq>::eq`: two string slices are equal exactly when they hold
/// the same characters.
pub assume_specification[ <str as PartialEq>::eq ](left: &str, right: &str) -> (same: bool)
    ensures
        same == (left@ == right@),
;

/// `String::push`: appends one character at the end.
pub assume_specification[ String::push ](text: &mut String, character: char)
    ensures
        final(text)@ == old(text)@.push(character),
;

/// The characters of a text, in order.
pub fn chars_of(text: &str) -> (chars: Vec<char>)
    ensures
        chars@ == text@,
{
    let mut chars: Vec<char> = Vec::new();
    for c in iter: text.chars()
        invariant
            chars@ == iter.seq().take(iter.index() as int),
            iter.seq() == text@,
    {
        chars.push(c);
    }
    chars
}

/// `left` followed by `right`.
pub fn concatenated(left: &str, right: &str) -> (text: String)
    ensures
        text@ == left@ + right@,
{
    let mut text = left.to_owned();
    text.append(right);
    text
}

// ---------------------------------------------------------------------------
// Decimal numbers
// ---------------------------------------------------------------------------

/// The character of a decimal digit.
pub open spec fn digit_char(digit: nat) -> char {
    (48 + digit) as char
}

/// A number in decimal, without leading zeros.
pub open spec fn decimal_text(number: nat) -> Seq<char>
    decreases number,
{
    if number < 10 {
        seq![digit_char(number)]
    } else {
        decimal_text(number / 10).push(digit_char(number % 10))
    }
}

/// A signed number in decimal, with a leading `-` when it is negative.
pub open spec fn signed_decimal_text(number: int) -> Seq<char> {
    if number < 0 {
        seq!['-'] + decimal_text((-number) as nat)
    } else {
        decimal_text(number as nat)
    }
}

/// Every character of a decimal number is a digit, and there is at least one.
pub proof fn decimal_text_is_digits(number: nat)
    ensures
        decimal_text(number).len() > 0,
        forall|i: int|
            0 <= i < decimal_text(number).len() ==> '0' <= #[trigger] decimal_text(number)[i]
                <= '9',
    decreases number,
{
    if number >= 10 {
        decimal_text_is_digits(number / 10);
    }
}

/// Different numbers have different decimal texts.
pub proof fn decimal_text_is_injective(left: nat, right: nat)
    requires
        decimal_text(left) == decimal_text(right),
    ensures
        left == right,
    decreases left,
{
    decimal_text_is_digits(left / 10);
    decimal_text_is_digits(right / 10);
    let left_text = decimal_text(left);
    let right_text = decimal_text(right);
    assert(left_text.last() == digit_char(left % 10));
    assert(right_text.last() == digit_char(right % 10));
    assert((48 + left % 10) as char as nat == 48 + left % 10);
    assert((48 + right % 10) as char as nat == 48 + right % 10);
    if left >= 10 && right >= 10 {
        assert(left_text.drop_last() =~= decimal_text(left / 10));
        assert(right_text.drop_last() =~= decimal_text(right / 10));
        decimal_text_is_injective(left / 10, right / 10);
    }
}

/// The text of a decimal digit.
fn digit_of(digit: u64) -> (character: char)
    requires
        digit < 10,
    ensures
        character == digit_char(digit as nat),
{
    (48 + digit as u8) as char
}

/// `number` in decimal.
pub fn decimal(number: u64) -> (text: String)
    ensures
        text@ == decimal_text(number as nat),
    decreases number,
{
    if number < 10 {
        let mut text = String::new();
        text.push(digit_of(number));
        assert(text@ =~= seq![digit_char(number as nat)]);
        text
    } else {
        let mut text = decimal(number / 10);
        text.push(digit_of(number % 10));
        text
    }
}

/// `number` in decimal, with a leading `-` when it is negative.
pub fn signed_decimal(number: i32) -> (text: String)
    ensures
        text@ == signed_decimal_text(number as int),
{
    if number < 0 {
        let magnitude: i64 = -(number as i64);
        let mut text = String::new();
        text.push('-');
        let digits = decimal(magnitude as u64);
        text.append(digits.as_str());
        assert(text@ =~= seq!['-'] + decimal_text(magnitude as nat));
        text
    } else {
        decimal(number as u64)
    }
}

// ---------------------------------------------------------------------------
// White space
// ---------------------------------------------------------------------------

/// The code points with the Unicode property `White_Space`.
pub open spec fn is_white_space_code(code: u32) -> bool {
    ||| 0x9 <= code <= 0xd
    ||| code == 0x20
    ||| code == 0x85
    ||| code == 0xa0
    ||| code == 0x1680
    ||| 0x2000 <= code <= 0x200a
    ||| code == 0x2028
    ||| code == 0x2029
    ||| code == 0x202f
    ||| code == 0x205f
    ||| code == 0x3000
}

/// Whether a character is white space.
pub open spec fn white_space(character: char) -> bool {
    is_white_space_code(character as u32)
}

/// Whether `character` is white space.
pub fn is_white_space(character: char) -> (white: bool)
    ensures
        white == white_space(character),
{
    let code: u32 = character as u32;
    (0x9 <= code && code <= 0xd) || code == 0x20 || code == 0x85 || code == 0xa0 || code == 0x1680
        || (0x2000 <= code && code <= 0x200a) || code == 0x2028 || code == 0x2029 || code == 0x202f
        || code == 0x205f || code == 0x3000
}

/// A text without the white space at its start.
pub open spec fn trimmed_start(text: Seq<char>) -> Seq<char>
    decreases text.len(),
{
    if text.len() > 0 && white_space(text.first()) {
        trimmed_start(text.drop_first())
    } else {
        text
    }
}

/// A text without the white space at its end.
pub open spec fn trimmed_end(text: Seq<char>) -> Seq<char>
    decreases text.len(),
{
    if text.len() > 0 && white_space(text.last()) {
        trimmed_end(text.drop_last())
    } else {
        text
    }
}

/// A text without the white space at its start and at its end.
pub open spec fn trimmed(text: Seq<char>) -> Seq<char> {
    trimmed_end(trimmed_start(text))
}

/// Trimming leaves nothing exactly when there is nothing but white space.
pub proof fn trimmed_is_empty_iff_blank(text: Seq<char>)
    ensures
        (trimmed(text).len() == 0) == (forall|i: int|
            0 <= i < text.len() ==> white_space(#[trigger] text[i])),
{
    trimmed_start_is_empty_iff_blank(text);
    let rest = trimmed_start(text);
    if rest.len() > 0 {
        trimmed_start_starts_black(text);
        trimmed_end_keeps_first(rest);
    }
}

proof fn trimmed_start_is_empty_iff_blank(text: Seq<char>)
    ensures
        (trimmed_start(text).len() == 0) == (forall|i: int|
            0 <= i < text.len() ==> white_space(#[trigger] text[i])),
    decreases text.len(),
{
    if text.len() > 0 && white_space(text.first()) {
        let rest = text.drop_first();
        trimmed_start_is_empty_iff_blank(rest);
        if forall|i: int| 0 <= i < rest.len() ==> white_space(#[trigger] rest[i]) {
            assert forall|i: int| 0 <= i < text.len() implies white_space(#[trigger] text[i]) by {
                if i > 0 {
                    assert(rest[i - 1] == text[i]);
                }
            }
        } else {
            let i = choose|i: int| 0 <= i < rest.len() && !white_space(#[trigger] rest[i]);
            assert(text[i + 1] == rest[i]);
        }
    } else if text.len() > 0 {
        assert(!white_space(text[0]));
    }
}

proof fn trimmed_start_starts_black(text: Seq<char>)
    requires
        trimmed_start(text).len() > 0,
    ensures
        !white_space(trimmed_start(text).first()),
    decreases text.len(),
{
    if text.len() > 0 && white_space(text.first()) {
        trimmed_start_starts_black(text.drop_first());
    }
}

proof fn trimmed_end_keeps_first(text: Seq<char>)
    requires
        text.len() > 0,
        !white_space(text.first()),
    ensures
        trimmed_end(text).len() > 0,
    decreases text.len(),
{
    if white_space(text.last()) {
        trimmed_end_keeps_first(text.drop_last());
    }
}

/// `text` without the white space at its start and at its end.
pub fn trim(text: &str) -> (inner: String)
    ensures
        inner@ == trimmed(text@),
{
    let chars = chars_of(text);
    let mut start: usize = 0;
    assert(text@.skip(0) =~= text@);
    while start < chars.len() && is_white_space(chars[start])
        invariant
            start <= chars.len(),
            chars@ == text@,
            trimmed_start(text@) == trimmed_start(text@.skip(start as int)),
        decreases chars.len() - start,
    {
        proof {
            assert(text@.skip(start as int).drop_first() =~= text@.skip(start + 1));
        }
        start = start + 1;
    }
    assert(trimmed_start(text@) == text@.skip(start as int));
    let mut end: usize = chars.len();
    while end > start && is_white_space(chars[end - 1])
        invariant
            start <= end <= chars.len(),
            chars@ == text@,
            trimmed_start(text@) == text@.skip(start as int),
            trimmed(text@) == trimmed_end(text@.subrange(start as int, end as int)),
        decreases end,
    {
        proof {
            assert(text@.subrange(start as int, end as int).drop_last() =~= text@.subrange(
                start as int,
                end - 1,
            ));
        }
        end = end - 1;
    }
    text.substring_char(start, end).to_owned()
}

// ---------------------------------------------------------------------------
// Searching
// ---------------------------------------------------------------------------

/// Whether `pattern` stands in `text` at position `at`.
pub open spec fn occurs_at(text: Seq<char>, pattern: Seq<char>, at: int) -> bool {
    0 <= at && at + pattern.len() <= text.len() && text.subrange(at, at + pattern.len()) == pattern
}

/// Whether `pattern` stands somewhere in `text`.
pub open spec fn contains_text(text: Seq<char>, pattern: Seq<char>) -> bool {
    exists|at: int| occurs_at(text, pattern, at)
}

/// The lower-case letter of an upper-case ASCII letter; any other character
/// itself.
pub open spec fn ascii_lower(character: char) -> char {
    if 'A' <= character <= 'Z' {
        (character as u8 + 32) as char
    } else {
        character
    }
}

/// A text with its upper-case ASCII letters in lower case.
pub open spec fn ascii_lowercase_text(text: Seq<char>) -> Seq<char> {
    text.map_values(|c: char| ascii_lower(c))
}

/// `character` in lower case if it is an ASCII letter.
fn ascii_lower_of(character: char) -> (lower: char)
    ensures
        lower == ascii_lower(character),
{
    let code: u32 = character as u32;
    if 65 <= code && code <= 90 {
        (code as u8 + 32) as char
    } else {
        character
    }
}

/// Whether `pattern` stands in `text` at position `at`.
fn matches_at(text: &Vec<char>, pattern: &Vec<char>, at: usize) -> (found: bool)
    requires
        at <= text@.len(),
    ensures
        found == occurs_at(text@, pattern@, at as int),
{
    if pattern.len() > text.len() - at {
        return false;
    }
    let mut i: usize = 0;
    while i < pattern.len()
        invariant
            i <= pattern@.len(),
            at + pattern@.len() <= text.len(),
            forall|j: int| 0 <= j < i ==> text@[at + j] == #[trigger] pattern@[j],
        decreases pattern@.len() - i,
    {
        if text[at + i] != pattern[i] {
            assert(text@.subrange(at as int, at + pattern@.len())[i as int] != pattern@[i as int]);
            return false;
        }
        i = i + 1;
    }
    assert(text@.subrange(at as int, at + pattern@.len()) =~= pattern@);
    true
}

/// Whether `pattern` stands somewhere in `text` once the upper-case ASCII
/// letters of `text` are in lower case.
pub fn contains_in_ascii_lowercase(text: &str, pattern: &str) -> (found: bool)
    ensures
        found == contains_text(ascii_lowercase_text(text@), pattern@),
{
    let chars = chars_of(text);
    let mut lower: Vec<char> = Vec::new();
    let mut i: usize = 0;
    while i < chars.len()
        invariant
            i <= chars@.len(),
            lower@ == ascii_lowercase_text(chars@.take(i as int)),
        decreases chars@.len() - i,
    {
        lower.push(ascii_lower_of(chars[i]));
        i = i + 1;
        assert(lower@ =~= ascii_lowercase_text(chars@.take(i as int)));
    }
    assert(chars@.take(i as int) =~= text@);
    let wanted = chars_of(pattern);
    let mut at: usize = 0;
    while at < lower.len()
        invariant
            at <= lower@.len(),
            lower@ == ascii_lowercase_text(text@),
            wanted@ == pattern@,
            forall|j: int| 0 <= j < at ==> !occurs_at(lower@, wanted@, j),
        decreases lower@.len() - at,
    {
        if matches_at(&lower, &wanted, at) {
            return true;
        }
        at = at + 1;
    }
    matches_at(&lower, &wanted, at)
}

// ---------------------------------------------------------------------------
// Joining
// ---------------------------------------------------------------------------

/// The parts in order, with `separator` between neighbours.
pub open spec fn joined(parts: Seq<Seq<char>>, separator: Seq<char>) -> Seq<char>
    decreases parts.len(),
{
    if parts.len() == 0 {
        Seq::empty()
    } else if parts.len() == 1 {
        parts[0]
    } else {
        joined(parts.drop_last(), separator) + separator + parts.last()
    }
}

/// `parts` in order, with `separator` between neighbours.
pub fn join(parts: &Vec<String>, separator: &str) -> (text: String)
    ensures
        text@ == joined(parts.deep_view(), separator@),
{
    let mut text = String::new();
    let mut i: usize = 0;
    let ghost all = parts.deep_view();
    while i < parts.len()
        invariant
            i <= parts@.len(),
            all == parts.deep_view(),
            all.len() == parts@.len(),
            text@ == joined(all.take(i as int), separator@),
        decreases parts@.len() - i,
    {
        proof {
            assert(all.take(i + 1).drop_last() =~= all.take(i as int));
            assert(all.take(i + 1).last() == parts@[i as int]@);
        }
        if i > 0 {
            text.append(separator);
        }
        text.append(parts[i].as_str());
        i = i + 1;
        proof {
            if i == 1 {
                assert(text@ =~= all.take(1)[0]);
            }
        }
    }
    assert(all.take(i as int) =~= all);
    text
}

/// Where `text` first stands among `items`.
pub fn find_text(items: &Vec<String>, text: &str) -> (found: Option<usize>)
    ensures
        match found {
            Some(i) => {
                &&& i < items@.len()
                &&& items.deep_view().index_of_first(text@) == Some(i as int)
                &&& items.deep_view().contains(text@)
            },
            None => {
                &&& items.deep_view().index_of_first(text@) is None
                &&& !items.deep_view().contains(text@)
            },
        },
{
    let ghost all = items.deep_view();
    let mut i: usize = 0;
    while i < items.len()
        invariant
            i <= items@.len(),
            all == items.deep_view(),
            forall|j: int| 0 <= j < i ==> #[trigger] all[j] != text@,
        decreases items@.len() - i,
    {
        if items[i].as_str().eq(text) {
            proof {
                assert(all[i as int] == text@);
                all.index_of_first_ensures(text@);
            }
            return Some(i);
        }
        assert(all[i as int] != text@);
        i = i + 1;
    }
    proof {
        all.index_of_first_ensures(text@);
    }
    None
}

// ---------------------------------------------------------------------------
// What the texts say
// ---------------------------------------------------------------------------

/// The number that decimal digits write.
pub open spec fn digits_value(digits: Seq<char>) -> int
    decreases digits.len(),
{
    if digits.len() == 0 {
        0
    } else {
        10 * digits_value(digits.drop_last()) + (digits.last() as int - '0' as int)
    }
}

/// A decimal text reads back as its number, and has no leading zero.
pub proof fn decimal_text_reads_back(number: nat)
    ensures
        digits_value(decimal_text(number)) == number,
        decimal_text(number).len() > 1 ==> decimal_text(number)[0] != '0',
        decimal_text(number).len() == 1 <==> number < 10,
    decreases number,
{
    let text = decimal_text(number);
    assert((48 + number % 10) as char as int == 48 + number % 10);
    if number < 10 {
        assert(text.drop_last() =~= Seq::empty());
        assert(digits_value(text.drop_last()) == 0);
    } else {
        decimal_text_reads_back(number / 10);
        decimal_text_is_digits(number / 10);
        assert(text.drop_last() =~= decimal_text(number / 10));
        assert(text[0] == decimal_text(number / 10)[0]);
        if decimal_text(number / 10).len() == 1 {
            assert((48 + number / 10) as char as int == 48 + number / 10);
        }
    }
}

/// A signed decimal text reads back as its number: a minus sign stands before the
/// digits exactly where it is negative.
pub proof fn signed_decimal_text_reads_back(number: int)
    ensures
        number >= 0 ==> digits_value(signed_decimal_text(number)) == number,
        number < 0 ==> signed_decimal_text(number)[0] == '-' && digits_value(
            signed_decimal_text(number).skip(1),
        ) == -number,
        number >= 0 ==> signed_decimal_text(number)[0] != '-',
{
    if number < 0 {
        decimal_text_reads_back((-number) as nat);
        assert(signed_decimal_text(number).skip(1) =~= decimal_text((-number) as nat));
    } else {
        decimal_text_reads_back(number as nat);
        decimal_text_is_digits(number as nat);
        assert('0' <= signed_decimal_text(number)[0] <= '9');
    }
}

/// White space is what Unicode calls so.
pub proof fn white_space_is_what_unicode_calls_so(character: char)
    ensures
        white_space(character) <==> {
            ||| '\t' <= character <= '\r'
            ||| character == ' '
            ||| character == '\u{85}'
            ||| character == '\u{a0}'
            ||| character == '\u{1680}'
            ||| '\u{2000}' <= character <= '\u{200a}'
            ||| character == '\u{2028}'
            ||| character == '\u{2029}'
            ||| character == '\u{202f}'
            ||| character == '\u{205f}'
            ||| character == '\u{3000}'
        },
{
}

/// A part of a text stands between white space, and neither starts nor ends with
/// any.
pub open spec fn stands_between_white_space(text: Seq<char>, start: int, end: int) -> bool {
    &&& 0 <= start <= end <= text.len()
    &&& forall|i: int| 0 <= i < start ==> white_space(#[trigger] text[i])
    &&& forall|i: int| end <= i < text.len() ==> white_space(#[trigger] text[i])
    &&& start < end ==> !white_space(text[start]) && !white_space(text[end - 1])
}

proof fn trimmed_start_skips_white_space(text: Seq<char>) -> (start: int)
    ensures
        0 <= start <= text.len(),
        trimmed_start(text) == text.skip(start),
        forall|i: int| 0 <= i < start ==> white_space(#[trigger] text[i]),
        start < text.len() ==> !white_space(text[start]),
    decreases text.len(),
{
    if text.len() > 0 && white_space(text.first()) {
        let rest = text.drop_first();
        let start = trimmed_start_skips_white_space(rest) + 1;
        assert(rest.skip(start - 1) =~= text.skip(start));
        assert forall|i: int| 0 <= i < start implies white_space(#[trigger] text[i]) by {
            if i > 0 {
                assert(rest[i - 1] == text[i]);
            }
        }
        start
    } else {
        assert(text.skip(0) =~= text);
        0
    }
}

proof fn trimmed_end_takes_white_space(text: Seq<char>) -> (end: int)
    ensures
        0 <= end <= text.len(),
        trimmed_end(text) == text.take(end),
        forall|i: int| end <= i < text.len() ==> white_space(#[trigger] text[i]),
        end > 0 ==> !white_space(text[end - 1]),
    decreases text.len(),
{
    if text.len() > 0 && white_space(text.last()) {
        let rest = text.drop_last();
        let end = trimmed_end_takes_white_space(rest);
        assert(rest.take(end) =~= text.take(end));
        assert forall|i: int| end <= i < text.len() implies white_space(#[trigger] text[i]) by {
            if i < rest.len() {
                assert(rest[i] == text[i]);
            }
        }
        end
    } else {
        assert(text.take(text.len() as int) =~= text);
        text.len() as int
    }
}

/// Trimming takes the white space at both ends away, all of it, and nothing else.
pub proof fn trimming_takes_white_space_alone(text: Seq<char>)
    ensures
        exists|start: int, end: int| #[trigger]
            stands_between_white_space(text, start, end) && trimmed(text) == text.subrange(
                start,
                end,
            ),
{
    let start = trimmed_start_skips_white_space(text);
    let rest = text.skip(start);
    let kept = trimmed_end_takes_white_space(rest);
    let end = start + kept;
    assert(rest.take(kept) =~= text.subrange(start, end));
    assert forall|i: int| end <= i < text.len() implies white_space(#[trigger] text[i]) by {
        assert(rest[i - start] == text[i]);
    }
    if start < end {
        assert(rest[kept - 1] == text[end - 1]);
        assert(rest[0] == text[start]);
    }
    assert(stands_between_white_space(text, start, end));
}

/// A character is that of a pattern, or its upper-case ASCII letter.
pub open spec fn same_but_for_case(character: char, wanted: char) -> bool {
    if 'A' <= character <= 'Z' {
        wanted as int == character as int + 32
    } else {
        wanted == character
    }
}

/// A pattern stands at a place of a text, whatever the case of the text's ASCII
/// letters.
pub open spec fn stands_in_any_case(text: Seq<char>, pattern: Seq<char>, at: int) -> bool {
    &&& 0 <= at <= text.len() - pattern.len()
    &&& forall|j: int|
        0 <= j < pattern.len() ==> same_but_for_case(text[at + j], #[trigger] pattern[j])
}

/// Searching in lower case finds a pattern wherever it stands, whatever the case of
/// the text's ASCII letters, and finds nothing else.
pub proof fn searching_ignores_case(text: Seq<char>, pattern: Seq<char>)
    ensures
        contains_text(ascii_lowercase_text(text), pattern) <==> exists|at: int|
            stands_in_any_case(text, pattern, at),
{
    let lower = ascii_lowercase_text(text);
    assert forall|c: char, wanted: char| (#[trigger] ascii_lower(c) == wanted)
        == #[trigger] same_but_for_case(c, wanted) by {
        if 'A' <= c <= 'Z' {
            assert((c as u8 + 32) as char as int == c as int + 32);
        }
    }
    assert forall|at: int| #[trigger] occurs_at(lower, pattern, at) == stands_in_any_case(
        text,
        pattern,
        at,
    ) by {
        if 0 <= at && at + pattern.len() <= text.len() {
            let part = lower.subrange(at, at + pattern.len());
            assert forall|j: int| 0 <= j < pattern.len() implies (part[j] == #[trigger] pattern[j])
                == same_but_for_case(text[at + j], pattern[j]) by {
                assert(part[j] == ascii_lower(text[at + j]));
            }
            if stands_in_any_case(text, pattern, at) {
                assert(part =~= pattern);
            }
        }
    }
    if contains_text(lower, pattern) {
        let at = choose|at: int| occurs_at(lower, pattern, at);
        assert(stands_in_any_case(text, pattern, at));
    }
    if exists|at: int| stands_in_any_case(text, pattern, at) {
        let at = choose|at: int| stands_in_any_case(text, pattern, at);
        assert(occurs_at(lower, pattern, at));
    }
}

/// Joining puts the separator between neighbours and nowhere else: nothing gives
/// nothing, one part gives itself, and two lists one after the other give their
/// texts with the separator between them.
pub proof fn joining_in_two_parts(
    left: Seq<Seq<char>>,
    right: Seq<Seq<char>>,
    part: Seq<char>,
    separator: Seq<char>,
)
    ensures
        joined(Seq::empty(), separator) == Seq::<char>::empty(),
        joined(seq![part], separator) == part,
        left.len() > 0 && right.len() > 0 ==> joined(left + right, separator) == joined(
            left,
            separator,
        ) + separator + joined(right, separator),
    decreases right.len(),
{
    if left.len() > 0 && right.len() > 0 {
        let both = left + right;
        assert(both.last() == right.last());
        if right.len() == 1 {
            assert(both.drop_last() =~= left);
        } else {
            assert(both.drop_last() =~= left + right.drop_last());
            joining_in_two_parts(left, right.drop_last(), part, separator);
            assert(joined(both, separator) =~= joined(left, separator) + separator + joined(
                right,
                separator,
            ));
        }
    }
}

/// The places of the parts that are there, all of them and in order.
pub open spec fn are_filled_places(parts: Seq<Option<Seq<char>>>, places: Seq<int>) -> bool {
    &&& forall|j: int, k: int|
        0 <= j < k < places.len() ==> #[trigger] places[j] < #[trigger] places[k]
    &&& forall|k: int| 0 <= k < places.len() ==> 0 <= #[trigger] places[k] < parts.len()
    &&& forall|i: int|
        0 <= i < parts.len() ==> ((#[trigger] parts[i]) is Some <==> places.contains(i))
}

/// The parts at some places.
pub open spec fn parts_at(parts: Seq<Option<Seq<char>>>, places: Seq<int>) -> Seq<Seq<char>> {
    Seq::new(places.len(), |k: int| parts[places[k]]->0)
}

/// The parts that are there, one after the other.
pub open spec fn filled_parts(parts: Seq<Option<Seq<char>>>) -> Seq<Seq<char>>
    decreases parts.len(),
{
    if parts.len() == 0 {
        Seq::empty()
    } else {
        match parts.last() {
            Some(part) => filled_parts(parts.drop_last()).push(part),
            None => filled_parts(parts.drop_last()),
        }
    }
}

/// The parts that are there stand at places of their own, in order.
pub proof fn filled_parts_stand_in_order(parts: Seq<Option<Seq<char>>>) -> (places: Seq<int>)
    ensures
        are_filled_places(parts, places),
        parts_at(parts, places) == filled_parts(parts),
    decreases parts.len(),
{
    if parts.len() == 0 {
        let none: Seq<int> = Seq::empty();
        assert(parts_at(parts, none) =~= filled_parts(parts));
        none
    } else {
        let rest = parts.drop_last();
        let last = parts.len() - 1;
        let before = filled_parts_stand_in_order(rest);
        let places = if parts.last() is Some {
            before.push(last)
        } else {
            before
        };
        assert(parts_at(parts, before) =~= parts_at(rest, before)) by {
            assert forall|k: int| 0 <= k < before.len() implies rest[#[trigger] before[k]]
                == parts[before[k]] by {}
        }
        assert(parts_at(parts, places) =~= filled_parts(parts));
        assert forall|i: int| 0 <= i < parts.len() implies ((#[trigger] parts[i]) is Some
            <==> places.contains(i)) by {
            if i < last {
                assert(rest[i] == parts[i]);
                if before.contains(i) {
                    let k = choose|k: int| 0 <= k < before.len() && before[k] == i;
                    assert(places[k] == i);
                }
                if places.contains(i) {
                    let k = choose|k: int| 0 <= k < places.len() && places[k] == i;
                    assert(k < before.len() && before[k] == i);
                }
            } else {
                if parts[i] is Some {
                    assert(places[before.len() as int] == i);
                } else if places.contains(i) {
                    let k = choose|k: int| 0 <= k < places.len() && places[k] == i;
                    assert(before[k] < rest.len());
                }
            }
        }
        places
    }
}

/// Where two texts are equal and begin and end alike, what stands between is equal.
pub proof fn what_stands_between_is_equal(
    start: Seq<char>,
    left: Seq<char>,
    right: Seq<char>,
    end: Seq<char>,
)
    requires
        start + left + end == start + right + end,
    ensures
        left == right,
{
    let text = start + left + end;
    assert(text.len() == (start + right + end).len());
    assert(text.subrange(start.len() as int, text.len() - end.len()) =~= left);
    assert((start + right + end).subrange(start.len() as int, text.len() - end.len()) =~= right);
}

} // verus!
