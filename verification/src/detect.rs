//! Finding a datetime stamp inside a path.
//!
//! A stamp is looked for in the bytes of the text, and its place is given in
//! byte offsets. The grammar of a stamp, field by field:
//!
//! * a year of four digits,
//! * an optional `-`, a month `01` to `12`,
//! * an optional `-`, a day `01` to `31`,
//! * the letter `T`,
//! * an hour `00` to `23`,
//! * an optional `:`, a minute `00` to `59`,
//! * an optional `:`, a second `00` to `59`,
//! * an optional `-`, the hours of the offset, `00` to `23`,
//! * an optional `:`, the minutes of the offset, `00` to `59`.
//!
//! The grammar knows no `+` before the offset. A stamp that was written for
//! an offset of zero or east of UTC (`...+0000`) is therefore not found, while
//! one for an offset west of UTC (`...-0800`) is. The search keeps to the
//! grammar as it stands: it finds what the pattern of `iso8601_pattern`
//! finds, and `lemma_find_in_compact_text` says which of the crate's own
//! stamps those are.

use vstd::prelude::*;
use vstd::slice::*;
use vstd::string::*;
use vstd::utf8::{
    encode_utf8, is_ascii_chars, is_ascii_chars_encode_utf8, is_char_boundary,
    is_char_boundary_iff_not_is_continuation_byte, length_of_first_scalar, pop_first_scalar,
    valid_utf8,
};
use crate::codec::{
    lemma_encode_chars, lemma_two_digits_spell, offset_size, spec_encode, COMPACT_LEN,
};
use crate::timestamp::Moment;

verus! {

/// The byte of the digit `0`.
pub const DIGIT_ZERO: u8 = 48;

/// The byte of the digit `9`.
pub const DIGIT_NINE: u8 = 57;

/// The byte of `-`.
pub const DASH: u8 = 45;

/// The byte of `:`.
pub const COLON: u8 = 58;

/// The byte of the letter `T`.
pub const LETTER_T: u8 = 84;

/// `x` is the byte of one of `0` to `9`.
pub open spec fn is_digit_byte(x: u8) -> bool {
    DIGIT_ZERO <= x <= DIGIT_NINE
}

/// Two digits stand at `at`.
pub open spec fn two_digits_at(b: Seq<u8>, at: int) -> bool {
    0 <= at && at + 1 < b.len() && is_digit_byte(b[at]) && is_digit_byte(b[at + 1])
}

/// The number that the two digits at `at` spell.
pub open spec fn two_value(b: Seq<u8>, at: int) -> int {
    (b[at] - DIGIT_ZERO) * 10 + (b[at + 1] - DIGIT_ZERO)
}

/// The position behind a year that starts at `at`.
pub open spec fn year(b: Seq<u8>, at: Option<int>) -> Option<int> {
    match at {
        Some(p) if two_digits_at(b, p) && two_digits_at(b, p + 2) => Some(p + 4),
        _ => None,
    }
}

/// The position behind a number of two digits at `at` that lies in
/// `low..=high`.
pub open spec fn number(b: Seq<u8>, at: Option<int>, low: int, high: int) -> Option<int> {
    match at {
        Some(p) if two_digits_at(b, p) && low <= two_value(b, p) <= high => Some(p + 2),
        _ => None,
    }
}

/// The position behind the byte `mark` if it stands at `at`, else `at`.
pub open spec fn maybe(b: Seq<u8>, at: Option<int>, mark: u8) -> Option<int> {
    match at {
        Some(p) if 0 <= p < b.len() && b[p] == mark => Some(p + 1),
        _ => at,
    }
}

/// The position behind the byte `mark`, which must stand at `at`.
pub open spec fn exactly(b: Seq<u8>, at: Option<int>, mark: u8) -> Option<int> {
    match at {
        Some(p) if 0 <= p < b.len() && b[p] == mark => Some(p + 1),
        _ => None,
    }
}

/// The end of the stamp that starts at `start`, if one starts there.
pub open spec fn stamp_end(b: Seq<u8>, start: int) -> Option<int> {
    let p = year(b, Some(start));
    let p = number(b, maybe(b, p, DASH), 1, 12);
    let p = number(b, maybe(b, p, DASH), 1, 31);
    let p = exactly(b, p, LETTER_T);
    let p = number(b, p, 0, 23);
    let p = number(b, maybe(b, p, COLON), 0, 59);
    let p = number(b, maybe(b, p, COLON), 0, 59);
    let p = number(b, maybe(b, p, DASH), 0, 23);
    number(b, maybe(b, p, COLON), 0, 59)
}

/// The first stamp that starts at `from` or later, as the pair of its start
/// and its end.
pub open spec fn first_stamp_from(b: Seq<u8>, from: int) -> Option<(int, int)>
    decreases b.len() - from,
{
    if from >= b.len() {
        None
    } else {
        match stamp_end(b, from) {
            Some(end) => Some((from, end)),
            None => first_stamp_from(b, from + 1),
        }
    }
}

/// The first stamp in `b`, as the pair of its start and its end.
pub open spec fn spec_find(b: Seq<u8>) -> Option<(int, int)> {
    first_stamp_from(b, 0)
}

/// A stamp ends behind where it starts and inside the text.
pub proof fn lemma_stamp_end_bounds(b: Seq<u8>, start: int)
    requires
        0 <= start,
    ensures
        stamp_end(b, start) matches Some(end) ==> start + 19 <= end <= start + 25 && end
            <= b.len(),
{
}

/// `first_stamp_from` gives the leftmost stamp from `from` on: none starts
/// between `from` and its start, and where it gives nothing none starts at
/// all.
pub proof fn lemma_first_stamp_is_leftmost(b: Seq<u8>, from: int)
    requires
        0 <= from,
    ensures
        match first_stamp_from(b, from) {
            Some((start, end)) => {
                &&& from <= start < end <= b.len()
                &&& stamp_end(b, start) == Some(end)
                &&& forall|j: int| from <= j < start ==> stamp_end(b, j) is None
            },
            None => forall|j: int| from <= j ==> stamp_end(b, j) is None,
        },
    decreases b.len() - from,
{
    if from < b.len() {
        lemma_stamp_end_bounds(b, from);
        if stamp_end(b, from) is None {
            lemma_first_stamp_is_leftmost(b, from + 1);
        }
    } else {
        assert forall|j: int| from <= j implies stamp_end(b, j) is None by {
            lemma_stamp_end_bounds(b, j);
        }
    }
}

/// The grammar of a stamp as a regular expression, for those who search
/// with one.
pub fn iso8601_pattern() -> (r: &'static str)
    ensures
        r@
            == "([0-9]{4})-?(1[0-2]|0[1-9])-?(3[01]|0[1-9]|[12][0-9])T(2[0-3]|[01][0-9]):?([0-5][0-9]):?([0-5][0-9])-?(2[0-3]|[01][0-9]):?([0-5][0-9])"@,
{
    "([0-9]{4})-?(1[0-2]|0[1-9])-?(3[01]|0[1-9]|[12][0-9])T(2[0-3]|[01][0-9]):?([0-5][0-9]):?([0-5][0-9])-?(2[0-3]|[01][0-9]):?([0-5][0-9])"
}

/// A position in the text, or none, as a mathematical value.
pub open spec fn position(p: Option<usize>) -> Option<int> {
    match p {
        Some(v) => Some(v as int),
        None => None,
    }
}

/// A span of the text, or none, as a mathematical value.
pub open spec fn span(s: Option<(usize, usize)>) -> Option<(int, int)> {
    match s {
        Some((start, end)) => Some((start as int, end as int)),
        None => None,
    }
}

fn has_two_digits(b: &[u8], at: usize) -> (r: bool)
    ensures
        r == two_digits_at(b@, at as int),
{
    at < b.len() && b.len() - at >= 2 && DIGIT_ZERO <= b[at] && b[at] <= DIGIT_NINE && DIGIT_ZERO
        <= b[at + 1] && b[at + 1] <= DIGIT_NINE
}

fn scan_year(b: &[u8], at: Option<usize>) -> (r: Option<usize>)
    ensures
        position(r) == year(b@, position(at)),
{
    match at {
        Some(p) => {
            if p < b.len() && has_two_digits(b, p) && has_two_digits(b, p + 2) {
                Some(p + 4)
            } else {
                None
            }
        },
        None => None,
    }
}

fn scan_number(b: &[u8], at: Option<usize>, low: u8, high: u8) -> (r: Option<usize>)
    ensures
        position(r) == number(b@, position(at), low as int, high as int),
{
    match at {
        Some(p) => {
            if p < b.len() && has_two_digits(b, p) {
                let value: u8 = (b[p] - DIGIT_ZERO) * 10 + (b[p + 1] - DIGIT_ZERO);
                if low <= value && value <= high {
                    Some(p + 2)
                } else {
                    None
                }
            } else {
                None
            }
        },
        None => None,
    }
}

fn scan_maybe(b: &[u8], at: Option<usize>, mark: u8) -> (r: Option<usize>)
    ensures
        position(r) == maybe(b@, position(at), mark),
{
    match at {
        Some(p) => {
            if p < b.len() && b[p] == mark {
                Some(p + 1)
            } else {
                Some(p)
            }
        },
        None => None,
    }
}

fn scan_exactly(b: &[u8], at: Option<usize>, mark: u8) -> (r: Option<usize>)
    ensures
        position(r) == exactly(b@, position(at), mark),
{
    match at {
        Some(p) => {
            if p < b.len() && b[p] == mark {
                Some(p + 1)
            } else {
                None
            }
        },
        None => None,
    }
}

/// Matches the grammar of a stamp at `start`.
fn scan_stamp(b: &[u8], start: usize) -> (r: Option<usize>)
    ensures
        position(r) == stamp_end(b@, start as int),
{
    let p = scan_year(b, Some(start));
    let p = scan_maybe(b, p, DASH);
    let p = scan_number(b, p, 1, 12);
    let p = scan_maybe(b, p, DASH);
    let p = scan_number(b, p, 1, 31);
    let p = scan_exactly(b, p, LETTER_T);
    let p = scan_number(b, p, 0, 23);
    let p = scan_maybe(b, p, COLON);
    let p = scan_number(b, p, 0, 59);
    let p = scan_maybe(b, p, COLON);
    let p = scan_number(b, p, 0, 59);
    let p = scan_maybe(b, p, DASH);
    let p = scan_number(b, p, 0, 23);
    let p = scan_maybe(b, p, COLON);
    scan_number(b, p, 0, 59)
}

/// Finds the first stamp in `bytes` and gives the offsets of its first byte
/// and of the byte behind its last.
pub fn find_stamp(bytes: &[u8]) -> (r: Option<(usize, usize)>)
    ensures
        span(r) == spec_find(bytes@),
{
    let mut from: usize = 0;
    while from < bytes.len()
        invariant
            from <= bytes.len(),
            spec_find(bytes@) == first_stamp_from(bytes@, from as int),
        decreases bytes.len() - from,
    {
        match scan_stamp(bytes, from) {
            Some(end) => {
                return Some((from, end));
            },
            None => {},
        }
        from = from + 1;
    }
    None
}

/// Finds the first datetime stamp in `path`.
///
/// The result is the half-open span of the stamp in byte offsets into
/// `path`, or `None` if `path` holds no stamp.
pub fn path_datetime_indices(path: &str) -> (r: Option<(usize, usize)>)
    ensures
        span(r) == spec_find(path.spec_bytes()),
{
    find_stamp(path.as_bytes())
}

/// Says whether `path` holds a datetime stamp.
pub fn is_path_datetime_stamped(path: &str) -> (r: bool)
    ensures
        r == spec_find(path.spec_bytes()) is Some,
{
    path_datetime_indices(path).is_some()
}

/// The byte of `+`.
pub const PLUS: u8 = 43;

/// The bytes of the compact text of a valid moment: which of them are
/// digits, where the separators stand, and what the digits spell.
pub proof fn lemma_compact_text_bytes(m: Moment)
    requires
        m.valid(),
    ensures
        ({
            let b = encode_utf8(spec_encode(m));
            &&& b.len() == COMPACT_LEN
            &&& forall|i: int|
                0 <= i < COMPACT_LEN && i != 4 && i != 7 && i != 10 && i != 17 ==> is_digit_byte(
                    #[trigger] b[i],
                )
            &&& b[4] == DASH
            &&& b[7] == DASH
            &&& b[10] == LETTER_T
            &&& b[17] == (if m.offset_minutes < 0 {
                DASH
            } else {
                PLUS
            })
            &&& two_value(b, 5) == m.month
            &&& two_value(b, 8) == m.day
            &&& two_value(b, 11) == m.hour
            &&& two_value(b, 13) == m.minute
            &&& two_value(b, 15) == m.second
            &&& two_value(b, 18) == offset_size(m.offset_minutes) / 60
            &&& two_value(b, 20) == offset_size(m.offset_minutes) % 60
        }),
{
    let text = spec_encode(m);
    let b = encode_utf8(text);
    let size = offset_size(m.offset_minutes);
    lemma_encode_chars(m);
    lemma_two_digits_spell(m.year / 100);
    lemma_two_digits_spell(m.year % 100);
    lemma_two_digits_spell(m.month);
    lemma_two_digits_spell(m.day);
    lemma_two_digits_spell(m.hour);
    lemma_two_digits_spell(m.minute);
    lemma_two_digits_spell(m.second);
    lemma_two_digits_spell(size / 60);
    lemma_two_digits_spell(size % 60);
    assert(is_ascii_chars(text));
    is_ascii_chars_encode_utf8(text);
    assert forall|i: int| 0 <= i < COMPACT_LEN implies b[i] == text[i] as u8 by {}
}

/// A stamp starts with four digits and has the letter `T` eight to ten
/// bytes behind its start.
pub proof fn lemma_stamp_shape(b: Seq<u8>, start: int)
    requires
        0 <= start,
        stamp_end(b, start) is Some,
    ensures
        start + 10 < b.len(),
        is_digit_byte(b[start]),
        is_digit_byte(b[start + 1]),
        is_digit_byte(b[start + 2]),
        is_digit_byte(b[start + 3]),
        b[start + 8] == LETTER_T || b[start + 9] == LETTER_T || b[start + 10] == LETTER_T,
{
}

/// Where nothing from `from` on starts a stamp, none is found.
pub proof fn lemma_no_stamp_none_found(b: Seq<u8>, from: int)
    requires
        0 <= from,
        forall|j: int| from <= j ==> stamp_end(b, j) is None,
    ensures
        first_stamp_from(b, from) is None,
    decreases b.len() - from,
{
    if from < b.len() {
        lemma_no_stamp_none_found(b, from + 1);
    }
}

/// Which of the crate's own stamps are found again. The compact text of a
/// valid moment is found, as a whole, exactly when its offset lies west of
/// UTC; with an offset of zero or east of UTC nothing is found in it.
pub proof fn lemma_find_in_compact_text(m: Moment)
    requires
        m.valid(),
    ensures
        m.offset_minutes < 0 ==> spec_find(encode_utf8(spec_encode(m))) == Some(
            (0int, COMPACT_LEN as int),
        ),
        m.offset_minutes >= 0 ==> spec_find(encode_utf8(spec_encode(m))) is None,
{
    let b = encode_utf8(spec_encode(m));
    lemma_compact_text_bytes(m);
    assert(is_digit_byte(b[0]) && is_digit_byte(b[1]) && is_digit_byte(b[2]) && is_digit_byte(
        b[3],
    ));
    assert(is_digit_byte(b[5]) && is_digit_byte(b[6]) && is_digit_byte(b[8]) && is_digit_byte(
        b[9],
    ));
    assert(is_digit_byte(b[11]) && is_digit_byte(b[12]) && is_digit_byte(b[13]) && is_digit_byte(
        b[14],
    ) && is_digit_byte(b[15]) && is_digit_byte(b[16]));
    assert(is_digit_byte(b[18]) && is_digit_byte(b[19]) && is_digit_byte(b[20]) && is_digit_byte(
        b[21],
    ));
    assert forall|j: int| 1 <= j implies stamp_end(b, j) is None by {
        if stamp_end(b, j) is Some {
            lemma_stamp_shape(b, j);
            assert(forall|i: int| 0 <= i < COMPACT_LEN && i != 10 ==> #[trigger] b[i] != LETTER_T);
            assert(j <= 2);
            assert(!is_digit_byte(b[4]));
        }
    }
    if m.offset_minutes < 0 {
        assert(stamp_end(b, 0) == Some(COMPACT_LEN as int));
    } else {
        assert(stamp_end(b, 0) is None);
        lemma_no_stamp_none_found(b, 0);
    }
}

/// In UTF-8 a character of one byte ends where the next character starts:
/// behind a character boundary with a byte below 128 on it comes another
/// boundary.
pub proof fn lemma_boundary_behind_ascii(bytes: Seq<u8>, at: int)
    requires
        valid_utf8(bytes),
        0 <= at < bytes.len(),
        is_char_boundary(bytes, at),
        bytes[at] < 128,
    ensures
        is_char_boundary(bytes, at + 1),
    decreases bytes.len(),
{
    let rest = pop_first_scalar(bytes);
    let width = length_of_first_scalar(bytes);
    assert(valid_utf8(rest));
    assert(1 <= width <= bytes.len());
    if at == 0 {
        assert(width == 1);
        assert(is_char_boundary(rest, 0));
    } else {
        assert(is_char_boundary(rest, at - width));
        if at - width < 0 {
            assert(at - width != 0);
            assert(!is_char_boundary(rest, at - width));
        }
        assert(rest[at - width] == bytes[at]);
        lemma_boundary_behind_ascii(rest, at - width);
        assert(is_char_boundary(rest, at + 1 - width));
    }
}

/// A stamp starts and ends between characters, whatever text stands around
/// it.
pub proof fn lemma_stamp_on_char_boundaries(bytes: Seq<u8>, start: int)
    requires
        valid_utf8(bytes),
        0 <= start,
        stamp_end(bytes, start) is Some,
    ensures
        is_char_boundary(bytes, start),
        is_char_boundary(bytes, stamp_end(bytes, start)->0),
{
    let end = stamp_end(bytes, start)->0;
    lemma_stamp_end_bounds(bytes, start);
    assert(is_digit_byte(bytes[start]));
    assert(is_digit_byte(bytes[end - 1]));
    is_char_boundary_iff_not_is_continuation_byte(bytes, start);
    is_char_boundary_iff_not_is_continuation_byte(bytes, end - 1);
    lemma_boundary_behind_ascii(bytes, end - 1);
}

} // verus!
