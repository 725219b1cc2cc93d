//! The compact datetime text `YYYY-MM-DDTHHMMSS±HHMM`.
//!
//! The date keeps its dashes; the time and the offset have no separators.
//! Every field is padded with zeros to its width. The sign is `-` for an
//! offset west of UTC and `+` otherwise, so an offset of zero is written
//! `+0000`.

use vstd::prelude::*;
use vstd::string::*;
use crate::parts::is_decimal_digit;
use crate::timestamp::{Moment, Timestamp};

verus! {

/// The number of characters of a compact datetime text.
pub const COMPACT_LEN: usize = 22;

/// The character for the digit `d`.
pub open spec fn digit_char(d: int) -> char {
    (d + 48) as char
}

/// The digit that the character `c` stands for.
pub open spec fn digit_value(c: char) -> int {
    c as int - 48
}

/// `v` in two digits.
pub open spec fn two_digits(v: int) -> Seq<char> {
    seq![digit_char(v / 10), digit_char(v % 10)]
}

/// `v` in four digits.
pub open spec fn four_digits(v: int) -> Seq<char> {
    two_digits(v / 100) + two_digits(v % 100)
}

/// The size of an offset, without its direction.
pub open spec fn offset_size(offset_minutes: int) -> int {
    if offset_minutes < 0 {
        -offset_minutes
    } else {
        offset_minutes
    }
}

/// The sign that is written for an offset.
pub open spec fn sign_char(offset_minutes: int) -> char {
    if offset_minutes < 0 {
        '-'
    } else {
        '+'
    }
}

/// The compact text of `m`.
pub open spec fn spec_encode(m: Moment) -> Seq<char> {
    four_digits(m.year) + seq!['-'] + two_digits(m.month) + seq!['-'] + two_digits(m.day)
        + seq!['T'] + two_digits(m.hour) + two_digits(m.minute) + two_digits(m.second)
        + seq![sign_char(m.offset_minutes)] + two_digits(offset_size(m.offset_minutes) / 60)
        + two_digits(offset_size(m.offset_minutes) % 60)
}

/// The number that the two characters of `s` from `at` on spell.
pub open spec fn two_at(s: Seq<char>, at: int) -> int {
    digit_value(s[at]) * 10 + digit_value(s[at + 1])
}

/// The number that the four characters of `s` from `at` on spell.
pub open spec fn four_at(s: Seq<char>, at: int) -> int {
    two_at(s, at) * 100 + two_at(s, at + 2)
}

/// `s` has the length of a compact text, digits where digits belong, and the
/// separators and the sign in their places.
pub open spec fn well_shaped(s: Seq<char>) -> bool {
    &&& s.len() == COMPACT_LEN
    &&& forall|i: int| 0 <= i < 4 ==> is_decimal_digit(#[trigger] s[i])
    &&& s[4] == '-'
    &&& forall|i: int| 5 <= i < 7 ==> is_decimal_digit(#[trigger] s[i])
    &&& s[7] == '-'
    &&& forall|i: int| 8 <= i < 10 ==> is_decimal_digit(#[trigger] s[i])
    &&& s[10] == 'T'
    &&& forall|i: int| 11 <= i < 17 ==> is_decimal_digit(#[trigger] s[i])
    &&& (s[17] == '+' || s[17] == '-')
    &&& forall|i: int| 18 <= i < 22 ==> is_decimal_digit(#[trigger] s[i])
}

/// What a well-shaped text spells, field by field.
pub open spec fn spelled(s: Seq<char>) -> Moment {
    let size = two_at(s, 18) * 60 + two_at(s, 20);
    Moment {
        year: four_at(s, 0),
        month: two_at(s, 5),
        day: two_at(s, 8),
        hour: two_at(s, 11),
        minute: two_at(s, 13),
        second: two_at(s, 15),
        offset_minutes: if s[17] == '-' {
            -size
        } else {
            size
        },
    }
}

/// The moment that `s` stands for, if `s` is a compact datetime text: it is
/// well shaped, and every field is in its range (the hours and minutes of
/// the offset as those of the time).
pub open spec fn spec_decode(s: Seq<char>) -> Option<Moment> {
    if well_shaped(s) && spelled(s).valid() && two_at(s, 18) <= 23 && two_at(s, 20) <= 59 {
        Some(spelled(s))
    } else {
        None
    }
}

/// The characters of a compact text, one by one.
pub proof fn lemma_encode_chars(m: Moment)
    ensures
        spec_encode(m).len() == COMPACT_LEN,
        spec_encode(m)[0] == digit_char((m.year / 100) / 10),
        spec_encode(m)[1] == digit_char((m.year / 100) % 10),
        spec_encode(m)[2] == digit_char((m.year % 100) / 10),
        spec_encode(m)[3] == digit_char((m.year % 100) % 10),
        spec_encode(m)[4] == '-',
        spec_encode(m)[5] == digit_char(m.month / 10),
        spec_encode(m)[6] == digit_char(m.month % 10),
        spec_encode(m)[7] == '-',
        spec_encode(m)[8] == digit_char(m.day / 10),
        spec_encode(m)[9] == digit_char(m.day % 10),
        spec_encode(m)[10] == 'T',
        spec_encode(m)[11] == digit_char(m.hour / 10),
        spec_encode(m)[12] == digit_char(m.hour % 10),
        spec_encode(m)[13] == digit_char(m.minute / 10),
        spec_encode(m)[14] == digit_char(m.minute % 10),
        spec_encode(m)[15] == digit_char(m.second / 10),
        spec_encode(m)[16] == digit_char(m.second % 10),
        spec_encode(m)[17] == sign_char(m.offset_minutes),
        spec_encode(m)[18] == digit_char((offset_size(m.offset_minutes) / 60) / 10),
        spec_encode(m)[19] == digit_char((offset_size(m.offset_minutes) / 60) % 10),
        spec_encode(m)[20] == digit_char((offset_size(m.offset_minutes) % 60) / 10),
        spec_encode(m)[21] == digit_char((offset_size(m.offset_minutes) % 60) % 10),
{
}

/// Two digits spell the number they were written for.
pub proof fn lemma_two_digits_spell(v: int)
    requires
        0 <= v <= 99,
    ensures
        is_decimal_digit(digit_char(v / 10)),
        is_decimal_digit(digit_char(v % 10)),
        digit_value(digit_char(v / 10)) * 10 + digit_value(digit_char(v % 10)) == v,
{
}

/// Decoding undoes encoding: the compact text of a valid moment is read
/// back as that moment, field for field.
pub proof fn lemma_decode_encode(m: Moment)
    requires
        m.valid(),
    ensures
        spec_decode(spec_encode(m)) == Some(m),
{
    let s = spec_encode(m);
    let size = offset_size(m.offset_minutes);
    lemma_encode_chars(m);
    lemma_two_digits_spell(m.year / 100);
    lemma_two_digits_spell(m.year % 100);
    lemma_two_digits_spell(m.month);
    lemma_two_digits_spell(m.day);
    lemma_two_digits_spell(m.hour);
    lemma_two_digits_spell(m.minute);
    lemma_two_digits_spell(m.second);
    lemma_two_digits_spell(size / 60);
    lemma_two_digits_spell(size % 60);
    assert(well_shaped(s));
    assert(two_at(s, 0) == m.year / 100);
    assert(two_at(s, 2) == m.year % 100);
    assert(two_at(s, 5) == m.month);
    assert(two_at(s, 8) == m.day);
    assert(two_at(s, 11) == m.hour);
    assert(two_at(s, 13) == m.minute);
    assert(two_at(s, 15) == m.second);
    assert(two_at(s, 18) == size / 60);
    assert(two_at(s, 20) == size % 60);
    assert(spelled(s) == m);
}

/// Two digits are written again as they were read.
pub proof fn lemma_two_digits_respell(s: Seq<char>, at: int)
    requires
        0 <= at,
        at + 1 < s.len(),
        is_decimal_digit(s[at]),
        is_decimal_digit(s[at + 1]),
    ensures
        0 <= two_at(s, at) <= 99,
        digit_char(two_at(s, at) / 10) == s[at],
        digit_char(two_at(s, at) % 10) == s[at + 1],
{
}

/// Encoding undoes decoding, but for the sign of a zero offset: text that
/// is read as a moment is the compact text of that moment, unless it spells
/// the offset zero with the sign `-`.
pub proof fn lemma_encode_decode(s: Seq<char>)
    requires
        spec_decode(s) is Some,
    ensures
        spec_decode(s)->0.valid(),
        s[17] == '+' || spec_decode(s)->0.offset_minutes != 0 ==> spec_encode(spec_decode(s)->0)
            == s,
{
    let m = spec_decode(s)->0;
    let size = offset_size(m.offset_minutes);
    lemma_encode_chars(m);
    lemma_two_digits_respell(s, 0);
    lemma_two_digits_respell(s, 2);
    lemma_two_digits_respell(s, 5);
    lemma_two_digits_respell(s, 8);
    lemma_two_digits_respell(s, 11);
    lemma_two_digits_respell(s, 13);
    lemma_two_digits_respell(s, 15);
    lemma_two_digits_respell(s, 18);
    lemma_two_digits_respell(s, 20);
    assert(m.year / 100 == two_at(s, 0) && m.year % 100 == two_at(s, 2));
    assert(size / 60 == two_at(s, 18) && size % 60 == two_at(s, 20));
    if s[17] == '+' || m.offset_minutes != 0 {
        assert(spec_encode(m) =~= s);
    }
}

/// East or west makes no difference at zero: both offsets are the same
/// moment and are written with the sign `+`.
pub proof fn lemma_zero_offset_sign(m: Moment, minutes: int)
    requires
        m.valid(),
        minutes == 0,
    ensures
        spec_encode(m.with_offset(minutes)) == spec_encode(m.with_offset(-minutes)),
        spec_encode(m.with_offset(minutes))[17] == '+',
        spec_encode(m.with_offset(minutes)).subrange(18, 22) =~= seq!['0', '0', '0', '0'],
{
    lemma_encode_chars(m.with_offset(minutes));
}

/// The text of one digit.
fn digit_str(d: u32) -> (r: &'static str)
    requires
        d <= 9,
    ensures
        r@ == seq![digit_char(d as int)],
{
    proof {
        reveal_strlit("0");
        reveal_strlit("1");
        reveal_strlit("2");
        reveal_strlit("3");
        reveal_strlit("4");
        reveal_strlit("5");
        reveal_strlit("6");
        reveal_strlit("7");
        reveal_strlit("8");
        reveal_strlit("9");
    }
    let r = if d == 0 {
        "0"
    } else if d == 1 {
        "1"
    } else if d == 2 {
        "2"
    } else if d == 3 {
        "3"
    } else if d == 4 {
        "4"
    } else if d == 5 {
        "5"
    } else if d == 6 {
        "6"
    } else if d == 7 {
        "7"
    } else if d == 8 {
        "8"
    } else {
        "9"
    };
    assert(r@ =~= seq![digit_char(d as int)]);
    r
}

/// Appends `v` in two digits.
fn push_two_digits(out: &mut String, v: u32)
    requires
        v <= 99,
    ensures
        final(out)@ == old(out)@ + two_digits(v as int),
{
    out.append(digit_str(v / 10));
    out.append(digit_str(v % 10));
    assert(out@ =~= old(out)@ + two_digits(v as int));
}

impl Timestamp {
    /// Writes the timestamp as compact datetime text.
    pub fn to_iso_string(&self) -> (r: String)
        ensures
            r@ == spec_encode(self@),
    {
        let year: u32 = self.year();
        let offset: i32 = self.offset_minutes();
        let size: u32 = if offset < 0 {
            (-offset) as u32
        } else {
            offset as u32
        };
        let mut out = String::new();
        push_two_digits(&mut out, year / 100);
        push_two_digits(&mut out, year % 100);
        out.append("-");
        push_two_digits(&mut out, self.month());
        out.append("-");
        push_two_digits(&mut out, self.day());
        out.append("T");
        push_two_digits(&mut out, self.hour());
        push_two_digits(&mut out, self.minute());
        push_two_digits(&mut out, self.second());
        if offset < 0 {
            out.append("-");
        } else {
            out.append("+");
        }
        push_two_digits(&mut out, size / 60);
        push_two_digits(&mut out, size % 60);
        proof {
            reveal_strlit("-");
            reveal_strlit("T");
            reveal_strlit("+");
            assert(out@ =~= spec_encode(self@));
        }
        out
    }
}

/// The digit at `at`, if a digit stands there.
fn read_digit(s: &str, at: usize) -> (r: Option<u32>)
    requires
        at < s@.len(),
    ensures
        r is Some <==> is_decimal_digit(s@[at as int]),
        r matches Some(d) ==> d == digit_value(s@[at as int]),
{
    let c = s.get_char(at);
    if '0' <= c && c <= '9' {
        Some(c as u32 - 48)
    } else {
        None
    }
}

/// The number that the two characters from `at` on spell, if both are
/// digits.
fn read_two_digits(s: &str, at: usize) -> (r: Option<u32>)
    requires
        s@.len() == COMPACT_LEN,
        at + 1 < COMPACT_LEN,
    ensures
        r is Some <==> is_decimal_digit(s@[at as int]) && is_decimal_digit(s@[at + 1]),
        r matches Some(v) ==> v == two_at(s@, at as int) && v <= 99,
{
    match (read_digit(s, at), read_digit(s, at + 1)) {
        (Some(tens), Some(ones)) => Some(tens * 10 + ones),
        _ => None,
    }
}

/// Reads compact datetime text.
///
/// The result is `Some` exactly when the whole of `dt_as_string` is a
/// compact datetime text, and then holds the moment that the text spells.
/// No field is checked against the calendar.
pub fn datetime_from_iso_string(dt_as_string: &str) -> (r: Option<Timestamp>)
    ensures
        r is Some <==> spec_decode(dt_as_string@) is Some,
        r matches Some(t) ==> Some(t@) == spec_decode(dt_as_string@),
{
    let s = dt_as_string;
    if s.unicode_len() != COMPACT_LEN {
        return None;
    }
    let century = read_two_digits(s, 0);
    let years = read_two_digits(s, 2);
    let month = read_two_digits(s, 5);
    let day = read_two_digits(s, 8);
    let hour = read_two_digits(s, 11);
    let minute = read_two_digits(s, 13);
    let second = read_two_digits(s, 15);
    let offset_hours = read_two_digits(s, 18);
    let offset_mins = read_two_digits(s, 20);
    let sign = s.get_char(17);
    let separators = s.get_char(4) == '-' && s.get_char(7) == '-' && s.get_char(10) == 'T' && (sign
        == '+' || sign == '-');
    match (century, years, month, day, hour, minute, second, offset_hours, offset_mins) {
        (
            Some(century),
            Some(years),
            Some(month),
            Some(day),
            Some(hour),
            Some(minute),
            Some(second),
            Some(offset_hours),
            Some(offset_mins),
        ) => {
            if !separators || offset_hours > 23 || offset_mins > 59 {
                return None;
            }
            let size: i32 = (offset_hours * 60 + offset_mins) as i32;
            let offset: i32 = if sign == '-' {
                -size
            } else {
                size
            };
            Timestamp::new(
                (century * 100 + years) as i32,
                month,
                day,
                hour,
                minute,
                second,
                offset,
            )
        },
        _ => None,
    }
}

} // verus!
