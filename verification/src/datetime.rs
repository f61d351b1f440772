//! Parsing of raw digit strings into precision-tagged date/time values.
//!
//! A raw input is accepted only when it is all digits and has length 8
//! (`YYYYMMDD`), 10 (`YYYYMMDDHH`) or 12 (`YYYYMMDDHHMM`), with
//! calendar-valid components: month 1-12, day valid for the month (with
//! the Gregorian leap-year rule), hour 0-23, minute 0-59.

use vstd::prelude::*;

verus! {

/// A date/time value tagged with the precision of the raw input it came
/// from. `string` always holds the raw input unchanged.
#[derive(Debug, PartialEq, Eq, Clone)]
pub enum DT {
    YMD { string: String, year: i32, month: u32, day: u32 },
    YMDH { string: String, year: i32, month: u32, day: u32, hour: u32 },
    YMDHM { string: String, year: i32, month: u32, day: u32, hour: u32, minute: u32 },
}

pub open spec fn is_digit(c: char) -> bool {
    '0' <= c && c <= '9'
}

pub open spec fn digit_val(c: char) -> int {
    c as int - '0' as int
}

pub open spec fn all_digits(s: Seq<char>) -> bool {
    forall|i: int| 0 <= i < s.len() ==> is_digit(#[trigger] s[i])
}

/// Numeric value of a digit sequence read in base 10.
pub open spec fn digits_val(s: Seq<char>) -> int
    decreases s.len(),
{
    if s.len() == 0 {
        0
    } else {
        digits_val(s.drop_last()) * 10 + digit_val(s.last())
    }
}

pub open spec fn year_of(s: Seq<char>) -> int {
    digits_val(s.subrange(0, 4))
}

pub open spec fn month_of(s: Seq<char>) -> int {
    digits_val(s.subrange(4, 6))
}

pub open spec fn day_of(s: Seq<char>) -> int {
    digits_val(s.subrange(6, 8))
}

pub open spec fn hour_of(s: Seq<char>) -> int {
    digits_val(s.subrange(8, 10))
}

pub open spec fn minute_of(s: Seq<char>) -> int {
    digits_val(s.subrange(10, 12))
}

/// Gregorian leap-year rule.
pub open spec fn spec_is_leap_year(y: int) -> bool {
    y % 4 == 0 && (y % 100 != 0 || y % 400 == 0)
}

pub open spec fn spec_days_in_month(y: int, m: int) -> int {
    if m == 2 {
        if spec_is_leap_year(y) {
            29
        } else {
            28
        }
    } else if m == 4 || m == 6 || m == 9 || m == 11 {
        30
    } else {
        31
    }
}

/// Calendar validity of the year/month/day components of `s`.
pub open spec fn valid_date_part(s: Seq<char>) -> bool {
    &&& 1 <= month_of(s) <= 12
    &&& 1 <= day_of(s) <= spec_days_in_month(year_of(s), month_of(s))
}

/// `s` is a valid 8-digit `YYYYMMDD` string.
pub open spec fn valid_ymd(s: Seq<char>) -> bool {
    &&& s.len() == 8
    &&& all_digits(s)
    &&& valid_date_part(s)
}

/// `s` is a valid 10-digit `YYYYMMDDHH` string.
pub open spec fn valid_ymdh(s: Seq<char>) -> bool {
    &&& s.len() == 10
    &&& all_digits(s)
    &&& valid_date_part(s)
    &&& 0 <= hour_of(s) <= 23
}

/// `s` is a valid 12-digit `YYYYMMDDHHMM` string.
pub open spec fn valid_ymdhm(s: Seq<char>) -> bool {
    &&& s.len() == 12
    &&& all_digits(s)
    &&& valid_date_part(s)
    &&& 0 <= hour_of(s) <= 23
    &&& 0 <= minute_of(s) <= 59
}

/// `parse` succeeds exactly on these inputs.
pub open spec fn parse_ok(s: Seq<char>) -> bool {
    valid_ymd(s) || valid_ymdh(s) || valid_ymdhm(s)
}

/// The parsed value `dt` is the one that parsing `s` must produce: the
/// variant follows the length of `s`, `string` holds `s` unchanged, and
/// each numeric field is the value of its digit group.
pub open spec fn dt_matches(dt: DT, s: Seq<char>) -> bool {
    match dt {
        DT::YMD { string, year, month, day } => {
            &&& valid_ymd(s)
            &&& string@ == s
            &&& year as int == year_of(s)
            &&& month as int == month_of(s)
            &&& day as int == day_of(s)
        },
        DT::YMDH { string, year, month, day, hour } => {
            &&& valid_ymdh(s)
            &&& string@ == s
            &&& year as int == year_of(s)
            &&& month as int == month_of(s)
            &&& day as int == day_of(s)
            &&& hour as int == hour_of(s)
        },
        DT::YMDHM { string, year, month, day, hour, minute } => {
            &&& valid_ymdhm(s)
            &&& string@ == s
            &&& year as int == year_of(s)
            &&& month as int == month_of(s)
            &&& day as int == day_of(s)
            &&& hour as int == hour_of(s)
            &&& minute as int == minute_of(s)
        },
    }
}

/// 10 to the power `n`; bounds the value of an `n`-digit group.
pub open spec fn pow10(n: nat) -> int
    decreases n,
{
    if n == 0 {
        1
    } else {
        10 * pow10((n - 1) as nat)
    }
}

proof fn lemma_digits_val_step(s: Seq<char>, from: int, i: int)
    requires
        0 <= from <= i < s.len(),
    ensures
        digits_val(s.subrange(from, i + 1)) == digits_val(s.subrange(from, i)) * 10 + digit_val(
            s[i],
        ),
{
    let ext = s.subrange(from, i + 1);
    assert(ext.drop_last() =~= s.subrange(from, i));
    assert(ext.last() == s[i]);
}

fn check_all_digits(s: &str) -> (b: bool)
    ensures
        b == all_digits(s@),
{
    let len = s.unicode_len();
    let mut i: usize = 0;
    while i < len
        invariant
            i <= len,
            len == s@.len(),
            forall|j: int| 0 <= j < i ==> is_digit(#[trigger] s@[j]),
        decreases len - i,
    {
        let c = s.get_char(i);
        if !('0' <= c && c <= '9') {
            return false;
        }
        i = i + 1;
    }
    true
}

/// Base-10 value of the digit group `s[from..to]`, at most four digits wide.
fn parse_num(s: &str, from: usize, to: usize) -> (n: u32)
    requires
        from <= to <= s@.len(),
        to - from <= 4,
        all_digits(s@),
    ensures
        n as int == digits_val(s@.subrange(from as int, to as int)),
        n < pow10((to - from) as nat),
{
    let mut i: usize = from;
    let mut acc: u32 = 0;
    proof {
        assert(s@.subrange(from as int, from as int) =~= Seq::<char>::empty());
        assert(pow10(0) == 1);
        assert(pow10(1) == 10);
        assert(pow10(2) == 100);
        assert(pow10(3) == 1000);
        assert(pow10(4) == 10000);
    }
    while i < to
        invariant
            from <= i <= to <= s@.len(),
            to - from <= 4,
            all_digits(s@),
            acc as int == digits_val(s@.subrange(from as int, i as int)),
            acc < pow10((i - from) as nat),
            pow10(0) == 1 && pow10(1) == 10 && pow10(2) == 100 && pow10(3) == 1000 && pow10(4)
                == 10000,
        decreases to - i,
    {
        let c = s.get_char(i);
        let d: u32 = (c as u32) - ('0' as u32);
        proof {
            assert(is_digit(s@[i as int]));
            lemma_digits_val_step(s@, from as int, i as int);
            assert(pow10(((i + 1) - from) as nat) == 10 * pow10((i - from) as nat));
        }
        acc = acc * 10 + d;
        i = i + 1;
    }
    acc
}

/// Parses a raw digit string into a precision-tagged date/time value.
/// Returns `None`, not an error, on any input that is not all digits, has
/// a length other than 8, 10 or 12, or is calendar-invalid; the original
/// string is kept unchanged in the result's `string` field.
pub fn parse(input: &str) -> (r: Option<DT>)
    ensures
        r is Some <==> parse_ok(input@),
        r matches Some(dt) ==> dt_matches(dt, input@),
{
    let len = input.unicode_len();
    if !(len == 8 || len == 10 || len == 12) {
        return None;
    }
    if !check_all_digits(input) {
        return None;
    }
    let year = parse_num(input, 0, 4);
    let month = parse_num(input, 4, 6);
    let day = parse_num(input, 6, 8);
    proof {
        assert(pow10(0) == 1);
        assert(pow10(1) == 10);
        assert(pow10(2) == 100);
        assert(pow10(3) == 1000);
        assert(pow10(4) == 10000);
    }
    if !(1 <= month && month <= 12) {
        return None;
    }
    if !(1 <= day && day <= days_in_month(year, month)) {
        return None;
    }
    if len == 8 {
        return Some(
            DT::YMD { string: input.to_owned(), year: year as i32, month, day },
        );
    }
    let hour = parse_num(input, 8, 10);
    if hour > 23 {
        return None;
    }
    if len == 10 {
        return Some(
            DT::YMDH { string: input.to_owned(), year: year as i32, month, day, hour },
        );
    }
    let minute = parse_num(input, 10, 12);
    if minute > 59 {
        return None;
    }
    Some(
        DT::YMDHM { string: input.to_owned(), year: year as i32, month, day, hour, minute },
    )
}

/// Shape law of the parser: an input whose length is not 8, 10 or 12,
/// or that holds any non-digit character (the empty string among them),
/// never parses.
pub proof fn lemma_parse_rejects_malformed(s: Seq<char>)
    requires
        s.len() != 8 && s.len() != 10 && s.len() != 12 || !all_digits(s),
    ensures
        !parse_ok(s),
{
}

fn is_leap_year(y: u32) -> (r: bool)
    ensures
        r == spec_is_leap_year(y as int),
{
    y % 4 == 0 && (y % 100 != 0 || y % 400 == 0)
}

fn days_in_month(y: u32, m: u32) -> (r: u32)
    ensures
        r as int == spec_days_in_month(y as int, m as int),
{
    if m == 2 {
        if is_leap_year(y) {
            29
        } else {
            28
        }
    } else if m == 4 || m == 6 || m == 9 || m == 11 {
        30
    } else {
        31
    }
}

} // verus!
