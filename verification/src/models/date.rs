//! Calendar dates and their canonical `YYYY-MM-DD` text.
//!
//! A [`Date`] is a plain calendar date.  Encoding always yields the
//! ten-character form `YYYY-MM-DD`.  Decoding deliberately accepts more:
//! either that bare form, or a full timestamp (`YYYY-MM-DDTHH:MM:SS`
//! followed by an optional fraction and an offset), from which only the
//! date component is retained.

use vstd::prelude::*;
use vstd::string::StrSliceExecFns;
use vstd::string::StringExecFns;

use crate::models::time::{valid_time_str, Time};
use crate::utils::strings::{
    digit_char, digit_val, four_digit_seq, four_digit_string, four_digits_at, is_digit_char,
    read_four_digits, read_two_digits, two_digit_seq, two_digit_string, two_digits_at,
};

verus! {

/// A calendar date.  Well-formed values (see [`Date::wf`]) stay within the
/// four-digit year range of the wire form and name a real calendar day.
#[derive(Debug, Clone, Copy, PartialEq, Eq, Structural)]
pub struct Date {
    pub year: u16,
    pub month: u8,
    pub day: u8,
}

/// True for years with a 29-day February.
pub open spec fn is_leap_year(y: nat) -> bool {
    (y % 4 == 0 && y % 100 != 0) || y % 400 == 0
}

/// Number of days in the given month of the given year
/// (meaningful for `1 <= m <= 12`).
pub open spec fn days_in_month(y: nat, m: nat) -> nat {
    if m == 2 {
        if is_leap_year(y) {
            29
        } else {
            28
        }
    } else if m == 4 || m == 6 || m == 9 || m == 11 {
        30
    } else {
        31
    }
}

/// True when `s` is a well-formed `YYYY-MM-DD` text naming a real
/// calendar day.
pub open spec fn valid_date_str(s: Seq<char>) -> bool {
    &&& s.len() == 10
    &&& is_digit_char(s[0])
    &&& is_digit_char(s[1])
    &&& is_digit_char(s[2])
    &&& is_digit_char(s[3])
    &&& s[4] == '-'
    &&& is_digit_char(s[5])
    &&& is_digit_char(s[6])
    &&& s[7] == '-'
    &&& is_digit_char(s[8])
    &&& is_digit_char(s[9])
    &&& 1 <= two_digits_at(s, 5) <= 12
    &&& 1 <= two_digits_at(s, 8) <= days_in_month(four_digits_at(s, 0), two_digits_at(s, 5))
}

/// The date that a well-formed `YYYY-MM-DD` text denotes.
pub open spec fn date_from_seq(s: Seq<char>) -> Date {
    Date {
        year: four_digits_at(s, 0) as u16,
        month: two_digits_at(s, 5) as u8,
        day: two_digits_at(s, 8) as u8,
    }
}

/// Index of the first position at or after `i` that does not hold a
/// decimal digit (the length of `s` if every later position holds one).
pub open spec fn end_of_digits(s: Seq<char>, i: int) -> int
    decreases s.len() - i,
{
    if 0 <= i < s.len() && is_digit_char(s[i]) {
        end_of_digits(s, i + 1)
    } else {
        i
    }
}

/// True when the suffix of `s` that starts at `j` is a timestamp offset:
/// `Z` (either case) or a signed `HH:MM`.
pub open spec fn valid_offset_at(s: Seq<char>, j: int) -> bool {
    ||| (s.len() == j + 1 && (s[j] == 'Z' || s[j] == 'z'))
    ||| (s.len() == j + 6 && (s[j] == '+' || s[j] == '-') && is_digit_char(s[j + 1])
        && is_digit_char(s[j + 2]) && s[j + 3] == ':' && is_digit_char(s[j + 4]) && is_digit_char(
        s[j + 5],
    ) && two_digits_at(s, j + 1) < 24 && two_digits_at(s, j + 4) < 60)
}

/// True when the suffix of `s` that starts at `j` is an optional fraction
/// (a point and at least one digit) followed by an offset.
pub open spec fn valid_tail_at(s: Seq<char>, j: int) -> bool {
    if j < s.len() && s[j] == '.' {
        let e = end_of_digits(s, j + 1);
        e > j + 1 && valid_offset_at(s, e)
    } else {
        valid_offset_at(s, j)
    }
}

/// True when `s` is a full timestamp: a date, `T`, a time, an optional
/// fraction of a second, and an offset.
pub open spec fn valid_timestamp_str(s: Seq<char>) -> bool {
    &&& s.len() >= 20
    &&& valid_date_str(s.subrange(0, 10))
    &&& s[10] == 'T'
    &&& valid_time_str(s.subrange(11, 19))
    &&& valid_tail_at(s, 19)
}

/// True when `s` holds a capital `T`, the mark by which decoding tells a
/// timestamp from a bare date.
pub open spec fn contains_t(s: Seq<char>) -> bool {
    exists|i: int| 0 <= i < s.len() && s[i] == 'T'
}

/// What flexible date decoding yields: the date component of a timestamp,
/// or a bare date, or nothing when the text is neither.
pub open spec fn spec_parse_date_flexible(s: Seq<char>) -> Option<Date> {
    if contains_t(s) {
        if valid_timestamp_str(s) {
            Some(date_from_seq(s.subrange(0, 10)))
        } else {
            None
        }
    } else {
        if valid_date_str(s) {
            Some(date_from_seq(s))
        } else {
            None
        }
    }
}

/// Days in the given month, as executable code.
pub fn days_in_month_of(year: u16, month: u8) -> (r: u8)
    requires
        1 <= month <= 12,
    ensures
        r as nat == days_in_month(year as nat, month as nat),
{
    if month == 2 {
        if (year % 4 == 0 && year % 100 != 0) || year % 400 == 0 {
            29
        } else {
            28
        }
    } else if month == 4 || month == 6 || month == 9 || month == 11 {
        30
    } else {
        31
    }
}

impl Date {
    /// A date is well formed when the year fits the four-digit wire form
    /// and month and day name a real calendar day.
    pub open spec fn wf(self) -> bool {
        &&& self.year <= 9999
        &&& 1 <= self.month <= 12
        &&& 1 <= self.day <= days_in_month(self.year as nat, self.month as nat)
    }

    /// The canonical `YYYY-MM-DD` text of this date.
    pub open spec fn to_seq(self) -> Seq<char> {
        four_digit_seq(self.year as nat) + seq!['-'] + two_digit_seq(self.month as nat)
            + seq!['-'] + two_digit_seq(self.day as nat)
    }

    /// Builds a date after checking that it names a real calendar day.
    pub fn new(year: u16, month: u8, day: u8) -> (r: Option<Date>)
        ensures
            r is Some <==> (Date { year, month, day }).wf(),
            r matches Some(d) ==> d == (Date { year, month, day }) && d.wf(),
    {
        if year <= 9999 && 1 <= month && month <= 12 {
            if 1 <= day && day <= days_in_month_of(year, month) {
                Some(Date { year, month, day })
            } else {
                None
            }
        } else {
            None
        }
    }

    /// Decodes the bare `YYYY-MM-DD` form.
    pub fn parse_ymd(s: &str) -> (r: Option<Date>)
        ensures
            r is Some <==> valid_date_str(s@),
            r matches Some(d) ==> d == date_from_seq(s@) && d.wf(),
    {
        if s.unicode_len() != 10 {
            return None;
        }
        if s.get_char(4) != '-' || s.get_char(7) != '-' {
            return None;
        }
        let year = match read_four_digits(s, 0) {
            Some(n) => n,
            None => {
                return None;
            },
        };
        let month = match read_two_digits(s, 5) {
            Some(n) => n,
            None => {
                return None;
            },
        };
        let day = match read_two_digits(s, 8) {
            Some(n) => n,
            None => {
                return None;
            },
        };
        if 1 <= month && month <= 12 && 1 <= day && day <= days_in_month_of(year, month) {
            Some(Date { year, month, day })
        } else {
            None
        }
    }

    /// Decodes the date component of a full timestamp.
    pub fn parse_timestamp(s: &str) -> (r: Option<Date>)
        ensures
            r is Some <==> valid_timestamp_str(s@),
            r matches Some(d) ==> d == date_from_seq(s@.subrange(0, 10)) && d.wf(),
    {
        let n = s.unicode_len();
        if n < 20 {
            return None;
        }
        let date = match Date::parse_ymd(s.substring_char(0, 10)) {
            Some(d) => d,
            None => {
                return None;
            },
        };
        if s.get_char(10) != 'T' {
            return None;
        }
        if Time::parse_hms(s.substring_char(11, 19)).is_none() {
            return None;
        }
        let mut j: usize = 19;
        if s.get_char(19) == '.' {
            let mut i: usize = 20;
            while i < n && is_digit(s.get_char(i))
                invariant
                    20 <= i <= n,
                    n == s@.len(),
                    forall|k: int| 20 <= k < i ==> is_digit_char(s@[k]),
                decreases n - i,
            {
                i = i + 1;
            }
            proof {
                lemma_end_of_digits(s@, 20, i as int);
            }
            if i == 20 {
                return None;
            }
            j = i;
        }
        // The offset begins at `j`; the fraction, if any, ended right before it.
        let rest = n - j;
        if rest == 1 {
            let c = s.get_char(j);
            if c == 'Z' || c == 'z' {
                Some(date)
            } else {
                None
            }
        } else if rest == 6 {
            let c = s.get_char(j);
            if c != '+' && c != '-' {
                return None;
            }
            if s.get_char(j + 3) != ':' {
                return None;
            }
            let hh = match read_two_digits(s, j + 1) {
                Some(v) => v,
                None => {
                    return None;
                },
            };
            let mm = match read_two_digits(s, j + 4) {
                Some(v) => v,
                None => {
                    return None;
                },
            };
            if hh < 24 && mm < 60 {
                Some(date)
            } else {
                None
            }
        } else {
            None
        }
    }

    /// Decodes a date from either accepted form: a bare `YYYY-MM-DD`, or,
    /// when the text holds a `T`, a full timestamp whose date component is
    /// taken.
    pub fn parse_flexible(s: &str) -> (r: Option<Date>)
        ensures
            r == spec_parse_date_flexible(s@),
            r matches Some(d) ==> d.wf(),
    {
        if contains_cap_t(s) {
            Date::parse_timestamp(s)
        } else {
            Date::parse_ymd(s)
        }
    }

    /// Encodes this date in the canonical `YYYY-MM-DD` form.
    pub fn to_ymd_string(&self) -> (r: String)
        requires
            self.wf(),
        ensures
            r@ == self.to_seq(),
            valid_date_str(r@),
    {
        let mut r = four_digit_string(self.year);
        r.append("-");
        r.append(two_digit_string(self.month).as_str());
        r.append("-");
        r.append(two_digit_string(self.day).as_str());
        proof {
            reveal_strlit("-");
            assert(r@ =~= self.to_seq());
            lemma_date_encode_valid(*self);
        }
        r
    }
}

/// True when `c` is a decimal digit, as executable code.
fn is_digit(c: char) -> (r: bool)
    ensures
        r == is_digit_char(c),
{
    let u = c as u32;
    48 <= u && u <= 57
}

/// True when `s` holds a capital `T`, as executable code.
fn contains_cap_t(s: &str) -> (r: bool)
    ensures
        r == contains_t(s@),
{
    let n = s.unicode_len();
    let mut i: usize = 0;
    while i < n
        invariant
            0 <= i <= n,
            n == s@.len(),
            forall|k: int| 0 <= k < i ==> s@[k] != 'T',
        decreases n - i,
    {
        if s.get_char(i) == 'T' {
            return true;
        }
        i = i + 1;
    }
    false
}

/// A scan that stopped at the first non-digit found the same boundary as
/// [`end_of_digits`].
proof fn lemma_end_of_digits(s: Seq<char>, i0: int, i: int)
    requires
        0 <= i0 <= i <= s.len(),
        forall|k: int| i0 <= k < i ==> is_digit_char(s[k]),
        i == s.len() || !is_digit_char(s[i]),
    ensures
        end_of_digits(s, i0) == i,
    decreases i - i0,
{
    if i0 < i {
        lemma_end_of_digits(s, i0 + 1, i);
    }
}

/// Decoding a well-formed `YYYY-MM-DD` text and encoding the result
/// reproduces the identical text.
pub proof fn lemma_date_round_trip(s: Seq<char>)
    requires
        valid_date_str(s),
    ensures
        date_from_seq(s).wf(),
        date_from_seq(s).to_seq() == s,
{
    let d = date_from_seq(s);
    lemma_four_digit_split(s, 0);
    lemma_two_digit_split(s, 5);
    lemma_two_digit_split(s, 8);
    assert(d.to_seq() =~= s);
}

/// Encoding a well-formed date yields a well-formed `YYYY-MM-DD` text that
/// decodes back to the same date.
pub proof fn lemma_date_encode_valid(d: Date)
    requires
        d.wf(),
    ensures
        valid_date_str(d.to_seq()),
        date_from_seq(d.to_seq()) == d,
{
    let s = d.to_seq();
    assert(s[0] == digit_char(d.year as nat / 1000));
    assert(s[1] == digit_char(d.year as nat / 100 % 10));
    assert(s[2] == digit_char(d.year as nat / 10 % 10));
    assert(s[3] == digit_char(d.year as nat % 10));
    assert(s[5] == digit_char(d.month as nat / 10));
    assert(s[6] == digit_char(d.month as nat % 10));
    assert(s[8] == digit_char(d.day as nat / 10));
    assert(s[9] == digit_char(d.day as nat % 10));
    lemma_four_digit_recompose(d.year as nat);
    assert(four_digits_at(s, 0) == d.year as nat);
    assert(two_digits_at(s, 5) == d.month as nat);
    assert(two_digits_at(s, 8) == d.day as nat);
}

/// Both accepted forms of the same calendar date decode to the same date:
/// a timestamp yields exactly what its ten-character date component yields.
pub proof fn lemma_flexible_agreement(date_s: Seq<char>, ts: Seq<char>)
    requires
        valid_date_str(date_s),
        valid_timestamp_str(ts),
        ts.subrange(0, 10) == date_s,
    ensures
        spec_parse_date_flexible(date_s) == Some(date_from_seq(date_s)),
        spec_parse_date_flexible(ts) == spec_parse_date_flexible(date_s),
{
    assert(ts[10] == 'T');
    assert(contains_t(ts));
    assert forall|i: int| 0 <= i < date_s.len() implies date_s[i] != 'T' by {
        if i == 4 || i == 7 {
        } else {
            assert(is_digit_char(date_s[i]));
        }
    }
    assert(!contains_t(date_s));
}

/// A two-digit field is the two digit characters of its value.
proof fn lemma_two_digit_split(s: Seq<char>, i: int)
    requires
        0 <= i,
        i + 2 <= s.len(),
        is_digit_char(s[i]),
        is_digit_char(s[i + 1]),
    ensures
        two_digit_seq(two_digits_at(s, i)) =~= s.subrange(i, i + 2),
{
    let n = two_digits_at(s, i);
    assert(n / 10 == digit_val(s[i]) && n % 10 == digit_val(s[i + 1]));
}

/// A four-digit field is the four digit characters of its value.
proof fn lemma_four_digit_split(s: Seq<char>, i: int)
    requires
        0 <= i,
        i + 4 <= s.len(),
        is_digit_char(s[i]),
        is_digit_char(s[i + 1]),
        is_digit_char(s[i + 2]),
        is_digit_char(s[i + 3]),
    ensures
        four_digit_seq(four_digits_at(s, i)) =~= s.subrange(i, i + 4),
{
    let n = four_digits_at(s, i);
    lemma_four_digit_decompose(digit_val(s[i]), digit_val(s[i + 1]), digit_val(s[i + 2]),
        digit_val(s[i + 3]));
}

/// Division recovers each digit of a four-digit composition.
proof fn lemma_four_digit_decompose(a: nat, b: nat, c: nat, d: nat)
    requires
        a < 10,
        b < 10,
        c < 10,
        d < 10,
    ensures
        (1000 * a + 100 * b + 10 * c + d) / 1000 == a,
        (1000 * a + 100 * b + 10 * c + d) / 100 % 10 == b,
        (1000 * a + 100 * b + 10 * c + d) / 10 % 10 == c,
        (1000 * a + 100 * b + 10 * c + d) % 10 == d,
{
    let n = 1000 * a + 100 * b + 10 * c + d;
    assert(n / 1000 == a && n / 100 == 10 * a + b && n / 10 == 100 * a + 10 * b + c && n % 10
        == d) by (nonlinear_arith)
        requires
            a < 10,
            b < 10,
            c < 10,
            d < 10,
            n == 1000 * a + 100 * b + 10 * c + d,
    ;
    assert((10 * a + b) % 10 == b) by (nonlinear_arith)
        requires
            a < 10,
            b < 10,
    ;
    assert((100 * a + 10 * b + c) % 10 == c) by (nonlinear_arith)
        requires
            a < 10,
            b < 10,
            c < 10,
    ;
}

/// Each digit of a number below ten thousand recomposes the number.
proof fn lemma_four_digit_recompose(n: nat)
    requires
        n < 10000,
    ensures
        1000 * (n / 1000) + 100 * (n / 100 % 10) + 10 * (n / 10 % 10) + n % 10 == n,
{
    vstd::arithmetic::div_mod::lemma_fundamental_div_mod(n as int, 10);
    vstd::arithmetic::div_mod::lemma_fundamental_div_mod(n as int / 10, 10);
    vstd::arithmetic::div_mod::lemma_fundamental_div_mod(n as int / 100, 10);
    vstd::arithmetic::div_mod::lemma_div_denominator(n as int, 10, 10);
    vstd::arithmetic::div_mod::lemma_div_denominator(n as int, 100, 10);
}

} // verus!
