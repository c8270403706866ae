//! Wall-clock times and their canonical `HH:MM:SS` text.
//!
//! A [`Time`] carries an hour, a minute and a second with no date or time
//! zone attached.  On the wire every time is the eight-character form
//! `HH:MM:SS`; decoding and encoding are exact inverses over that form.

use vstd::prelude::*;
use vstd::string::StrSliceExecFns;
use vstd::string::StringExecFns;

use crate::utils::strings::{
    digit_char, digit_val, is_digit_char, read_two_digits, two_digit_seq, two_digit_string,
    two_digits_at,
};

verus! {

/// A wall-clock time of day.
#[derive(Debug, Clone, Copy, PartialEq, Eq, Structural)]
pub struct Time {
    pub hour: u8,
    pub minute: u8,
    pub second: u8,
}

/// True when `s` is a well-formed `HH:MM:SS` text.
pub open spec fn valid_time_str(s: Seq<char>) -> bool {
    &&& s.len() == 8
    &&& is_digit_char(s[0])
    &&& is_digit_char(s[1])
    &&& s[2] == ':'
    &&& is_digit_char(s[3])
    &&& is_digit_char(s[4])
    &&& s[5] == ':'
    &&& is_digit_char(s[6])
    &&& is_digit_char(s[7])
    &&& two_digits_at(s, 0) < 24
    &&& two_digits_at(s, 3) < 60
    &&& two_digits_at(s, 6) < 60
}

/// The time that a well-formed `HH:MM:SS` text denotes.
pub open spec fn time_from_seq(s: Seq<char>) -> Time {
    Time {
        hour: two_digits_at(s, 0) as u8,
        minute: two_digits_at(s, 3) as u8,
        second: two_digits_at(s, 6) as u8,
    }
}

impl Time {
    /// A time is well formed when each field is in its wall-clock range.
    pub open spec fn wf(self) -> bool {
        self.hour < 24 && self.minute < 60 && self.second < 60
    }

    /// The canonical `HH:MM:SS` text of this time.
    pub open spec fn to_seq(self) -> Seq<char> {
        two_digit_seq(self.hour as nat) + seq![':'] + two_digit_seq(self.minute as nat)
            + seq![':'] + two_digit_seq(self.second as nat)
    }

    /// Builds a time after checking the wall-clock ranges.
    pub fn new(hour: u8, minute: u8, second: u8) -> (r: Option<Time>)
        ensures
            r is Some <==> hour < 24 && minute < 60 && second < 60,
            r matches Some(t) ==> t == (Time { hour, minute, second }) && t.wf(),
    {
        if hour < 24 && minute < 60 && second < 60 {
            Some(Time { hour, minute, second })
        } else {
            None
        }
    }

    /// Decodes the canonical `HH:MM:SS` form.
    pub fn parse_hms(s: &str) -> (r: Option<Time>)
        ensures
            r is Some <==> valid_time_str(s@),
            r matches Some(t) ==> t == time_from_seq(s@) && t.wf(),
    {
        if s.unicode_len() != 8 {
            return None;
        }
        if s.get_char(2) != ':' || s.get_char(5) != ':' {
            return None;
        }
        let hour = match read_two_digits(s, 0) {
            Some(n) => n,
            None => {
                return None;
            },
        };
        let minute = match read_two_digits(s, 3) {
            Some(n) => n,
            None => {
                return None;
            },
        };
        let second = match read_two_digits(s, 6) {
            Some(n) => n,
            None => {
                return None;
            },
        };
        if hour < 24 && minute < 60 && second < 60 {
            Some(Time { hour, minute, second })
        } else {
            None
        }
    }

    /// Encodes this time in the canonical `HH:MM:SS` form.
    pub fn to_hms_string(&self) -> (r: String)
        requires
            self.wf(),
        ensures
            r@ == self.to_seq(),
            valid_time_str(r@),
    {
        let mut r = two_digit_string(self.hour);
        r.append(":");
        r.append(two_digit_string(self.minute).as_str());
        r.append(":");
        r.append(two_digit_string(self.second).as_str());
        proof {
            reveal_strlit(":");
            assert(r@ =~= self.to_seq());
            lemma_time_encode_valid(*self);
        }
        r
    }
}

/// Decoding a well-formed `HH:MM:SS` text and encoding the result
/// reproduces the identical text.
pub proof fn lemma_time_round_trip(s: Seq<char>)
    requires
        valid_time_str(s),
    ensures
        time_from_seq(s).wf(),
        time_from_seq(s).to_seq() == s,
{
    let t = time_from_seq(s);
    lemma_two_digit_split(s, 0);
    lemma_two_digit_split(s, 3);
    lemma_two_digit_split(s, 6);
    assert(t.to_seq() =~= s);
}

/// Encoding a well-formed time yields a well-formed `HH:MM:SS` text that
/// decodes back to the same time.
pub proof fn lemma_time_encode_valid(t: Time)
    requires
        t.wf(),
    ensures
        valid_time_str(t.to_seq()),
        time_from_seq(t.to_seq()) == t,
{
    let s = t.to_seq();
    assert(s[0] == digit_char(t.hour as nat / 10));
    assert(s[1] == digit_char(t.hour as nat % 10));
    assert(s[3] == digit_char(t.minute as nat / 10));
    assert(s[4] == digit_char(t.minute as nat % 10));
    assert(s[6] == digit_char(t.second as nat / 10));
    assert(s[7] == digit_char(t.second as nat % 10));
    assert(two_digits_at(s, 0) == t.hour as nat);
    assert(two_digits_at(s, 3) == t.minute as nat);
    assert(two_digits_at(s, 6) == t.second as nat);
}

/// A two-digit field is the two digit characters of its value.
proof fn lemma_two_digit_split(s: Seq<char>, i: int)
    requires
        0 <= i,
        i + 2 <= s.len(),
        is_digit_char(s[i]),
        is_digit_char(s[i + 1]),
        two_digits_at(s, i) < 100,
    ensures
        two_digit_seq(two_digits_at(s, i)) =~= s.subrange(i, i + 2),
{
    let n = two_digits_at(s, i);
    assert(n / 10 == digit_val(s[i]) && n % 10 == digit_val(s[i + 1]));
}

} // verus!
