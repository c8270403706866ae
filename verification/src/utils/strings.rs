//! Decimal digits and numbers as text.
//!
//! The wire format of this API writes every number in plain ASCII decimal:
//! ids inside request paths, and the two- and four-digit fields of the
//! `HH:MM:SS` and `YYYY-MM-DD` forms.  This module gives those texts an
//! exact specification and verified encoders.

use vstd::prelude::*;
use vstd::string::StrSliceExecFns;
use vstd::string::StringExecFns;

verus! {

/// True when `c` is one of the ten ASCII decimal digits.
pub open spec fn is_digit_char(c: char) -> bool {
    48 <= c as int && c as int <= 57
}

/// Numeric value of an ASCII decimal digit.
pub open spec fn digit_val(c: char) -> nat {
    (c as int - 48) as nat
}

/// The ASCII digit with value `d` (meaningful for `d < 10`).
pub open spec fn digit_char(d: nat) -> char {
    if d == 0 {
        '0'
    } else if d == 1 {
        '1'
    } else if d == 2 {
        '2'
    } else if d == 3 {
        '3'
    } else if d == 4 {
        '4'
    } else if d == 5 {
        '5'
    } else if d == 6 {
        '6'
    } else if d == 7 {
        '7'
    } else if d == 8 {
        '8'
    } else {
        '9'
    }
}

/// Value of the two-digit field of `s` that starts at index `i`.
pub open spec fn two_digits_at(s: Seq<char>, i: int) -> nat {
    10 * digit_val(s[i]) + digit_val(s[i + 1])
}

/// Value of the four-digit field of `s` that starts at index `i`.
pub open spec fn four_digits_at(s: Seq<char>, i: int) -> nat {
    1000 * digit_val(s[i]) + 100 * digit_val(s[i + 1]) + 10 * digit_val(s[i + 2]) + digit_val(
        s[i + 3],
    )
}

/// The canonical two-digit (zero-padded) text of `n` (meaningful for `n < 100`).
pub open spec fn two_digit_seq(n: nat) -> Seq<char> {
    seq![digit_char(n / 10), digit_char(n % 10)]
}

/// The canonical four-digit (zero-padded) text of `n` (meaningful for `n < 10000`).
pub open spec fn four_digit_seq(n: nat) -> Seq<char> {
    seq![
        digit_char(n / 1000),
        digit_char(n / 100 % 10),
        digit_char(n / 10 % 10),
        digit_char(n % 10),
    ]
}

/// The ordinary decimal text of `n`: no padding, no sign.
pub open spec fn dec_str(n: nat) -> Seq<char>
    decreases n,
{
    if n < 10 {
        seq![digit_char(n)]
    } else {
        dec_str(n / 10).push(digit_char(n % 10))
    }
}

/// One-character string for the digit with value `d`.
pub fn digit_str(d: u8) -> (r: &'static str)
    requires
        d < 10,
    ensures
        r@ == seq![digit_char(d as nat)],
{
    proof {
        reveal_strlit("0");
        reveal_strlit("1");
        reveal_strlit("2");
        reveal_strlit("3");
        reveal_strlit("4");
        reveal_strlit("5");
        reveal_strlit("6");
        reveal_strlit("7");
        reveal_strlit("8");
        reveal_strlit("9");
    }
    let r = match d {
        0 => "0",
        1 => "1",
        2 => "2",
        3 => "3",
        4 => "4",
        5 => "5",
        6 => "6",
        7 => "7",
        8 => "8",
        _ => "9",
    };
    proof {
        assert(r@ =~= seq![digit_char(d as nat)]);
    }
    r
}

/// Two-digit zero-padded text of `n`.
pub fn two_digit_string(n: u8) -> (r: String)
    requires
        n < 100,
    ensures
        r@ == two_digit_seq(n as nat),
{
    let mut r = String::from_str(digit_str(n / 10));
    r.append(digit_str(n % 10));
    proof {
        assert(r@ =~= two_digit_seq(n as nat));
    }
    r
}

/// Four-digit zero-padded text of `n`.
pub fn four_digit_string(n: u16) -> (r: String)
    requires
        n < 10000,
    ensures
        r@ == four_digit_seq(n as nat),
{
    let mut r = String::from_str(digit_str((n / 1000) as u8));
    r.append(digit_str((n / 100 % 10) as u8));
    r.append(digit_str((n / 10 % 10) as u8));
    r.append(digit_str((n % 10) as u8));
    proof {
        assert(r@ =~= four_digit_seq(n as nat));
    }
    r
}

/// Plain decimal text of `n`.
pub fn u32_to_string(n: u32) -> (r: String)
    ensures
        r@ == dec_str(n as nat),
{
    let mut m = n;
    let mut tail = String::new();
    while m >= 10
        invariant
            dec_str(n as nat) == dec_str(m as nat) + tail@,
        decreases m,
    {
        let d = digit_str((m % 10) as u8);
        let new_tail = String::from_str(d).concat(tail.as_str());
        proof {
            assert(dec_str(m as nat) == dec_str((m / 10) as nat).push(digit_char(
                (m % 10) as nat,
            )));
            assert(dec_str((m / 10) as nat) + new_tail@ =~= dec_str(m as nat) + tail@);
        }
        tail = new_tail;
        m = m / 10;
    }
    let r = String::from_str(digit_str(m as u8)).concat(tail.as_str());
    proof {
        assert(r@ =~= dec_str(n as nat));
    }
    r
}

/// Reads the character at `i` as a decimal digit.
pub fn read_digit(s: &str, i: usize) -> (r: Option<u8>)
    requires
        i < s@.len(),
    ensures
        r is Some <==> is_digit_char(s@[i as int]),
        r matches Some(d) ==> d < 10 && d as nat == digit_val(s@[i as int]),
{
    let c = s.get_char(i);
    let u = c as u32;
    if 48 <= u && u <= 57 {
        Some((u - 48) as u8)
    } else {
        None
    }
}

/// Reads the two-digit decimal field of `s` that starts at `i`.
pub fn read_two_digits(s: &str, i: usize) -> (r: Option<u8>)
    requires
        i + 2 <= s@.len(),
        s@.len() <= usize::MAX,
    ensures
        r is Some <==> is_digit_char(s@[i as int]) && is_digit_char(s@[i + 1]),
        r matches Some(n) ==> n < 100 && n as nat == two_digits_at(s@, i as int),
{
    match (read_digit(s, i), read_digit(s, i + 1)) {
        (Some(a), Some(b)) => Some(10 * a + b),
        _ => None,
    }
}

/// Reads the four-digit decimal field of `s` that starts at `i`.
pub fn read_four_digits(s: &str, i: usize) -> (r: Option<u16>)
    requires
        i + 4 <= s@.len(),
        s@.len() <= usize::MAX,
    ensures
        r is Some <==> is_digit_char(s@[i as int]) && is_digit_char(s@[i + 1]) && is_digit_char(
            s@[i + 2],
        ) && is_digit_char(s@[i + 3]),
        r matches Some(n) ==> n < 10000 && n as nat == four_digits_at(s@, i as int),
{
    match (read_two_digits(s, i), read_two_digits(s, i + 2)) {
        (Some(a), Some(b)) => Some(100 * (a as u16) + (b as u16)),
        _ => None,
    }
}

} // verus!
