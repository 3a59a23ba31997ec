//! Decimal rendering of report fields: operation ids as plain decimal
//! numerals, and elapsed nanoseconds as a seconds value with a fixed
//! nine-digit fractional part.

use vstd::prelude::*;
use vstd::string::StringExecFns;

verus! {

/// The character for a single decimal digit.
pub open spec fn dec_digit(d: nat) -> char {
    if d == 0 {
        '0'
    } else if d == 1 {
        '1'
    } else if d == 2 {
        '2'
    } else if d == 3 {
        '3'
    } else if d == 4 {
        '4'
    } else if d == 5 {
        '5'
    } else if d == 6 {
        '6'
    } else if d == 7 {
        '7'
    } else if d == 8 {
        '8'
    } else {
        '9'
    }
}

/// The decimal numeral for `n`, most significant digit first, with no
/// leading zeros (`0` itself is the single character `'0'`).
pub open spec fn dec_string(n: nat) -> Seq<char>
    decreases n,
{
    if n < 10 {
        seq![dec_digit(n)]
    } else {
        dec_string(n / 10).push(dec_digit(n % 10))
    }
}

/// The decimal numeral for `n` written in exactly `width` digits,
/// left-padded with zeros; digits beyond `width` are dropped.
pub open spec fn padded_dec_string(n: nat, width: nat) -> Seq<char>
    decreases width,
{
    if width == 0 {
        Seq::empty()
    } else {
        padded_dec_string(n / 10, (width - 1) as nat).push(dec_digit(n % 10))
    }
}

pub const NANOS_PER_SEC: u64 = 1_000_000_000;

/// Elapsed nanoseconds rendered as decimal seconds: the whole seconds,
/// a dot, then the nanosecond remainder in exactly nine digits.
pub open spec fn secs_string(nanos: nat) -> Seq<char> {
    dec_string(nanos / (NANOS_PER_SEC as nat)) + seq!['.'] + padded_dec_string(
        nanos % (NANOS_PER_SEC as nat),
        9,
    )
}

/// A decimal numeral has at least one digit.
pub proof fn lemma_dec_string_nonempty(n: nat)
    ensures
        dec_string(n).len() >= 1,
    decreases n,
{
    if n >= 10 {
        lemma_dec_string_nonempty(n / 10);
    }
}

/// A padded numeral has exactly its requested width.
pub proof fn lemma_padded_dec_string_len(n: nat, width: nat)
    ensures
        padded_dec_string(n, width).len() == width,
    decreases width,
{
    if width > 0 {
        lemma_padded_dec_string_len(n / 10, (width - 1) as nat);
    }
}

/// The string for a single decimal digit.
fn digit_str(d: u64) -> (r: &'static str)
    requires
        d < 10,
    ensures
        r@ =~= seq![dec_digit(d as nat)],
{
    proof {
        reveal_strlit("0");
        reveal_strlit("1");
        reveal_strlit("2");
        reveal_strlit("3");
        reveal_strlit("4");
        reveal_strlit("5");
        reveal_strlit("6");
        reveal_strlit("7");
        reveal_strlit("8");
        reveal_strlit("9");
    }
    if d == 0 {
        "0"
    } else if d == 1 {
        "1"
    } else if d == 2 {
        "2"
    } else if d == 3 {
        "3"
    } else if d == 4 {
        "4"
    } else if d == 5 {
        "5"
    } else if d == 6 {
        "6"
    } else if d == 7 {
        "7"
    } else if d == 8 {
        "8"
    } else {
        "9"
    }
}

/// Renders `n` as a decimal numeral.
pub fn u64_to_dec(n: u64) -> (r: String)
    ensures
        r@ == dec_string(n as nat),
    decreases n,
{
    let d = digit_str(n % 10);
    if n < 10 {
        let r = String::from_str(d);
        proof {
            assert(r@ =~= dec_string(n as nat));
        }
        r
    } else {
        let mut r = u64_to_dec(n / 10);
        r.append(d);
        proof {
            assert(r@ =~= dec_string(n as nat));
        }
        r
    }
}

/// Renders `n` as a decimal numeral of exactly `width` digits,
/// left-padded with zeros.
pub fn u64_to_padded_dec(n: u64, width: usize) -> (r: String)
    ensures
        r@ == padded_dec_string(n as nat, width as nat),
    decreases width,
{
    if width == 0 {
        let r = String::new();
        proof {
            assert(r@ =~= padded_dec_string(n as nat, width as nat));
        }
        r
    } else {
        let mut r = u64_to_padded_dec(n / 10, width - 1);
        r.append(digit_str(n % 10));
        proof {
            assert(r@ =~= padded_dec_string(n as nat, width as nat));
        }
        r
    }
}

/// Renders elapsed nanoseconds as decimal seconds with nine fractional
/// digits, for the `runtime_secs` report field.
pub fn nanos_to_secs(nanos: u64) -> (r: String)
    ensures
        r@ == secs_string(nanos as nat),
{
    let mut r = u64_to_dec(nanos / NANOS_PER_SEC);
    r.append(".");
    let frac = u64_to_padded_dec(nanos % NANOS_PER_SEC, 9);
    r.append(frac.as_str());
    proof {
        reveal_strlit(".");
        assert(r@ =~= secs_string(nanos as nat));
    }
    r
}

} // verus!
