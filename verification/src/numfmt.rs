//! Rendering of integers and fixed-point quantities as decimal strings.
//!
//! All numeric display in the replies goes through these functions: plain
//! decimal integers, quantities held in hundredths (rendered with exactly
//! two decimal places), and quantities held in thousandths (rendered with
//! trailing zeros trimmed, as a shortest decimal).

use vstd::prelude::*;
use vstd::string::*;

verus! {

/// The decimal digit character for a value in 0..=9.
pub open spec fn digit_char(d: int) -> char {
    if d == 0 {
        '0'
    } else if d == 1 {
        '1'
    } else if d == 2 {
        '2'
    } else if d == 3 {
        '3'
    } else if d == 4 {
        '4'
    } else if d == 5 {
        '5'
    } else if d == 6 {
        '6'
    } else if d == 7 {
        '7'
    } else if d == 8 {
        '8'
    } else {
        '9'
    }
}

/// The usual decimal rendering of a nonnegative integer, without sign,
/// leading zeros only for the value zero itself.
pub open spec fn dec_str(n: nat) -> Seq<char>
    decreases n,
{
    if n < 10 {
        seq![digit_char(n as int)]
    } else {
        dec_str(n / 10).push(digit_char((n % 10) as int))
    }
}

/// Rendering of a quantity held in hundredths with exactly two decimal
/// places, e.g. 2237 -> "22.37", -5 -> "-0.05".
pub open spec fn fixed2_str(v: int) -> Seq<char> {
    if v < 0 {
        seq!['-'] + fixed2_nn_str(-v)
    } else {
        fixed2_nn_str(v)
    }
}

/// Two-decimal rendering of a nonnegative quantity held in hundredths.
pub open spec fn fixed2_nn_str(v: int) -> Seq<char>
    recommends
        v >= 0,
{
    dec_str((v / 100) as nat) + seq!['.', digit_char((v % 100) / 10), digit_char(v % 10)]
}

/// Shortest-decimal rendering of a quantity held in thousandths: the
/// fractional part is dropped when zero and trailing zeros are trimmed,
/// e.g. 10000 -> "10", 3600 -> "3.6", 3652 -> "3.652".
pub open spec fn milli_str(v: int) -> Seq<char> {
    if v < 0 {
        seq!['-'] + milli_nn_str(-v)
    } else {
        milli_nn_str(v)
    }
}

/// Shortest-decimal rendering of a nonnegative quantity held in thousandths.
pub open spec fn milli_nn_str(v: int) -> Seq<char>
    recommends
        v >= 0,
{
    let whole = dec_str((v / 1000) as nat);
    let f = v % 1000;
    if f == 0 {
        whole
    } else if f % 100 == 0 {
        whole + seq!['.', digit_char(f / 100)]
    } else if f % 10 == 0 {
        whole + seq!['.', digit_char(f / 100), digit_char((f / 10) % 10)]
    } else {
        whole + seq!['.', digit_char(f / 100), digit_char((f / 10) % 10), digit_char(f % 10)]
    }
}

/// The one-character string for a decimal digit.
fn digit_str(d: u64) -> (r: &'static str)
    requires
        d < 10,
    ensures
        r@ == seq![digit_char(d as int)],
{
    proof {
        reveal_strlit("0");
        reveal_strlit("1");
        reveal_strlit("2");
        reveal_strlit("3");
        reveal_strlit("4");
        reveal_strlit("5");
        reveal_strlit("6");
        reveal_strlit("7");
        reveal_strlit("8");
        reveal_strlit("9");
    }
    let r = if d == 0 {
        "0"
    } else if d == 1 {
        "1"
    } else if d == 2 {
        "2"
    } else if d == 3 {
        "3"
    } else if d == 4 {
        "4"
    } else if d == 5 {
        "5"
    } else if d == 6 {
        "6"
    } else if d == 7 {
        "7"
    } else if d == 8 {
        "8"
    } else {
        "9"
    };
    proof {
        assert(r@ =~= seq![digit_char(d as int)]);
    }
    r
}

/// Decimal rendering of a `u64`.
pub fn u64_str(n: u64) -> (s: String)
    ensures
        s@ == dec_str(n as nat),
    decreases n,
{
    if n < 10 {
        let s = String::from_str(digit_str(n));
        proof {
            assert(s@ =~= dec_str(n as nat));
        }
        s
    } else {
        let q = u64_str(n / 10);
        let s = q.concat(digit_str(n % 10));
        proof {
            assert(s@ =~= dec_str(n as nat));
        }
        s
    }
}

/// Two-decimal rendering of a nonnegative quantity held in hundredths.
pub fn fixed2_u64(v: u64) -> (s: String)
    ensures
        s@ == fixed2_str(v as int),
{
    let whole = u64_str(v / 100);
    let s = whole.concat(".");
    let s = s.concat(digit_str((v % 100) / 10));
    let s = s.concat(digit_str(v % 10));
    proof {
        reveal_strlit(".");
        assert(s@ =~= fixed2_str(v as int));
    }
    s
}

/// Two-decimal rendering of a signed quantity held in hundredths.
pub fn fixed2_i64(v: i64) -> (s: String)
    requires
        v > i64::MIN,
    ensures
        s@ == fixed2_str(v as int),
{
    if v < 0 {
        let m = (-v) as u64;
        let tail = fixed2_u64(m);
        let s = String::from_str("-");
        let s = s.concat(tail.as_str());
        proof {
            reveal_strlit("-");
            assert(s@ =~= fixed2_str(v as int));
        }
        s
    } else {
        fixed2_u64(v as u64)
    }
}

/// Shortest-decimal rendering of a nonnegative quantity held in thousandths.
pub fn milli_u64(v: u64) -> (s: String)
    ensures
        s@ == milli_str(v as int),
{
    let whole = u64_str(v / 1000);
    let f = v % 1000;
    if f == 0 {
        proof {
            assert(whole@ =~= milli_str(v as int));
        }
        whole
    } else if f % 100 == 0 {
        let s = whole.concat(".");
        let s = s.concat(digit_str(f / 100));
        proof {
            reveal_strlit(".");
            assert(s@ =~= milli_str(v as int));
        }
        s
    } else if f % 10 == 0 {
        let s = whole.concat(".");
        let s = s.concat(digit_str(f / 100));
        let s = s.concat(digit_str((f / 10) % 10));
        proof {
            reveal_strlit(".");
            assert(s@ =~= milli_str(v as int));
        }
        s
    } else {
        let s = whole.concat(".");
        let s = s.concat(digit_str(f / 100));
        let s = s.concat(digit_str((f / 10) % 10));
        let s = s.concat(digit_str(f % 10));
        proof {
            reveal_strlit(".");
            assert(s@ =~= milli_str(v as int));
        }
        s
    }
}

/// Shortest-decimal rendering of a signed quantity held in thousandths.
pub fn milli_i64(v: i64) -> (s: String)
    requires
        v > i64::MIN,
    ensures
        s@ == milli_str(v as int),
{
    if v < 0 {
        let m = (-v) as u64;
        let tail = milli_u64(m);
        let s = String::from_str("-");
        let s = s.concat(tail.as_str());
        proof {
            reveal_strlit("-");
            assert(s@ =~= milli_str(v as int));
        }
        s
    } else {
        milli_u64(v as u64)
    }
}

} // verus!
