//! Decimal rendering of counters and sizes for the dispatcher's output
//! lines.

use vstd::prelude::*;
use vstd::string::StringExecFns;

verus! {

/// The decimal digit character for a value below ten.
pub open spec fn spec_digit(d: nat) -> char {
    if d == 0 {
        '0'
    } else if d == 1 {
        '1'
    } else if d == 2 {
        '2'
    } else if d == 3 {
        '3'
    } else if d == 4 {
        '4'
    } else if d == 5 {
        '5'
    } else if d == 6 {
        '6'
    } else if d == 7 {
        '7'
    } else if d == 8 {
        '8'
    } else {
        '9'
    }
}

/// The decimal rendering of a natural number, most significant digit
/// first, without leading zeroes (a lone zero for zero itself).
pub open spec fn spec_dec(n: nat) -> Seq<char>
    decreases n,
{
    if n < 10 {
        seq![spec_digit(n)]
    } else {
        spec_dec(n / 10).push(spec_digit(n % 10))
    }
}

fn digit_str(d: u64) -> (r: String)
    requires
        d < 10,
    ensures
        r@ == seq![spec_digit(d as nat)],
{
    let s: &str = if d == 0 {
        "0"
    } else if d == 1 {
        "1"
    } else if d == 2 {
        "2"
    } else if d == 3 {
        "3"
    } else if d == 4 {
        "4"
    } else if d == 5 {
        "5"
    } else if d == 6 {
        "6"
    } else if d == 7 {
        "7"
    } else if d == 8 {
        "8"
    } else {
        "9"
    };
    proof {
        reveal_strlit("0");
        reveal_strlit("1");
        reveal_strlit("2");
        reveal_strlit("3");
        reveal_strlit("4");
        reveal_strlit("5");
        reveal_strlit("6");
        reveal_strlit("7");
        reveal_strlit("8");
        reveal_strlit("9");
    }
    let r = String::from_str(s);
    proof {
        assert(r@ =~= seq![spec_digit(d as nat)]);
    }
    r
}

/// A line made of a fixed prefix and a value.
pub(crate) fn line(prefix: &str, rest: &str) -> (r: String)
    ensures
        r@ == prefix@ + rest@,
{
    String::from_str(prefix).concat(rest)
}

/// Renders a value in decimal, as the dispatcher prints sizes and counts.
pub fn dec_u64(v: u64) -> (r: String)
    ensures
        r@ == spec_dec(v as nat),
    decreases v,
{
    if v < 10 {
        digit_str(v)
    } else {
        let prefix = dec_u64(v / 10);
        let last = digit_str(v % 10);
        let r = prefix.concat(last.as_str());
        proof {
            assert(r@ =~= spec_dec(v as nat));
        }
        r
    }
}

} // verus!
