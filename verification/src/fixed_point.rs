//! Fixed-point arithmetic on integers that count millionths.

use vstd::prelude::*;
use vstd::arithmetic::div_mod::lemma_fundamental_div_mod_converse;
use vstd::string::StringExecFns;

verus! {

/// `v` limited to the closed range from `lo` to `hi`.
pub open spec fn clamped(v: int, lo: int, hi: int) -> int {
    if v < lo {
        lo
    } else if v > hi {
        hi
    } else {
        v
    }
}

/// Limits `v` to the closed range from `lo` to `hi`.
pub fn clamp(v: i128, lo: i128, hi: i128) -> (r: i128)
    ensures
        r == clamped(v as int, lo as int, hi as int),
{
    if v < lo {
        lo
    } else if v > hi {
        hi
    } else {
        v
    }
}

/// The quotient of `n` by a positive `d`, rounded toward negative infinity.
pub fn div_floor(n: i128, d: i128) -> (q: i128)
    requires
        d > 0,
    ensures
        q == (n as int) / (d as int),
{
    if n >= 0 {
        n / d
    } else {
        let m: i128 = -(n + 1);
        let t: i128 = m / d;
        proof {
            let r: int = (m as int) % (d as int);
            vstd::arithmetic::div_mod::lemma_fundamental_div_mod(m as int, d as int);
            assert(n as int == (-(t as int) - 1) * (d as int) + ((d as int) - 1 - r))
                by (nonlinear_arith)
                requires
                    m as int == (d as int) * (t as int) + r,
                    m as int == -(n as int) - 1,
            ;
            lemma_fundamental_div_mod_converse(
                n as int,
                d as int,
                -(t as int) - 1,
                (d as int) - 1 - r,
            );
        }
        -t - 1
    }
}

/// The character of the decimal digit `d`.
pub open spec fn digit_char(d: int) -> char {
    if d == 0 {
        '0'
    } else if d == 1 {
        '1'
    } else if d == 2 {
        '2'
    } else if d == 3 {
        '3'
    } else if d == 4 {
        '4'
    } else if d == 5 {
        '5'
    } else if d == 6 {
        '6'
    } else if d == 7 {
        '7'
    } else if d == 8 {
        '8'
    } else {
        '9'
    }
}

/// The decimal digits of `n`, most significant first, without leading zeros.
pub open spec fn decimal_text(n: nat) -> Seq<char>
    decreases n,
{
    if n < 10 {
        seq![digit_char(n as int)]
    } else {
        decimal_text(n / 10).push(digit_char((n % 10) as int))
    }
}

fn digit_str(d: u8) -> (r: &'static str)
    requires
        d < 10,
    ensures
        r@ == seq![digit_char(d as int)],
{
    proof {
        reveal_strlit("0");
        reveal_strlit("1");
        reveal_strlit("2");
        reveal_strlit("3");
        reveal_strlit("4");
        reveal_strlit("5");
        reveal_strlit("6");
        reveal_strlit("7");
        reveal_strlit("8");
        reveal_strlit("9");
    }
    let r = if d == 0 {
        "0"
    } else if d == 1 {
        "1"
    } else if d == 2 {
        "2"
    } else if d == 3 {
        "3"
    } else if d == 4 {
        "4"
    } else if d == 5 {
        "5"
    } else if d == 6 {
        "6"
    } else if d == 7 {
        "7"
    } else if d == 8 {
        "8"
    } else {
        "9"
    };
    assert(r@ =~= seq![digit_char(d as int)]);
    r
}

/// Writes `n` in decimal.
pub fn decimal_string(n: u128) -> (r: String)
    ensures
        r@ == decimal_text(n as nat),
    decreases n,
{
    if n < 10 {
        String::from_str(digit_str(n as u8))
    } else {
        let mut s = decimal_string(n / 10);
        s.append(digit_str((n % 10) as u8));
        assert(s@ =~= decimal_text((n / 10) as nat).push(digit_char((n % 10) as int)));
        s
    }
}

/// The size of a number of millionths, without its sign.
pub open spec fn magnitude(m: int) -> int {
    if m < 0 {
        -m
    } else {
        m
    }
}

/// The hundredths in the size of a number of millionths, rounded to the
/// nearest, a half upward.
pub open spec fn hundredths(m: int) -> int {
    (magnitude(m) + 5_000) / 10_000
}

/// A number below one hundred in two digits.
pub open spec fn two_digits(n: int) -> Seq<char> {
    seq![digit_char(n / 10), digit_char(n % 10)]
}

/// A number of millionths written with two decimals: a `-` where the
/// number is negative and does not round to zero, the whole part, a point,
/// and the hundredths.
pub open spec fn two_decimals(m: int) -> Seq<char> {
    let h = hundredths(m);
    let sign = if m < 0 && h > 0 {
        "-"@
    } else {
        ""@
    };
    sign + decimal_text((h / 100) as nat) + "."@ + two_digits(h % 100)
}

/// Writes a number of millionths with two decimals.
pub fn format_two_decimals(m: i128) -> (r: String)
    ensures
        r@ == two_decimals(m as int),
{
    let size: u128 = if m < 0 {
        (-(m + 1)) as u128 + 1
    } else {
        m as u128
    };
    let h: u128 = (size + 5_000) / 10_000;
    let mut out = if m < 0 && h > 0 {
        String::from_str("-")
    } else {
        String::from_str("")
    };
    let whole = decimal_string(h / 100);
    out.append(whole.as_str());
    out.append(".");
    let cents: u8 = (h % 100) as u8;
    out.append(digit_str(cents / 10));
    out.append(digit_str(cents % 10));
    assert(out@ =~= two_decimals(m as int));
    out
}

} // verus!
