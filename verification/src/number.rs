//! Reading decimal numbers from text.

use crate::text::{find_char, position_of};
use vstd::prelude::*;
use vstd::string::StrSliceExecFns;

verus! {

/// `c` is one of the ten ASCII digits.
pub open spec fn is_digit(c: char) -> bool {
    '0' <= c <= '9'
}

/// The number that the digit `c` stands for.
pub open spec fn digit_value(c: char) -> int {
    c as int - 48
}

/// Every character of `s` is an ASCII digit.
pub open spec fn all_digits(s: Seq<char>) -> bool {
    forall|i: int| 0 <= i < s.len() ==> is_digit(#[trigger] s[i])
}

/// The number that the digits `s` write in base ten; 0 for no digits.
pub open spec fn digits_value(s: Seq<char>) -> int
    decreases s.len(),
{
    if s.len() == 0 {
        0
    } else {
        digits_value(s.drop_last()) * 10 + digit_value(s.last())
    }
}

/// The number that `s` writes, when `s` is all digits and the number is at
/// most `limit`.
pub open spec fn bounded_digits(s: Seq<char>, limit: int) -> Option<int> {
    if all_digits(s) && digits_value(s) <= limit {
        Some(digits_value(s))
    } else {
        None
    }
}

/// What a text denotes as a `u32`: an optional `+`, then at least one
/// digit and nothing else, the number within the type's range.
pub open spec fn parsed_u32(s: Seq<char>) -> Option<u32> {
    let digits = if s.len() > 0 && s[0] == '+' {
        s.subrange(1, s.len() as int)
    } else {
        s
    };
    if digits.len() > 0 && all_digits(digits) && digits_value(digits) <= u32::MAX {
        Some(digits_value(digits) as u32)
    } else {
        None
    }
}

/// A number written in digits is not negative.
pub proof fn lemma_digits_value_nonnegative(s: Seq<char>)
    requires
        all_digits(s),
    ensures
        digits_value(s) >= 0,
    decreases s.len(),
{
    if s.len() > 0 {
        assert(is_digit(s[s.len() - 1]));
        lemma_digits_value_nonnegative(s.drop_last());
    }
}

/// The digits up to any position write no more than all the digits do.
pub proof fn lemma_digits_value_grows(s: Seq<char>, k: int)
    requires
        all_digits(s),
        0 <= k <= s.len(),
    ensures
        digits_value(s.subrange(0, k)) <= digits_value(s),
    decreases s.len() - k,
{
    if k == s.len() {
        assert(s.subrange(0, k) =~= s);
    } else {
        lemma_digits_value_grows(s.drop_last(), k);
        assert(s.drop_last().subrange(0, k) =~= s.subrange(0, k));
        assert(is_digit(s[s.len() - 1]));
        lemma_digits_value_nonnegative(s.drop_last());
    }
}

/// Reads the digits of `s` from position `from` up to `to`.
pub fn read_digits(s: &str, from: usize, to: usize, limit: u64) -> (r: Option<u64>)
    requires
        from <= to <= s@.len(),
        limit <= 1_000_000_000_000_000_000,
    ensures
        r.is_some() == bounded_digits(s@.subrange(from as int, to as int), limit as int).is_some(),
        r.is_some() ==> bounded_digits(s@.subrange(from as int, to as int), limit as int)
            == Some(r.unwrap() as int),
{
    let ghost whole = s@.subrange(from as int, to as int);
    let mut acc: u64 = 0;
    let mut i: usize = from;
    while i < to
        invariant
            from <= i <= to <= s@.len(),
            limit <= 1_000_000_000_000_000_000,
            whole == s@.subrange(from as int, to as int),
            all_digits(s@.subrange(from as int, i as int)),
            acc == digits_value(s@.subrange(from as int, i as int)),
            acc <= limit,
        decreases to - i,
    {
        let c: char = s.get_char(i);
        let ghost before = s@.subrange(from as int, i as int);
        let ghost after = s@.subrange(from as int, i + 1);
        proof {
            assert(after.drop_last() =~= before);
            assert(after.last() == s@[i as int]);
            assert(whole[i - from] == s@[i as int]);
            assert(whole.subrange(0, i + 1 - from) =~= after);
        }
        if c < '0' || c > '9' {
            assert(!is_digit(whole[i - from]));
            return None;
        }
        acc = acc * 10 + (c as u64 - 48);
        assert(acc == digits_value(after));
        if acc > limit {
            proof {
                if all_digits(whole) {
                    lemma_digits_value_grows(whole, i + 1 - from);
                }
            }
            return None;
        }
        assert(all_digits(after)) by {
            assert forall|j: int| 0 <= j < after.len() implies is_digit(#[trigger] after[j]) by {
                if j < before.len() {
                    assert(after[j] == before[j]);
                }
            }
        }
        i += 1;
    }
    assert(s@.subrange(from as int, i as int) =~= whole);
    Some(acc)
}

/// What a text denotes as an `i32`: an optional sign, then at least one
/// digit and nothing else, the number within the type's range.
pub open spec fn parsed_i32(s: Seq<char>) -> Option<i32> {
    let signed = s.len() > 0 && (s[0] == '-' || s[0] == '+');
    let digits = if signed {
        s.subrange(1, s.len() as int)
    } else {
        s
    };
    if s.len() > 0 && s[0] == '-' {
        if digits.len() > 0 && all_digits(digits) && digits_value(digits) <= 0x8000_0000 {
            Some((-digits_value(digits)) as i32)
        } else {
            None
        }
    } else {
        if digits.len() > 0 && all_digits(digits) && digits_value(digits) <= 0x7fff_ffff {
            Some(digits_value(digits) as i32)
        } else {
            None
        }
    }
}

/// Reads an `i32` written in decimal from position `from` up to `to`.
pub fn parse_i32_in(s: &str, from: usize, to: usize) -> (r: Option<i32>)
    requires
        from <= to <= s@.len(),
    ensures
        r == parsed_i32(s@.subrange(from as int, to as int)),
{
    let ghost part = s@.subrange(from as int, to as int);
    if from == to {
        return None;
    }
    let first: char = s.get_char(from);
    assert(part[0] == first);
    let negative = first == '-';
    let start: usize = if first == '-' || first == '+' {
        from + 1
    } else {
        from
    };
    if start == to {
        return None;
    }
    proof {
        assert(part.subrange(1, part.len() as int) =~= s@.subrange(from + 1, to as int));
    }
    if negative {
        match read_digits(s, start, to, 0x8000_0000) {
            Some(v) => Some((-(v as i64)) as i32),
            None => None,
        }
    } else {
        match read_digits(s, start, to, 0x7fff_ffff) {
            Some(v) => Some(v as i32),
            None => None,
        }
    }
}

/// Reads an `i32` written in decimal.
pub fn parse_i32(s: &str) -> (r: Option<i32>)
    ensures
        r == parsed_i32(s@),
{
    let n = s.unicode_len();
    assert(s@.subrange(0, n as int) =~= s@);
    parse_i32_in(s, 0, n)
}

/// Reads a `u32` written in decimal.
pub fn parse_u32(s: &str) -> (r: Option<u32>)
    ensures
        r == parsed_u32(s@),
{
    let n: usize = s.unicode_len();
    if n == 0 {
        return None;
    }
    let start: usize = if s.get_char(0) == '+' {
        1
    } else {
        0
    };
    if start == n {
        return None;
    }
    assert(s@.subrange(0, n as int) =~= s@);
    match read_digits(s, start, n, 0xffff_ffff) {
        Some(v) => Some(v as u32),
        None => None,
    }
}

/// The position of the first `.` in `s`; the length of `s` where it has none.
pub open spec fn dot_position(s: Seq<char>) -> int {
    position_of(s, '.')
}

/// What the digits `f` after a decimal point are worth, the first of them
/// counting `scale`, each next one a tenth of the one before, rounded down.
pub open spec fn fraction_value(f: Seq<char>, scale: int) -> int
    decreases f.len(),
{
    if f.len() == 0 {
        0
    } else {
        digit_value(f[0]) * scale + fraction_value(f.drop_first(), scale / 10)
    }
}

/// The digits of `s` before its first `.`.
pub open spec fn whole_part(s: Seq<char>) -> Seq<char> {
    s.subrange(0, dot_position(s))
}

/// The digits of `s` after its first `.`; none where it has no `.`.
pub open spec fn fraction_part(s: Seq<char>) -> Seq<char> {
    if dot_position(s) < s.len() {
        s.subrange(dot_position(s) + 1, s.len() as int)
    } else {
        Seq::empty()
    }
}

/// What a text without a sign denotes in millionths: digits, then
/// optionally a `.` and digits, with one digit at least; the whole part at
/// most a million millions; digits beyond the sixth after the point are
/// dropped.
pub open spec fn unsigned_decimal(s: Seq<char>) -> Option<int> {
    let whole = whole_part(s);
    let frac = fraction_part(s);
    if whole.len() + frac.len() > 0 && all_digits(whole) && all_digits(frac) && digits_value(whole)
        <= 1_000_000_000_000 {
        Some(digits_value(whole) * 1_000_000 + fraction_value(frac, 100_000))
    } else {
        None
    }
}

/// What a text denotes as a decimal number, in millionths: an optional
/// sign, then an unsigned decimal.
pub open spec fn parsed_decimal(s: Seq<char>) -> Option<int> {
    if s.len() > 0 && s[0] == '-' {
        match unsigned_decimal(s.subrange(1, s.len() as int)) {
            Some(v) => Some(-v),
            None => None,
        }
    } else if s.len() > 0 && s[0] == '+' {
        unsigned_decimal(s.subrange(1, s.len() as int))
    } else {
        unsigned_decimal(s)
    }
}

fn read_fraction(s: &str, from: usize, to: usize) -> (r: Option<u64>)
    requires
        from <= to <= s@.len(),
    ensures
        r.is_some() == all_digits(s@.subrange(from as int, to as int)),
        r matches Some(v) ==> v == fraction_value(s@.subrange(from as int, to as int), 100_000)
            && v < 1_000_000,
{
    let ghost frac = s@.subrange(from as int, to as int);
    let mut acc: u64 = 0;
    let mut scale: u64 = 100_000;
    let mut i: usize = from;
    assert(frac.skip(0) =~= frac);
    while i < to
        invariant
            from <= i <= to <= s@.len(),
            frac == s@.subrange(from as int, to as int),
            forall|j: int| 0 <= j < i - from ==> is_digit(#[trigger] frac[j]),
            fraction_value(frac, 100_000) == acc + fraction_value(frac.skip(i - from), scale as int),
            acc + 10 * scale <= 1_000_000,
            acc < 1_000_000,
        decreases to - i,
    {
        let c: char = s.get_char(i);
        assert(frac[i - from] == c);
        if c < '0' || c > '9' {
            return None;
        }
        let d: u64 = c as u64 - 48;
        proof {
            let rest = frac.skip(i - from);
            assert(rest[0] == c);
            assert(rest.drop_first() =~= frac.skip(i + 1 - from));
            assert(fraction_value(rest, scale as int) == digit_value(c) * scale + fraction_value(
                rest.drop_first(),
                scale as int / 10,
            ));
            assert(0 <= d * scale <= 9 * scale) by (nonlinear_arith)
                requires
                    0 <= d <= 9,
                    0 <= scale,
            ;
        }
        acc = acc + d * scale;
        scale = scale / 10;
        i += 1;
    }
    assert(frac.skip(i - from).len() == 0);
    Some(acc)
}

/// Reads a decimal number into millionths.
pub fn parse_decimal(s: &str) -> (r: Option<i64>)
    ensures
        r.is_some() == parsed_decimal(s@).is_some(),
        r matches Some(v) ==> parsed_decimal(s@) == Some(v as int),
{
    let n: usize = s.unicode_len();
    let first: char = if n > 0 {
        s.get_char(0)
    } else {
        ' '
    };
    let negative = n > 0 && first == '-';
    let start: usize = if n > 0 && (first == '-' || first == '+') {
        1
    } else {
        0
    };
    let ghost body = s@.subrange(start as int, n as int);
    assert(s@.subrange(0, n as int) =~= s@);
    let k: usize = find_char(s, '.', start);
    let after: usize = if k < n {
        k + 1
    } else {
        n
    };
    proof {
        assert(whole_part(body) =~= s@.subrange(start as int, k as int));
        assert(fraction_part(body) =~= s@.subrange(after as int, n as int));
    }
    if (k - start) + (n - after) == 0 {
        return None;
    }
    let whole = match read_digits(s, start, k, 1_000_000_000_000) {
        Some(w) => w,
        None => {
            return None;
        },
    };
    let frac = match read_fraction(s, after, n) {
        Some(f) => f,
        None => {
            return None;
        },
    };
    let magnitude: i64 = (whole * 1_000_000 + frac) as i64;
    if negative {
        Some(-magnitude)
    } else {
        Some(magnitude)
    }
}

} // verus!
