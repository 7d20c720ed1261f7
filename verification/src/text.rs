//! Text primitives over the standard library's string functions.

use crate::seq_lemmas::{lemma_filter_none, lemma_filter_step};
use vstd::prelude::*;
use vstd::string::{StrSliceExecFns, StringExecFns};

verus! {

/// What `str::trim` leaves of a text.
pub uninterp spec fn trimmed(s: Seq<char>) -> Seq<char>;

/// What `str::to_lowercase` makes of a text.
pub uninterp spec fn lowercased(s: Seq<char>) -> Seq<char>;

/// What `str::to_uppercase` makes of a text.
pub uninterp spec fn uppercased(s: Seq<char>) -> Seq<char>;

/// The words that `str::split_whitespace` finds in a text.
pub uninterp spec fn words_of(s: Seq<char>) -> Seq<Seq<char>>;

/// The lines that `str::lines` finds in a text.
pub uninterp spec fn lines_of(s: Seq<char>) -> Seq<Seq<char>>;

/// `needle` stands in `text` from position `i` on.
pub open spec fn occurs_at(text: Seq<char>, needle: Seq<char>, i: int) -> bool {
    0 <= i && i + needle.len() <= text.len() && text.subrange(i, i + needle.len()) == needle
}

/// `needle` stands somewhere in `text`.
pub open spec fn has_substring(text: Seq<char>, needle: Seq<char>) -> bool {
    exists|i: int| occurs_at(text, needle, i)
}

/// One of `needles` stands somewhere in `text`.
pub open spec fn has_any_substring(text: Seq<char>, needles: Seq<&str>) -> bool {
    exists|k: int| 0 <= k < needles.len() && has_substring(text, #[trigger] needles[k]@)
}

/// `str::trim`: the result is the text without its leading and trailing
/// white space. The contract only names that result.
#[verifier::external_body]
pub(crate) fn trim(s: &str) -> (r: &str)
    ensures
        r@ == trimmed(s@),
{
    s.trim()
}

/// `str::to_lowercase`: the result is the lower-case form of the text. The
/// contract only names that result.
#[verifier::external_body]
pub(crate) fn to_lowercase(s: &str) -> (r: String)
    ensures
        r@ == lowercased(s@),
{
    s.to_lowercase()
}

/// `str::to_uppercase`: the result is the upper-case form of the text. The
/// contract only names that result.
#[verifier::external_body]
pub(crate) fn to_uppercase(s: &str) -> (r: String)
    ensures
        r@ == uppercased(s@),
{
    s.to_uppercase()
}

/// `str::contains` with a string pattern: true exactly when the pattern
/// matches a sub-slice of the text.
#[verifier::external_body]
pub(crate) fn contains(text: &str, needle: &str) -> (r: bool)
    ensures
        r == has_substring(text@, needle@),
{
    text.contains(needle)
}

/// `str::split_whitespace`: the sub-slices of the text that white space
/// separates, in order. The contract only names that result.
#[verifier::external_body]
pub(crate) fn split_whitespace(s: &str) -> (r: Vec<String>)
    ensures
        r.deep_view() == words_of(s@),
{
    s.split_whitespace().map(|w| w.to_string()).collect()
}

/// `str::lines`: the lines of the text, without their line endings, in
/// order. The contract only names that result.
#[verifier::external_body]
pub(crate) fn lines(s: &str) -> (r: Vec<&str>)
    ensures
        r.deep_view() == lines_of(s@),
{
    s.lines().collect()
}

/// Whether the lower-case form of `text` holds one of `needles`.
pub fn contains_any(text: &str, needles: &[&str]) -> (r: bool)
    ensures
        r == has_any_substring(lowercased(text@), needles@),
{
    let t = to_lowercase(text);
    let mut k: usize = 0;
    while k < needles.len()
        invariant
            k <= needles.len(),
            t@ == lowercased(text@),
            forall|j: int| 0 <= j < k ==> !has_substring(t@, #[trigger] needles@[j]@),
        decreases needles.len() - k,
    {
        if contains(t.as_str(), needles[k]) {
            return true;
        }
        k += 1;
    }
    false
}

/// `s` begins with `prefix`.
pub open spec fn has_prefix(s: Seq<char>, prefix: Seq<char>) -> bool {
    prefix.len() <= s.len() && s.subrange(0, prefix.len() as int) == prefix
}

/// Nothing but white space stands in `s`.
pub open spec fn blank(s: Seq<char>) -> bool {
    trimmed(s).len() == 0
}

/// Whether nothing but white space stands in `s`.
pub fn is_blank(s: &str) -> (r: bool)
    ensures
        r == blank(s@),
{
    trim(s).is_empty()
}

/// Whether `s` begins with `prefix`.
pub fn starts_with(s: &str, prefix: &str) -> (r: bool)
    ensures
        r == has_prefix(s@, prefix@),
{
    let n = prefix.unicode_len();
    if n > s.unicode_len() {
        return false;
    }
    let mut i: usize = 0;
    while i < n
        invariant
            i <= n,
            n == prefix@.len(),
            n <= s@.len(),
            forall|j: int| 0 <= j < i ==> s@[j] == prefix@[j],
        decreases n - i,
    {
        if s.get_char(i) != prefix.get_char(i) {
            assert(s@.subrange(0, n as int)[i as int] == s@[i as int]);
            return false;
        }
        i += 1;
    }
    assert(s@.subrange(0, n as int) =~= prefix@);
    true
}

/// Whether two texts are the same.
pub fn same_text(a: &str, b: &str) -> (r: bool)
    ensures
        r == (a@ == b@),
{
    if a.unicode_len() != b.unicode_len() {
        return false;
    }
    let r = starts_with(a, b);
    assert(a@.subrange(0, a@.len() as int) =~= a@);
    r
}

/// A character is another one than `c`.
pub open spec fn is_not(c: char) -> spec_fn(char) -> bool {
    |x: char| x != c
}

/// `s` without every `c` in it.
pub open spec fn without(s: Seq<char>, c: char) -> Seq<char> {
    s.filter(is_not(c))
}

/// Removes every `c` from `s`.
pub fn remove_char(s: &str, c: char) -> (r: String)
    ensures
        r@ == without(s@, c),
{
    let n = s.unicode_len();
    let mut out = String::new();
    let mut i: usize = 0;
    proof {
        lemma_filter_none(s@, is_not(c));
    }
    while i < n
        invariant
            i <= n,
            n == s@.len(),
            out@ == s@.take(i as int).filter(is_not(c)),
        decreases n - i,
    {
        proof {
            lemma_filter_step(s@, is_not(c), i as int);
        }
        if s.get_char(i) != c {
            let one = s.substring_char(i, i + 1);
            assert(one@ =~= seq![s@[i as int]]);
            let ghost before = out@;
            out.append(one);
            assert(out@ =~= before.push(s@[i as int]));
        }
        i += 1;
    }
    assert(s@.take(n as int) =~= s@);
    out
}

/// The position of the first `c` in `s`; the length of `s` where it has none.
pub open spec fn position_of(s: Seq<char>, c: char) -> int
    decreases s.len(),
{
    if s.len() == 0 || s[0] == c {
        0
    } else {
        1 + position_of(s.drop_first(), c)
    }
}

/// The first `c` stands where no `c` stands before.
pub proof fn lemma_position_of(s: Seq<char>, c: char, k: int)
    requires
        0 <= k <= s.len(),
        forall|j: int| 0 <= j < k ==> s[j] != c,
        k < s.len() ==> s[k] == c,
    ensures
        position_of(s, c) == k,
    decreases s.len(),
{
    if s.len() > 0 && k > 0 {
        let rest = s.drop_first();
        assert forall|j: int| 0 <= j < k - 1 implies rest[j] != c by {
            assert(rest[j] == s[j + 1]);
        }
        lemma_position_of(rest, c, k - 1);
    }
}

/// Finds the first `c` in `s` from position `from` on; the result is the
/// length of `s` where there is none.
pub fn find_char(s: &str, c: char, from: usize) -> (r: usize)
    requires
        from <= s@.len(),
    ensures
        from <= r <= s@.len(),
        r - from == position_of(s@.subrange(from as int, s@.len() as int), c),
{
    let n = s.unicode_len();
    let ghost tail = s@.subrange(from as int, n as int);
    let mut k: usize = from;
    while k < n && s.get_char(k) != c
        invariant
            from <= k <= n,
            n == s@.len(),
            tail == s@.subrange(from as int, n as int),
            forall|j: int| 0 <= j < k - from ==> tail[j] != c,
        decreases n - k,
    {
        k += 1;
    }
    proof {
        lemma_position_of(tail, c, k - from);
    }
    k
}

/// A character is an ASCII digit.
pub open spec fn is_ascii_digit() -> spec_fn(char) -> bool {
    |c: char| '0' <= c <= '9'
}

/// The ASCII digits of `s`, in order.
pub open spec fn digits_in(s: Seq<char>) -> Seq<char> {
    s.filter(is_ascii_digit())
}

/// Keeps the ASCII digits of `s`.
pub fn keep_digits(s: &str) -> (r: String)
    ensures
        r@ == digits_in(s@),
{
    let n = s.unicode_len();
    let mut out = String::new();
    let mut i: usize = 0;
    proof {
        lemma_filter_none(s@, is_ascii_digit());
    }
    while i < n
        invariant
            i <= n,
            n == s@.len(),
            out@ == s@.take(i as int).filter(is_ascii_digit()),
        decreases n - i,
    {
        proof {
            lemma_filter_step(s@, is_ascii_digit(), i as int);
        }
        let c: char = s.get_char(i);
        if c >= '0' && c <= '9' {
            let one = s.substring_char(i, i + 1);
            assert(one@ =~= seq![s@[i as int]]);
            let ghost before = out@;
            out.append(one);
            assert(out@ =~= before.push(s@[i as int]));
        }
        i += 1;
    }
    assert(s@.take(n as int) =~= s@);
    out
}

} // verus!
