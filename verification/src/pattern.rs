//! Regular-expression matching, done by the `regex` crate.

use regex::Regex;
use vstd::prelude::*;

verus! {

/// What `Regex::replace` makes of `text` when the expression `pattern`
/// compiles: the text with its leftmost match replaced by `rep`. `None`
/// when `Regex::new` refuses the pattern.
pub uninterp spec fn regex_replaced(pattern: Seq<char>, text: Seq<char>, rep: Seq<char>) -> Option<
    Seq<char>,
>;

/// What `Regex::captures_iter` finds in `text` when the expression
/// `pattern` compiles: for each successive non-overlapping match its
/// groups, the whole match first, each with the text it matched or `None`
/// where it took no part. `None` when `Regex::new` refuses the pattern.
pub uninterp spec fn regex_captured(pattern: Seq<char>, text: Seq<char>) -> Option<
    Seq<Seq<Option<Seq<char>>>>,
>;

/// `Regex::new` followed by `Regex::replace`. The contract only names the
/// result; the result is a function of the three texts alone.
#[verifier::external_body]
pub(crate) fn replace_first(pattern: &str, text: &str, rep: &str) -> (r: Option<String>)
    ensures
        r.deep_view() == regex_replaced(pattern@, text@, rep@),
{
    match Regex::new(pattern) {
        Ok(re) => Some(re.replace(text, rep).into_owned()),
        Err(_) => None,
    }
}

/// `Regex::new` followed by `Regex::captures_iter`, each match handed out
/// as the texts of its groups. The contract only names the result; the
/// result is a function of the two texts alone.
#[verifier::external_body]
pub(crate) fn captures(pattern: &str, text: &str) -> (r: Option<Vec<Vec<Option<String>>>>)
    ensures
        r.deep_view() == regex_captured(pattern@, text@),
{
    match Regex::new(pattern) {
        Ok(re) => Some(
            re.captures_iter(text)
                .map(|c| c.iter().map(|m| m.map(|x| x.as_str().to_string())).collect())
                .collect(),
        ),
        Err(_) => None,
    }
}

} // verus!
