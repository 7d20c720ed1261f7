//! The facts of a past race's trip: its merged comment and the widest path
//! the comment speaks of.

use crate::models::racecard::PastPerformance;
use crate::number::{parse_u32, parsed_u32};
use crate::pattern::{captures, regex_captured, regex_replaced, replace_first};
use crate::text::{contains, has_substring, lowercased, to_lowercase, trim, trimmed};
use vstd::prelude::*;
use vstd::string::StringExecFns;

verus! {

/// A leading date of the form `DD-DD-DD`, with the white space round it.
pub const DATE_PREFIX: &'static str = r"^\s*\d{2}-\d{2}-\d{2}\s+";

/// A running position given as a path, `3w` or `4-5w`.
pub const RUNNING_WIDE: &'static str = r"(?:(\d)\s*-\s*(\d)\s*w)|(?:(\d{1,2})\s*w)\b";

/// A post position given as a path, `5p`, `5pth`, `5wd` or `5 wide`.
pub const POST_WIDE: &'static str = r"\b(\d{1,2})\s*(?:p|pth|wd|wide)\b";

/// `text` without a leading date.
pub open spec fn without_date_prefix(text: Seq<char>) -> Seq<char> {
    match regex_replaced(DATE_PREFIX@, text, ""@) {
        Some(rest) => rest,
        None => text,
    }
}

/// The extended comment without its date, then the short comment unless the
/// first already holds it, the two joined by `"; "`.
pub open spec fn merged_text(extended: Seq<char>, short: Seq<char>) -> Seq<char> {
    let e = trimmed(extended);
    let s = trimmed(short);
    let head = if e.len() == 0 {
        Seq::<char>::empty()
    } else {
        without_date_prefix(e)
    };
    if s.len() == 0 || has_substring(lowercased(head), lowercased(s)) {
        head
    } else if e.len() == 0 {
        s
    } else {
        head + "; "@ + s
    }
}

/// Removes a leading date from `text`.
pub fn strip_date_prefix(text: &str) -> (r: String)
    ensures
        r@ == without_date_prefix(text@),
{
    match replace_first(DATE_PREFIX, text, "") {
        Some(rest) => rest,
        None => String::from_str(text),
    }
}

/// Merges the two trip comments of a past race into one text.
pub fn merged_trip_text(pp: &PastPerformance) -> (r: String)
    ensures
        r@ == merged_text(pp@.extended_start_comment, pp@.trip_comment),
{
    let ext = trim(pp.extended_start_comment.as_str());
    let has_head = !ext.is_empty();
    let mut merged = if has_head {
        strip_date_prefix(ext)
    } else {
        String::new()
    };
    let short = trim(pp.trip_comment.as_str());
    if !short.is_empty() {
        let short_norm = to_lowercase(short);
        let ext_norm = to_lowercase(merged.as_str());
        if !contains(ext_norm.as_str(), short_norm.as_str()) {
            if has_head {
                merged.append("; ");
            }
            merged.append(short);
            assert(merged@ =~= merged_text(pp@.extended_start_comment, pp@.trip_comment));
        }
    }
    merged
}

/// Group `i` of one match; `None` where the match has no such group.
pub open spec fn group(groups: Seq<Option<Seq<char>>>, i: int) -> Option<Seq<char>> {
    if 0 <= i < groups.len() {
        groups[i]
    } else {
        None
    }
}

/// The wider of a path seen before, if any, and `v`.
pub open spec fn widened(best: Option<u32>, v: u32) -> Option<u32> {
    match best {
        Some(b) if b > v => Some(b),
        _ => Some(v),
    }
}

/// The widest path after one more running-position match. A pair `a-b`
/// counts as the larger of the two; a pair with a number that does not read
/// ends the whole search (`None`).
pub open spec fn running_step(best: Option<u32>, groups: Seq<Option<Seq<char>>>) -> Option<
    Option<u32>,
> {
    match (group(groups, 1), group(groups, 2)) {
        (Some(a), Some(b)) => match (parsed_u32(a), parsed_u32(b)) {
            (Some(x), Some(y)) => Some(widened(best, if x > y { x } else { y })),
            _ => None,
        },
        _ => match group(groups, 3) {
            Some(n) => match parsed_u32(n) {
                Some(v) => Some(widened(best, v)),
                None => Some(best),
            },
            None => Some(best),
        },
    }
}

/// The widest path after all running-position matches, taken in order.
pub open spec fn running_scan(matches: Seq<Seq<Option<Seq<char>>>>, best: Option<u32>) -> Option<
    Option<u32>,
>
    decreases matches.len(),
{
    if matches.len() == 0 {
        Some(best)
    } else {
        match running_step(best, matches[0]) {
            Some(next) => running_scan(matches.drop_first(), next),
            None => None,
        }
    }
}

/// The widest path after one more post-position match.
pub open spec fn post_step(best: Option<u32>, groups: Seq<Option<Seq<char>>>) -> Option<u32> {
    match group(groups, 1) {
        Some(n) => match parsed_u32(n) {
            Some(v) => widened(best, v),
            None => best,
        },
        None => best,
    }
}

/// The widest path after all post-position matches, taken in order.
pub open spec fn post_scan(matches: Seq<Seq<Option<Seq<char>>>>, best: Option<u32>) -> Option<u32>
    decreases matches.len(),
{
    if matches.len() == 0 {
        best
    } else {
        post_scan(matches.drop_first(), post_step(best, matches[0]))
    }
}

/// The matches of an expression, none where the expression does not compile.
pub open spec fn matches_of(pattern: Seq<char>, text: Seq<char>) -> Seq<Seq<Option<Seq<char>>>> {
    match regex_captured(pattern, text) {
        Some(m) => m,
        None => Seq::empty(),
    }
}

/// The widest path that `text` speaks of, over both families of patterns.
pub open spec fn widest_path(text: Seq<char>) -> Option<u32> {
    let t = lowercased(text);
    match running_scan(matches_of(RUNNING_WIDE@, t), None) {
        Some(best) => post_scan(matches_of(POST_WIDE@, t), best),
        None => None,
    }
}

fn widen(best: Option<u32>, v: u32) -> (r: Option<u32>)
    ensures
        r == widened(best, v),
{
    match best {
        Some(b) => if b > v {
            Some(b)
        } else {
            Some(v)
        },
        None => Some(v),
    }
}

fn group_number(groups: &Vec<Option<String>>, i: usize) -> (r: Option<Option<u32>>)
    ensures
        r == match group(groups.deep_view(), i as int) {
            Some(n) => Some(parsed_u32(n)),
            None => None,
        },
{
    if i < groups.len() {
        match &groups[i] {
            Some(s) => Some(parse_u32(s.as_str())),
            None => None,
        }
    } else {
        None
    }
}

fn find_matches(pattern: &str, text: &str) -> (r: Vec<Vec<Option<String>>>)
    ensures
        r.deep_view() == matches_of(pattern@, text@),
{
    match captures(pattern, text) {
        Some(m) => m,
        None => {
            let empty: Vec<Vec<Option<String>>> = Vec::new();
            assert(empty.deep_view() =~= Seq::empty());
            empty
        },
    }
}

/// Finds the widest path that a trip comment speaks of.
pub fn max_path_from_text(text: &str) -> (r: Option<u32>)
    ensures
        r == widest_path(text@),
{
    let t = to_lowercase(text);
    let running = find_matches(RUNNING_WIDE, t.as_str());
    let ghost all_running = running.deep_view();
    let mut best: Option<u32> = None;
    let mut i: usize = 0;
    assert(all_running.skip(0) =~= all_running);
    while i < running.len()
        invariant
            i <= running.len(),
            all_running == running.deep_view(),
            all_running == matches_of(RUNNING_WIDE@, lowercased(text@)),
            running_scan(all_running, None) == running_scan(all_running.skip(i as int), best),
        decreases running.len() - i,
    {
        let groups = &running[i];
        proof {
            assert(all_running.skip(i as int)[0] == groups.deep_view());
            assert(all_running.skip(i as int).drop_first() =~= all_running.skip(i + 1));
        }
        let first = group_number(groups, 1);
        let second = group_number(groups, 2);
        if first.is_some() && second.is_some() {
            match (first.unwrap(), second.unwrap()) {
                (Some(x), Some(y)) => {
                    best = widen(best, if x > y { x } else { y });
                },
                _ => {
                    assert(running_step(best, groups.deep_view()).is_none());
                    return None;
                },
            }
        } else {
            match group_number(groups, 3) {
                Some(Some(v)) => {
                    best = widen(best, v);
                },
                _ => {},
            }
        }
        i += 1;
    }
    let post = find_matches(POST_WIDE, t.as_str());
    let ghost all_post = post.deep_view();
    let ghost start = best;
    let mut k: usize = 0;
    assert(all_post.skip(0) =~= all_post);
    while k < post.len()
        invariant
            k <= post.len(),
            all_post == post.deep_view(),
            post_scan(all_post, start) == post_scan(all_post.skip(k as int), best),
        decreases post.len() - k,
    {
        let groups = &post[k];
        proof {
            assert(all_post.skip(k as int)[0] == groups.deep_view());
            assert(all_post.skip(k as int).drop_first() =~= all_post.skip(k + 1));
        }
        match group_number(groups, 1) {
            Some(Some(v)) => {
                best = widen(best, v);
            },
            _ => {},
        }
        k += 1;
    }
    best
}

} // verus!
