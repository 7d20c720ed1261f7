//! Trouble detection in a trip comment, and the adjustment of its score by
//! how the race ended.

use crate::analysis::trip_text::{max_path_from_text, merged_text, merged_trip_text, widest_path};
use crate::fixed_point::{decimal_string, decimal_text};
use crate::models::racecard::{PastPerformance, PastPerformanceView};
use crate::models::trip_handicapping::{max_raw_score, TripScore, TripScoreView};
use crate::text::{contains_any, has_any_substring, lowercased};
use vstd::prelude::*;
use vstd::string::StringExecFns;

verus! {

/// What a trip comment shows, rule by rule.
#[derive(Debug, Clone, Copy, PartialEq, Eq)]
pub struct TripSignals {
    pub start_trouble: bool,
    pub start_contact: bool,
    pub traffic: bool,
    pub bump: bool,
    pub widest_path: Option<u32>,
    pub pace_pressure: bool,
    pub noncompetitive: bool,
    pub dnf_like: bool,
}

/// Words that tell of trouble at the start.
pub open spec fn start_trouble_words() -> Seq<&'static str> {
    seq!["stumbled", "bobbled", "off slow", "slow start", "hesitated", "hit gate"]
}

/// Words that tell of contact at the start.
pub open spec fn start_contact_words() -> Seq<&'static str> {
    seq!["broke in", "broke out", "ducked", "pinched", "squeezed", "crowded"]
}

/// Words that tell of traffic or interference.
pub open spec fn traffic_words() -> Seq<&'static str> {
    seq![
        "checked",
        "steady",
        "steadied",
        "blocked",
        "held up",
        "tight",
        "shuffled",
        "stym",
        "climbed",
        "altered course",
    ]
}

/// Words that tell of a bump or a brush.
pub open spec fn bump_words() -> Seq<&'static str> {
    seq!["bumped", "brush", "clipped heels", "roughed"]
}

/// Words that tell of a horse used up by the pace.
pub open spec fn pace_pressure_words() -> Seq<&'static str> {
    seq!["rushed", "used", "dueled", "pressed", "pulled strongly", "hard chase"]
}

/// Phrases that tell of a horse that never took part.
pub open spec fn noncompetitive_words() -> Seq<&'static str> {
    seq!["no factor", "no threat", "never involved"]
}

/// Words that tell of a horse that did not finish.
pub open spec fn dnf_words() -> Seq<&'static str> {
    seq!["pulled up", "unseated"]
}

/// Phrases that tell of a horse that stopped.
pub open spec fn stopped_words() -> Seq<&'static str> {
    seq!["stopped", "jogged in", "was finished", "gave way", "done early"]
}

/// The signals that `text` shows: each keyword rule looks for its words in
/// the lower-case form of the text.
pub open spec fn signals_of(text: Seq<char>) -> TripSignals {
    let t = lowercased(text);
    TripSignals {
        start_trouble: has_any_substring(t, start_trouble_words()),
        start_contact: has_any_substring(t, start_contact_words()),
        traffic: has_any_substring(t, traffic_words()),
        bump: has_any_substring(t, bump_words()),
        widest_path: widest_path(text),
        pace_pressure: has_any_substring(t, pace_pressure_words()),
        noncompetitive: has_any_substring(t, noncompetitive_words()),
        dnf_like: has_any_substring(t, dnf_words()),
    }
}

/// `points` where the rule fired.
pub open spec fn when(fired: bool, points: int) -> int {
    if fired {
        points
    } else {
        0
    }
}

/// Points for racing wide: 0.65 for each path beyond the second, from the
/// third path on.
pub open spec fn wide_points(path: Option<u32>) -> int {
    match path {
        Some(p) if p >= 3 => (p - 2) * 650_000,
        _ => 0,
    }
}

/// The sum of the points of all rules that fired, before the floor.
pub open spec fn rule_points(sig: TripSignals) -> int {
    when(sig.start_trouble, 1_600_000) + when(sig.start_contact, 1_300_000) + when(
        sig.traffic,
        2_600_000,
    ) + when(sig.bump, 1_400_000) + wide_points(sig.widest_path) + when(
        sig.pace_pressure,
        900_000,
    ) - when(sig.noncompetitive, 800_000)
}

/// The raw trouble score: the points of the rules, floored at 0.
pub open spec fn raw_points(sig: TripSignals) -> int {
    if rule_points(sig) < 0 {
        0
    } else {
        rule_points(sig)
    }
}

/// `tag` where the rule fired, nothing where it did not.
pub open spec fn tag_when(fired: bool, tag: Seq<char>) -> Seq<Seq<char>> {
    if fired {
        seq![tag]
    } else {
        Seq::empty()
    }
}

/// The tag of the wide-path rule.
pub open spec fn wide_tag(path: Option<u32>) -> Seq<Seq<char>> {
    match path {
        Some(p) if p >= 3 => seq!["wide_"@ + decimal_text(p as nat) + "w"@],
        _ => Seq::empty(),
    }
}

/// The tags of the rules that fired, in the order of the rules.
pub open spec fn rule_tags(sig: TripSignals) -> Seq<Seq<char>> {
    tag_when(sig.start_trouble, "start_trouble"@) + tag_when(sig.start_contact, "start_contact"@)
        + tag_when(sig.traffic, "traffic/interference"@) + tag_when(sig.bump, "bump/brush"@)
        + wide_tag(sig.widest_path) + tag_when(sig.pace_pressure, "used/pace_pressure"@)
        + tag_when(sig.noncompetitive, "noncompetitive_phrase"@) + tag_when(
        sig.dnf_like,
        "dnf_like"@,
    )
}

/// The headline: the path where it is the fourth or wider, else traffic,
/// else a bad start, else a plain trip.
pub open spec fn headline_of(sig: TripSignals) -> Seq<char> {
    match sig.widest_path {
        Some(p) if p >= 4 => decimal_text(p as nat) + "w"@,
        _ => if sig.traffic {
            "traffic"@
        } else if sig.start_trouble {
            "bad start"@
        } else {
            "trip"@
        },
    }
}

/// The score that the signals earn, not yet adjusted.
pub open spec fn scored(sig: TripSignals) -> TripScoreView {
    TripScoreView {
        raw: raw_points(sig),
        adj: 0,
        headline: headline_of(sig),
        why: rule_tags(sig),
    }
}

/// Reads the signals off a trip comment.
pub fn detect_trip_signals(text: &str) -> (r: TripSignals)
    ensures
        r == signals_of(text@),
{
    let start_trouble = ["stumbled", "bobbled", "off slow", "slow start", "hesitated", "hit gate"];
    let start_contact = ["broke in", "broke out", "ducked", "pinched", "squeezed", "crowded"];
    let traffic = [
        "checked",
        "steady",
        "steadied",
        "blocked",
        "held up",
        "tight",
        "shuffled",
        "stym",
        "climbed",
        "altered course",
    ];
    let bump = ["bumped", "brush", "clipped heels", "roughed"];
    let pace_pressure = ["rushed", "used", "dueled", "pressed", "pulled strongly", "hard chase"];
    let noncompetitive = ["no factor", "no threat", "never involved"];
    let dnf = ["pulled up", "unseated"];
    proof {
        assert(start_trouble@ =~= start_trouble_words());
        assert(start_contact@ =~= start_contact_words());
        assert(traffic@ =~= traffic_words());
        assert(bump@ =~= bump_words());
        assert(pace_pressure@ =~= pace_pressure_words());
        assert(noncompetitive@ =~= noncompetitive_words());
        assert(dnf@ =~= dnf_words());
    }
    TripSignals {
        start_trouble: contains_any(text, &start_trouble),
        start_contact: contains_any(text, &start_contact),
        traffic: contains_any(text, &traffic),
        bump: contains_any(text, &bump),
        widest_path: max_path_from_text(text),
        pace_pressure: contains_any(text, &pace_pressure),
        noncompetitive: contains_any(text, &noncompetitive),
        dnf_like: contains_any(text, &dnf),
    }
}

fn push_tag(why: &mut Vec<String>, fired: bool, tag: &str)
    ensures
        final(why).deep_view() == old(why).deep_view() + tag_when(fired, tag@),
{
    if fired {
        why.push(String::from_str(tag));
        assert(why.deep_view() =~= old(why).deep_view() + tag_when(fired, tag@));
    } else {
        assert(why.deep_view() =~= old(why).deep_view() + tag_when(fired, tag@));
    }
}

fn path_label(prefix: &str, path: u32) -> (r: String)
    ensures
        r@ == prefix@ + decimal_text(path as nat) + "w"@,
{
    let mut label = String::from_str(prefix);
    let digits = decimal_string(path as u128);
    label.append(digits.as_str());
    label.append("w");
    label
}

fn push_wide_tag(why: &mut Vec<String>, path: Option<u32>)
    ensures
        final(why).deep_view() == old(why).deep_view() + wide_tag(path),
{
    let wide: u32 = match path {
        Some(p) => p,
        None => 0,
    };
    if wide >= 3 {
        let label = path_label("wide_", wide);
        why.push(label);
        assert(why.deep_view() =~= old(why).deep_view() + seq![label@]);
    } else {
        assert(why.deep_view() =~= old(why).deep_view() + Seq::<Seq<char>>::empty());
    }
}

fn points_of(sig: &TripSignals) -> (r: i64)
    ensures
        r == raw_points(*sig),
        0 <= r <= max_raw_score(),
{
    let mut points: i64 = 0;
    if sig.start_trouble {
        points += 1_600_000;
    }
    if sig.start_contact {
        points += 1_300_000;
    }
    if sig.traffic {
        points += 2_600_000;
    }
    if sig.bump {
        points += 1_400_000;
    }
    match sig.widest_path {
        Some(p) if p >= 3 => {
            points += (p as i64 - 2) * 650_000;
        },
        _ => {},
    }
    if sig.pace_pressure {
        points += 900_000;
    }
    if sig.noncompetitive {
        points -= 800_000;
    }
    if points < 0 {
        0
    } else {
        points
    }
}

fn tags_of(sig: &TripSignals) -> (why: Vec<String>)
    ensures
        why.deep_view() == rule_tags(*sig),
{
    let mut why: Vec<String> = Vec::new();
    push_tag(&mut why, sig.start_trouble, "start_trouble");
    assert(why.deep_view() =~= tag_when(sig.start_trouble, "start_trouble"@));
    push_tag(&mut why, sig.start_contact, "start_contact");
    push_tag(&mut why, sig.traffic, "traffic/interference");
    push_tag(&mut why, sig.bump, "bump/brush");
    push_wide_tag(&mut why, sig.widest_path);
    push_tag(&mut why, sig.pace_pressure, "used/pace_pressure");
    push_tag(&mut why, sig.noncompetitive, "noncompetitive_phrase");
    push_tag(&mut why, sig.dnf_like, "dnf_like");
    why
}

fn headline_for(sig: &TripSignals) -> (r: String)
    ensures
        r@ == headline_of(*sig),
{
    match sig.widest_path {
        Some(p) if p >= 4 => {
            proof {
                reveal_strlit("");
                assert(""@ + decimal_text(p as nat) =~= decimal_text(p as nat));
            }
            path_label("", p)
        },
        _ => if sig.traffic {
            String::from_str("traffic")
        } else if sig.start_trouble {
            String::from_str("bad start")
        } else {
            String::from_str("trip")
        },
    }
}

/// Scores the signals of a trip comment.
pub fn score_trip_signals(sig: &TripSignals) -> (r: TripScore)
    ensures
        r@ == scored(*sig),
        r@.is_valid(),
{
    TripScore { raw: points_of(sig), adj: 0, headline: headline_for(sig), why: tags_of(sig) }
}

/// Scores the trouble that a trip comment tells of.
pub fn raw_trip_score(text: &str) -> (r: TripScore)
    ensures
        r@ == scored(signals_of(text@)),
        r@.is_valid(),
{
    let sig = detect_trip_signals(text);
    score_trip_signals(&sig)
}

/// The lengths a horse was beaten by, in millionths: its own margin at the
/// finish where that is positive, else its margin behind the leader where
/// that is positive, else 99 lengths.
pub open spec fn beaten_lengths(pp: PastPerformanceView) -> int {
    match pp.finish_between_lengths {
        Some(own) if own > 0 => own,
        _ => match pp.finish_between_lengths_leader {
            Some(behind) if behind > 0 => behind,
            _ => 99_000_000,
        },
    }
}

/// The finish was within three lengths.
pub open spec fn close_finish(pp: PastPerformanceView) -> bool {
    beaten_lengths(pp) <= 3_000_000
}

/// The finish was within six lengths, though not within three.
pub open spec fn mid_finish(pp: PastPerformanceView) -> bool {
    3_000_000 < beaten_lengths(pp) <= 6_000_000
}

/// The horse was beaten by fifteen lengths or more.
pub open spec fn big_defeat(pp: PastPerformanceView) -> bool {
    beaten_lengths(pp) >= 15_000_000
}

/// The comment says that the horse stopped, and it was beaten by ten
/// lengths or more.
pub open spec fn stopped(pp: PastPerformanceView) -> bool {
    has_any_substring(
        lowercased(merged_text(pp.extended_start_comment, pp.trip_comment)),
        stopped_words(),
    ) && beaten_lengths(pp) >= 10_000_000
}

/// The horse ran a fast first quarter and a slow finish.
pub open spec fn fast_early(pp: PastPerformanceView) -> bool {
    match (pp.bris_2f_pace, pp.bris_late_pace) {
        (Some(early), Some(late)) => early >= 85 && 0 < late <= 70,
        _ => false,
    }
}

/// What the context of the race adds to the raw score, or takes from it.
pub open spec fn context_points(pp: PastPerformanceView) -> int {
    when(close_finish(pp), 1_200_000) + when(mid_finish(pp), 600_000) - when(
        big_defeat(pp),
        1_100_000,
    ) - when(stopped(pp), 1_200_000) + when(fast_early(pp), 400_000)
}

/// The tags of the context rules that fired, in the order of the rules.
pub open spec fn context_tags(pp: PastPerformanceView) -> Seq<Seq<char>> {
    tag_when(close_finish(pp), "close_finish_bonus"@) + tag_when(
        mid_finish(pp),
        "mid_finish_bonus"@,
    ) + tag_when(big_defeat(pp), "big_defeat_clip"@) + tag_when(stopped(pp), "stopped_clip"@)
        + tag_when(fast_early(pp), "fast_early_context"@)
}

/// The adjusted score: the raw score and the context points, floored at 0.
pub open spec fn adjusted_points(raw: int, pp: PastPerformanceView) -> int {
    if raw + context_points(pp) < 0 {
        0
    } else {
        raw + context_points(pp)
    }
}

/// A trip score after its adjustment by the context of the race.
pub open spec fn adjusted(ts: TripScoreView, pp: PastPerformanceView) -> TripScoreView {
    TripScoreView {
        raw: ts.raw,
        adj: adjusted_points(ts.raw, pp),
        headline: ts.headline,
        why: ts.why + context_tags(pp),
    }
}

/// Neither score is ever negative: not the raw score of any signals, nor
/// the adjusted score of any past race, whatever raw score it starts from.
pub proof fn lemma_scores_are_not_negative(sig: TripSignals, ts: TripScoreView, pp: PastPerformanceView)
    ensures
        scored(sig).raw >= 0,
        scored(sig).adj >= 0,
        adjusted(ts, pp).adj >= 0,
        adjusted(scored(sig), pp).raw >= 0,
{
}

fn beaten(pp: &PastPerformance) -> (r: i64)
    ensures
        r == beaten_lengths(pp@),
{
    match pp.finish_between_lengths {
        Some(own) if own > 0 => own,
        _ => match pp.finish_between_lengths_leader {
            Some(behind) if behind > 0 => behind,
            _ => 99_000_000,
        },
    }
}

/// Adjusts a raw trip score by the margin of defeat and the pace of the race.
pub fn apply_context_adjust(ts: TripScore, pp: &PastPerformance) -> (r: TripScore)
    requires
        ts@.is_valid(),
    ensures
        r@ == adjusted(ts@, pp@),
        r@.is_valid(),
{
    let TripScore { raw, adj: _, headline, why } = ts;
    let mut why = why;
    let ghost before = why.deep_view();
    let mut adj: i64 = raw;
    let lengths = beaten(pp);
    let close = lengths <= 3_000_000;
    let mid = !close && lengths <= 6_000_000;
    let big = lengths >= 15_000_000;
    if close {
        adj += 1_200_000;
    } else if mid {
        adj += 600_000;
    } else if big {
        adj -= 1_100_000;
    }
    push_tag(&mut why, close, "close_finish_bonus");
    push_tag(&mut why, mid, "mid_finish_bonus");
    push_tag(&mut why, big, "big_defeat_clip");
    let stop_words = ["stopped", "jogged in", "was finished", "gave way", "done early"];
    assert(stop_words@ =~= stopped_words());
    let text = merged_trip_text(pp);
    let gave_up = contains_any(text.as_str(), &stop_words) && lengths >= 10_000_000;
    if gave_up {
        adj -= 1_200_000;
    }
    push_tag(&mut why, gave_up, "stopped_clip");
    let early = match (pp.bris_2f_pace, pp.bris_late_pace) {
        (Some(p2), Some(lp)) => p2 >= 85 && lp > 0 && lp <= 70,
        _ => false,
    };
    if early {
        adj += 400_000;
    }
    push_tag(&mut why, early, "fast_early_context");
    assert(why.deep_view() =~= before + context_tags(pp@));
    TripScore { raw, adj: if adj < 0 { 0 } else { adj }, headline, why }
}

} // verus!
