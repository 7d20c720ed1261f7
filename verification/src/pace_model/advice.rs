//! What a ranking says of a race: how clearly one horse stands out, and
//! whether it is worth a bet to win.

use crate::fixed_point::{format_two_decimals, two_decimals};
use crate::pace_model::rank::{
    lemma_ranked_scored_have_scores,
    ranked_scored,
    score_values,
    sorted_scores,
    sorted_scores_of,
    top_n_horses_by_score,
    top_rows,
};
use crate::pace_model::types::{
    row_views,
    suggestion_view,
    Confidence,
    HorseRankView,
    RaceRankResult,
    WinBetOptions,
    WinBetSuggestion,
    WinBetSuggestionView,
};
use vstd::prelude::*;
use vstd::string::StringExecFns;

verus! {

/// The confidence that scores give, the scores taken best first. Fewer
/// than two scores say nothing. The gap is the best score less the second;
/// the spread, where there are four scores, the best less the fourth.
pub open spec fn confidence_of(scores: Seq<int>) -> Confidence {
    if scores.len() < 2 {
        Confidence::Unscorable
    } else {
        let gap = scores[0] - scores[1];
        let has_spread = scores.len() >= 4;
        let spread = if has_spread {
            scores[0] - scores[3]
        } else {
            0
        };
        if gap >= 2_000_000 && spread >= 3_000_000 {
            Confidence::StrongSingle
        } else if gap >= 1_500_000 {
            Confidence::Playable
        } else if gap >= 500_000 || (has_spread && spread >= 1_500_000) {
            Confidence::Competitive
        } else {
            Confidence::WideOpen
        }
    }
}

/// Classifies scores that stand best first.
pub fn classify_scores(scores: &Vec<i64>) -> (r: Confidence)
    ensures
        r == confidence_of(score_values(scores@)),
        scores@.len() < 2 <==> r == Confidence::Unscorable,
{
    if scores.len() < 2 {
        return Confidence::Unscorable;
    }
    let gap: i128 = scores[0] as i128 - scores[1] as i128;
    let has_spread = scores.len() >= 4;
    let spread: i128 = if has_spread {
        scores[0] as i128 - scores[3] as i128
    } else {
        0
    };
    if gap >= 2_000_000 && spread >= 3_000_000 {
        Confidence::StrongSingle
    } else if gap >= 1_500_000 {
        Confidence::Playable
    } else if gap >= 500_000 || (has_spread && spread >= 1_500_000) {
        Confidence::Competitive
    } else {
        Confidence::WideOpen
    }
}

/// Classifies a race by the scores of its ranking.
pub fn classify_race(race: &RaceRankResult) -> (r: Confidence)
    ensures
        r == confidence_of(sorted_scores_of(race@.horses)),
        sorted_scores_of(race@.horses).len() < 2 <==> r == Confidence::Unscorable,
{
    let scores = sorted_scores(race);
    classify_scores(&scores)
}

/// The options given, else the usual ones: a top score of two points and a
/// gap of one and a half.
pub open spec fn options_or_default(opts: Option<WinBetOptions>) -> WinBetOptions {
    match opts {
        Some(o) => o,
        None => WinBetOptions { min_top_score: 2_000_000, min_gap: 1_500_000 },
    }
}

/// The reason that goes with a suggestion.
pub open spec fn reason_text(top: int, gap: int) -> Seq<char> {
    "Top score "@ + two_decimals(top) + " with strong separation (gap "@ + two_decimals(gap)
        + ")."@
}

/// The best horse is worth a bet to win: at least two horses have a score,
/// the best score is `min_top_score` or more, and it leads the second by
/// `min_gap` or more.
pub open spec fn worth_a_bet(rows: Seq<HorseRankView>, opts: WinBetOptions) -> bool {
    let best = ranked_scored(rows);
    best.len() >= 2 && best[0].score.unwrap() >= opts.min_top_score && best[0].score.unwrap()
        - best[1].score.unwrap() >= opts.min_gap
}

/// The suggestion that a ranking gives: the best horse where it is worth a
/// bet, else none.
pub open spec fn suggestion_for(rows: Seq<HorseRankView>, opts: WinBetOptions) -> Option<
    WinBetSuggestionView,
> {
    let best = ranked_scored(rows);
    if worth_a_bet(rows, opts) {
        Some(
            WinBetSuggestionView {
                program_number: best[0].program_number,
                horse_name: best[0].horse_name,
                min_odds: None,
                reason: reason_text(
                    best[0].score.unwrap(),
                    best[0].score.unwrap() - best[1].score.unwrap(),
                ),
            },
        )
    } else {
        None
    }
}

fn reason(top: i64, gap: i128) -> (r: String)
    ensures
        r@ == reason_text(top as int, gap as int),
{
    let mut out = String::from_str("Top score ");
    let top_text = format_two_decimals(top as i128);
    out.append(top_text.as_str());
    out.append(" with strong separation (gap ");
    let gap_text = format_two_decimals(gap);
    out.append(gap_text.as_str());
    out.append(").");
    out
}

/// Suggests a bet to win on the best horse of a ranking where it stands
/// out enough.
pub fn win_bet_suggestion(race: &RaceRankResult, opts: Option<WinBetOptions>) -> (r: Option<
    WinBetSuggestion,
>)
    ensures
        suggestion_view(r) == suggestion_for(race@.horses, options_or_default(opts)),
{
    let opts = match opts {
        Some(o) => o,
        None => WinBetOptions::default(),
    };
    let top2 = top_n_horses_by_score(race, 2);
    let ghost best = ranked_scored(race@.horses);
    proof {
        lemma_ranked_scored_have_scores(race@.horses);
        assert(row_views(top2@).len() == top2@.len());
        assert(top_rows(race@.horses, 2).len() == if 2 < best.len() {
            2
        } else {
            best.len() as int
        });
    }
    if top2.len() < 2 {
        return None;
    }
    let top = &top2[0];
    let second = &top2[1];
    proof {
        assert(row_views(top2@)[0] == top2@[0]@);
        assert(row_views(top2@)[1] == top2@[1]@);
        assert(top_rows(race@.horses, 2)[0] == best[0]);
        assert(top_rows(race@.horses, 2)[1] == best[1]);
    }
    let (top_score, second_score) = match (top.score, second.score) {
        (Some(a), Some(b)) => (a, b),
        _ => {
            return None;
        },
    };
    let gap: i128 = top_score as i128 - second_score as i128;
    if top_score >= opts.min_top_score && gap >= opts.min_gap as i128 {
        Some(
            WinBetSuggestion {
                program_number: top.program_number.clone(),
                horse_name: top.horse_name.clone(),
                min_odds: None,
                reason: reason(top_score, gap),
            },
        )
    } else {
        None
    }
}

} // verus!
