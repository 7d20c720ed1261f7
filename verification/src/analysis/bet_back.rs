//! The choice of the past race of a horse that is most worth betting back.

use crate::analysis::trip_score::{
    adjusted,
    apply_context_adjust,
    raw_trip_score,
    scored,
    signals_of,
};
use crate::analysis::trip_text::{merged_text, merged_trip_text};
use crate::models::racecard::{furlongs, opt_i32, Horse, PastPerformance, PastPerformanceView};
use crate::models::trip_handicapping::{BetBackPick, BetBackPickView, TripScoreView};
use crate::text::{trim, trimmed};
use vstd::prelude::*;

verus! {

/// Turns a distance in yards into furlongs.
pub fn dist_to_furlongs(distance_yards: Option<i32>) -> (r: i64)
    ensures
        r == furlongs(opt_i32(distance_yards)),
{
    match distance_yards {
        Some(y) if y > 0 => (y as i64) * 1_000_000 / 220,
        _ => 0,
    }
}

/// The merged trip comment of a past race.
pub open spec fn trip_text(pp: PastPerformanceView) -> Seq<char> {
    merged_text(pp.extended_start_comment, pp.trip_comment)
}

/// The past race has a trip comment to score.
pub open spec fn has_trip_text(pp: PastPerformanceView) -> bool {
    trimmed(trip_text(pp)).len() > 0
}

/// The adjusted trip score of a past race.
pub open spec fn trip_score_of(pp: PastPerformanceView) -> TripScoreView {
    adjusted(scored(signals_of(trip_text(pp))), pp)
}

/// The pick that the past race at position `i` makes.
pub open spec fn pick_at(pps: Seq<PastPerformanceView>, i: int) -> BetBackPickView {
    BetBackPickView {
        pp_index: i,
        score: trip_score_of(pps[i]),
        surface: pps[i].surface,
        dist_f: furlongs(pps[i].distance),
        date: pps[i].race_date,
        track: pps[i].track_code,
        adj_points: trip_score_of(pps[i]).adj * 3 / 2,
    }
}

/// The position of the best race among the first `n`: a race with a trip
/// comment replaces the best so far only where its adjusted score is
/// strictly greater.
pub open spec fn best_index(pps: Seq<PastPerformanceView>, n: int) -> Option<int>
    decreases n,
{
    if n <= 0 {
        None
    } else {
        let before = best_index(pps, n - 1);
        if has_trip_text(pps[n - 1]) && (before.is_none() || trip_score_of(pps[n - 1]).adj
            > trip_score_of(pps[before.unwrap()]).adj) {
            Some(n - 1)
        } else {
            before
        }
    }
}

/// The pick among all past races; `None` where none has a trip comment.
pub open spec fn best_pick(pps: Seq<PastPerformanceView>) -> Option<BetBackPickView> {
    match best_index(pps, pps.len() as int) {
        Some(i) => Some(pick_at(pps, i)),
        None => None,
    }
}

/// The mathematical content of an optional pick.
pub open spec fn pick_view(pick: Option<BetBackPick>) -> Option<BetBackPickView> {
    match pick {
        Some(p) => Some(p@),
        None => None,
    }
}

/// The chosen race has a trip comment; no race with a trip comment has a
/// greater adjusted score, and none before it has an equal one. No race is
/// chosen exactly when none has a trip comment.
pub proof fn lemma_best_index_is_first_greatest(pps: Seq<PastPerformanceView>, n: int)
    requires
        0 <= n <= pps.len(),
    ensures
        match best_index(pps, n) {
            Some(i) => {
                &&& 0 <= i < n
                &&& has_trip_text(pps[i])
                &&& forall|j: int|
                    0 <= j < n && has_trip_text(#[trigger] pps[j]) ==> trip_score_of(pps[j]).adj
                        <= trip_score_of(pps[i]).adj
                &&& forall|j: int|
                    0 <= j < i && has_trip_text(#[trigger] pps[j]) ==> trip_score_of(pps[j]).adj
                        < trip_score_of(pps[i]).adj
            },
            None => forall|j: int| 0 <= j < n ==> !has_trip_text(#[trigger] pps[j]),
        },
    decreases n,
{
    if n > 0 {
        lemma_best_index_is_first_greatest(pps, n - 1);
    }
}

/// Picks the past race of a horse with the greatest adjusted trip score,
/// the earliest among equals.
pub fn best_bet_back_line(horse: &Horse) -> (r: Option<BetBackPick>)
    ensures
        pick_view(r) == best_pick(horse@.past_performances),
{
    let ghost pps = horse@.past_performances;
    let mut best: Option<BetBackPick> = None;
    let mut i: usize = 0;
    while i < horse.past_performances.len()
        invariant
            i <= horse.past_performances.len(),
            pps == horse@.past_performances,
            pps.len() == horse.past_performances.len(),
            match best_index(pps, i as int) {
                Some(k) => 0 <= k < i && pick_view(best) == Some(pick_at(pps, k)),
                None => best.is_none(),
            },
        decreases horse.past_performances.len() - i,
    {
        let pp: &PastPerformance = &horse.past_performances[i];
        assert(pp@ == pps[i as int]);
        let text = merged_trip_text(pp);
        if !trim(text.as_str()).is_empty() {
            let raw = raw_trip_score(text.as_str());
            let scored = apply_context_adjust(raw, pp);
            let better = match &best {
                Some(b) => scored.adj > b.score.adj,
                None => true,
            };
            if better {
                let adj_points: i64 = scored.adj * 3 / 2;
                best = Some(
                    BetBackPick {
                        pp_index: i,
                        score: scored,
                        surface: pp.surface.clone(),
                        dist_f: dist_to_furlongs(pp.distance),
                        date: pp.race_date.clone(),
                        track: pp.track_code.clone(),
                        adj_points,
                    },
                );
            }
        }
        i += 1;
    }
    best
}

} // verus!
