//! The report on a race: its ranking, and what the scores of the horses
//! that run say of it.

use crate::models::racecard::{Horse, Race, RaceView};
use crate::pace_model::advice::{
    classify_scores,
    confidence_of,
    options_or_default,
    suggestion_for,
    win_bet_suggestion,
};
use crate::pace_model::rank::{
    has_score,
    lemma_ranked_keeps_range,
    lemma_ranked_scored_have_scores,
    mode_of,
    rank_race_auto,
    ranked_scored,
    ranking,
    score_values,
    scores_in_range,
    sorted_scores,
    sorted_scores_of,
};
use crate::pace_model::score::is_score;
use crate::pace_model::types::{
    row_views,
    HorseRank,
    HorseRankView,
    RaceMeta,
    RaceMetaView,
    RaceRankResult,
};
use crate::pace_model::workout::opt_text;
use crate::seq_lemmas::{lemma_filter_none, lemma_filter_step};
use crate::text::same_text;
use vstd::prelude::*;

verus! {

/// A scratched horse of the race carries the program number.
pub open spec fn is_scratched_number(race: RaceView, number: Seq<char>) -> bool {
    exists|i: int|
        0 <= i < race.horses.len() && (#[trigger] race.horses[i]).scratched
            && race.horses[i].program_number == number
}

/// The horse of a row runs: no scratched horse carries its program number.
pub open spec fn runs_in(race: RaceView) -> spec_fn(HorseRankView) -> bool {
    |row: HorseRankView| !is_scratched_number(race, row.program_number)
}

/// The score at a position, where there is one.
pub open spec fn score_at(scores: Seq<int>, position: int) -> Option<int> {
    if 0 <= position < scores.len() {
        Some(scores[position])
    } else {
        None
    }
}

/// The score at the first position less the one at position `other`,
/// where both are there.
pub open spec fn lead_over(scores: Seq<int>, other: int) -> Option<int> {
    if 0 < other < scores.len() {
        Some(scores[0] - scores[other])
    } else {
        None
    }
}

/// The report on a race: the ranking of all its horses on the surface that
/// the race names, and the two best scores, their gap, the spread down to
/// the fourth score, the confidence and the suggestion, all of these from
/// the rows of the horses that run.
pub open spec fn race_meta(race: RaceView, date: Option<Seq<char>>) -> RaceMetaView {
    let result = ranking(race, mode_of(race), date);
    let running = result.horses.filter(runs_in(race));
    let scores = sorted_scores_of(running);
    RaceMetaView {
        race_number: result.race_number,
        shape: result.shape,
        epi: result.epi,
        top_score: score_at(scores, 0),
        second_score: score_at(scores, 1),
        gap_1_2: lead_over(scores, 1),
        spread_top_to_4: lead_over(scores, 3),
        confidence: confidence_of(scores),
        win_bet: suggestion_for(running, options_or_default(None)),
        race_rank_result: result,
    }
}

/// Reporting is repeatable: two reports that were made of the same race
/// and date, each as `derive_race_meta` makes them, have the same content.
pub proof fn lemma_report_is_repeatable(
    race: Race,
    racecard_date: Option<&str>,
    first: RaceMeta,
    second: RaceMeta,
)
    requires
        first@ == race_meta(race@, opt_text(racecard_date)),
        second@ == race_meta(race@, opt_text(racecard_date)),
    ensures
        first@ == second@,
{
}

/// Rows picked from rows with scores in range have scores in range.
pub proof fn lemma_filter_keeps_range(rows: Seq<HorseRankView>, pred: spec_fn(HorseRankView) -> bool)
    requires
        scores_in_range(rows),
    ensures
        scores_in_range(rows.filter(pred)),
{
    let picked = rows.filter(pred);
    assert forall|k: int| 0 <= k < picked.len() implies is_score((#[trigger] picked[k]).score) by {
        assert(picked.contains(picked[k]));
        rows.lemma_filter_contains_rev(pred, picked[k]);
        let j = choose|j: int| 0 <= j < rows.len() && rows[j] == picked[k];
        assert(is_score(rows[j].score));
    }
}

fn has_scratched_number(race: &Race, number: &str) -> (r: bool)
    ensures
        r == is_scratched_number(race@, number@),
{
    let mut i: usize = 0;
    while i < race.horses.len()
        invariant
            i <= race.horses@.len(),
            forall|k: int|
                0 <= k < i ==> !((#[trigger] race@.horses[k]).scratched
                    && race@.horses[k].program_number == number@),
        decreases race.horses@.len() - i,
    {
        let h: &Horse = &race.horses[i];
        assert(h@ == race@.horses[i as int]);
        if h.scratched && same_text(h.program_number.as_str(), number) {
            return true;
        }
        i += 1;
    }
    false
}

fn running_rows(race: &Race, rows: &Vec<HorseRank>) -> (r: Vec<HorseRank>)
    ensures
        row_views(r@) == row_views(rows@).filter(runs_in(race@)),
{
    let ghost all = row_views(rows@);
    let mut out: Vec<HorseRank> = Vec::new();
    let mut i: usize = 0;
    proof {
        lemma_filter_none(all, runs_in(race@));
        assert(row_views(out@) =~= all.take(0).filter(runs_in(race@)));
    }
    while i < rows.len()
        invariant
            i <= rows@.len(),
            all == row_views(rows@),
            row_views(out@) == all.take(i as int).filter(runs_in(race@)),
        decreases rows@.len() - i,
    {
        let row: &HorseRank = &rows[i];
        let ghost before = row_views(out@);
        proof {
            lemma_filter_step(all, runs_in(race@), i as int);
            assert(all[i as int] == row@);
        }
        if !has_scratched_number(race, row.program_number.as_str()) {
            out.push(row.copy_of());
            assert(row_views(out@) =~= before.push(row@));
        }
        i += 1;
    }
    assert(all.take(i as int) =~= all);
    out
}

/// Reports on a race: ranks its horses, and reads the scores of those that
/// run.
pub fn derive_race_meta(race: &Race, racecard_date: Option<&str>) -> (r: RaceMeta)
    ensures
        r@ == race_meta(race@, opt_text(racecard_date)),
        0 <= r@.epi <= 1_000_000,
{
    let race_rank_result = rank_race_auto(race, racecard_date);
    let calc = RaceRankResult {
        race_number: race_rank_result.race_number,
        surface_mode: race_rank_result.surface_mode,
        distance_f: race_rank_result.distance_f,
        shape: race_rank_result.shape,
        pace_heat: race_rank_result.pace_heat,
        epi: race_rank_result.epi,
        horses: running_rows(race, &race_rank_result.horses),
    };
    let ghost running = race_rank_result@.horses.filter(runs_in(race@));
    assert(calc@.horses == running);
    let scores = sorted_scores(&calc);
    let ghost sorted = sorted_scores_of(running);
    proof {
        lemma_filter_keeps_range(race_rank_result@.horses, runs_in(race@));
        lemma_filter_keeps_range(running, has_score());
        lemma_ranked_keeps_range(running.filter(has_score()));
        lemma_ranked_scored_have_scores(running);
        assert forall|p: int| 0 <= p < scores@.len() implies -1_000_000_000_000_000_000
            <= #[trigger] scores@[p] <= 1_000_000_000_000_000_000 by {
            assert(score_values(scores@)[p] == scores@[p]);
            assert(is_score(ranked_scored(running)[p].score));
        }
    }
    let n: usize = scores.len();
    let top_score = if n >= 1 {
        Some(scores[0])
    } else {
        None
    };
    let second_score = if n >= 2 {
        Some(scores[1])
    } else {
        None
    };
    let gap_1_2 = if n >= 2 {
        Some(scores[0] - scores[1])
    } else {
        None
    };
    let spread_top_to_4 = if n >= 4 {
        Some(scores[0] - scores[3])
    } else {
        None
    };
    proof {
        assert(forall|p: int| 0 <= p < n ==> score_values(scores@)[p] == #[trigger] scores@[p]);
    }
    let confidence = classify_scores(&scores);
    let win_bet = win_bet_suggestion(&calc, None);
    RaceMeta {
        race_number: race_rank_result.race_number,
        shape: race_rank_result.shape,
        epi: race_rank_result.epi,
        top_score,
        second_score,
        gap_1_2,
        spread_top_to_4,
        confidence,
        win_bet,
        race_rank_result,
    }
}

} // verus!
