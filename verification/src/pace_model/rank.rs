//! The ranking of a race: one row for each horse, best score first.

use crate::models::racecard::{furlongs, opt_i64, Horse, HorseView, Race, RaceView};
use crate::pace_model::figures::{parse_run_style, run_style_of, yards_to_furlongs};
use crate::pace_model::order::{
    is_ranking,
    key_values,
    lemma_rank_order_is_ranking,
    order_by_score,
    outranks,
    positions,
    rank_order,
};
use crate::pace_model::score::{horse_score, is_score, score_horse, scored_figs};
use crate::pace_model::shape::{early_pace_index, pace_heat, race_shape, shape_of};
use crate::pace_model::types::{
    row_views,
    HorseRank,
    HorseRankView,
    RaceRankResult,
    RaceRankResultView,
    Shape,
    SurfaceMode,
};
use crate::pace_model::workout::{opt_text, workout_sig, workout_signal};
use crate::seq_lemmas::{lemma_filter_none, lemma_filter_step};
use crate::text::{same_text, to_uppercase, trim, trimmed, uppercased};
use vstd::prelude::*;

verus! {

/// The days before a race in which a workout counts for the ranking.
pub const WORKOUT_WINDOW: i64 = 21;

/// The row of one horse in the ranking of a race of the given shape.
pub open spec fn row_of(
    h: HorseView,
    race: RaceView,
    mode: SurfaceMode,
    shape: Shape,
    date: Option<Seq<char>>,
) -> HorseRankView {
    HorseRankView {
        program_number: h.program_number,
        horse_name: h.horse_name,
        post_position: h.post_position,
        run_style: run_style_of(h.bris_run_style),
        quirin: h.quirin_speed_points,
        shape: shape,
        score: horse_score(h, race, mode, shape),
        rep: scored_figs(h, race, mode),
        workout: workout_sig(h, date, WORKOUT_WINDOW as int),
    }
}

/// The rows of the horses of a race, in the order of the horses.
pub open spec fn rows_of(race: RaceView, mode: SurfaceMode, date: Option<Seq<char>>) -> Seq<
    HorseRankView,
> {
    Seq::new(
        race.horses.len(),
        |i: int| row_of(race.horses[i], race, mode, shape_of(race, mode), date),
    )
}

/// The scores of rows.
pub open spec fn scores_of(rows: Seq<HorseRankView>) -> Seq<Option<int>> {
    Seq::new(rows.len(), |i: int| rows[i].score)
}

/// Rows in the order of their scores.
pub open spec fn ranked(rows: Seq<HorseRankView>) -> Seq<HorseRankView> {
    let order = rank_order(scores_of(rows));
    Seq::new(order.len(), |p: int| rows[order[p]])
}

/// The ranking of a race on the surface `mode`.
pub open spec fn ranking(race: RaceView, mode: SurfaceMode, date: Option<Seq<char>>)
    -> RaceRankResultView {
    RaceRankResultView {
        race_number: race.race_number,
        surface_mode: mode,
        distance_f: furlongs(race.distance),
        shape: shape_of(race, mode),
        pace_heat: pace_heat(race.horses, mode, race.horses.len() as int),
        epi: early_pace_index(race, mode),
        horses: ranked(rows_of(race, mode, date)),
    }
}

/// The surface that a race is ranked for: turf where its surface code says
/// so, else dirt.
pub open spec fn mode_of(race: RaceView) -> SurfaceMode {
    if uppercased(trimmed(race.surface)) == "T"@ {
        SurfaceMode::Turf
    } else {
        SurfaceMode::Dirt
    }
}

/// Ranked rows are the same rows in another order: as many, and each row
/// of the ranking is one of the rows. No row has a score that outranks the
/// score of a row before it, so absent scores come last.
pub proof fn lemma_ranked_is_sorted(rows: Seq<HorseRankView>)
    ensures
        ranked(rows).len() == rows.len(),
        is_ranking(scores_of(rows), rank_order(scores_of(rows)), rows.len() as int),
        forall|p: int, q: int|
            #![trigger ranked(rows)[p], ranked(rows)[q]]
            0 <= p < q < rows.len() ==> !outranks(ranked(rows)[q].score, ranked(rows)[p].score),
        forall|p: int, q: int|
            #![trigger ranked(rows)[p], ranked(rows)[q]]
            0 <= p < q < rows.len() && ranked(rows)[p].score.is_none() ==> ranked(
                rows,
            )[q].score.is_none(),
{
    let keys = scores_of(rows);
    lemma_rank_order_is_ranking(keys, keys.len() as int);
    let order = rank_order(keys);
    assert forall|p: int, q: int|
        #![trigger ranked(rows)[p], ranked(rows)[q]]
        0 <= p < q < rows.len() implies !outranks(ranked(rows)[q].score, ranked(rows)[p].score)
        && (ranked(rows)[p].score.is_none() ==> ranked(rows)[q].score.is_none()) by {
        assert(0 <= order[p] < rows.len());
        assert(0 <= order[q] < rows.len());
        assert(!outranks(keys[order[q]], keys[order[p]]));
    }
}

/// Every score of the rows is within the limit.
pub open spec fn scores_in_range(rows: Seq<HorseRankView>) -> bool {
    forall|k: int| 0 <= k < rows.len() ==> is_score((#[trigger] rows[k]).score)
}

/// Ranked rows with scores in range have scores in range.
pub proof fn lemma_ranked_keeps_range(rows: Seq<HorseRankView>)
    requires
        scores_in_range(rows),
    ensures
        scores_in_range(ranked(rows)),
{
    lemma_ranked_is_sorted(rows);
    let order = rank_order(scores_of(rows));
    assert forall|k: int| 0 <= k < ranked(rows).len() implies is_score(
        (#[trigger] ranked(rows)[k]).score,
    ) by {
        assert(0 <= order[k] < rows.len());
        assert(is_score(rows[order[k]].score));
    }
}

/// The mathematical content of a list of borrowed rows.
pub open spec fn ref_views(rows: Seq<&HorseRank>) -> Seq<HorseRankView> {
    Seq::new(rows.len(), |i: int| rows[i]@)
}

/// Puts borrowed rows in the order of their scores.
pub fn rank_rows<'a>(rows: &Vec<&'a HorseRank>) -> (r: Vec<&'a HorseRank>)
    ensures
        ref_views(r@) == ranked(ref_views(rows@)),
{
    let n: usize = rows.len();
    let mut keys: Vec<Option<i64>> = Vec::new();
    let mut i: usize = 0;
    while i < n
        invariant
            i <= n,
            n == rows@.len(),
            keys@.len() == i,
            forall|k: int| 0 <= k < i ==> #[trigger] keys@[k] == rows@[k].score,
        decreases n - i,
    {
        keys.push(rows[i].score);
        i += 1;
    }
    assert(key_values(keys@) =~= scores_of(ref_views(rows@)));
    let order = order_by_score(&keys);
    let mut out: Vec<&HorseRank> = Vec::new();
    let mut p: usize = 0;
    while p < n
        invariant
            p <= n,
            n == rows@.len(),
            order@.len() == n,
            forall|k: int| 0 <= k < n ==> #[trigger] order@[k] < n,
            out@.len() == p,
            forall|k: int| 0 <= k < p ==> #[trigger] out@[k] == rows@[order@[k] as int],
        decreases n - p,
    {
        out.push(rows[order[p]]);
        p += 1;
    }
    proof {
        let want = ranked(ref_views(rows@));
        let ord = rank_order(scores_of(ref_views(rows@)));
        assert(ord == positions(order@));
        assert(ref_views(out@) =~= want) by {
            assert forall|k: int| 0 <= k < n implies ref_views(out@)[k] == want[k] by {
                assert(ord[k] == order@[k] as int);
            }
        }
    }
    out
}

/// Borrows each row of a list.
pub fn borrow_rows(rows: &Vec<HorseRank>) -> (r: Vec<&HorseRank>)
    ensures
        ref_views(r@) == row_views(rows@),
{
    let mut out: Vec<&HorseRank> = Vec::new();
    let mut i: usize = 0;
    while i < rows.len()
        invariant
            i <= rows@.len(),
            out@.len() == i,
            forall|k: int| 0 <= k < i ==> #[trigger] out@[k] == &rows@[k],
        decreases rows@.len() - i,
    {
        out.push(&rows[i]);
        i += 1;
    }
    assert(ref_views(out@) =~= row_views(rows@));
    out
}

/// How many rows are left of `len` when no more than `n` may stay.
pub open spec fn kept(len: int, n: int) -> int {
    if n < len {
        n
    } else {
        len
    }
}

/// Copies the first `n` of a list of borrowed rows, all where there are
/// fewer.
pub fn copy_rows(rows: &Vec<&HorseRank>, n: usize) -> (r: Vec<HorseRank>)
    ensures
        row_views(r@) == ref_views(rows@).take(kept(rows@.len() as int, n as int)),
{
    let m: usize = if n < rows.len() {
        n
    } else {
        rows.len()
    };
    let mut out: Vec<HorseRank> = Vec::new();
    let mut i: usize = 0;
    while i < m
        invariant
            i <= m <= rows@.len(),
            out@.len() == i,
            forall|k: int| 0 <= k < i ==> (#[trigger] out@[k])@ == rows@[k]@,
        decreases m - i,
    {
        out.push(rows[i].copy_of());
        i += 1;
    }
    assert(row_views(out@) =~= ref_views(rows@).take(m as int));
    out
}

fn build_rows(race: &Race, racecard_date: Option<&str>, mode: SurfaceMode, shape: Shape) -> (r:
    Vec<HorseRank>)
    requires
        shape == shape_of(race@, mode),
    ensures
        row_views(r@) == rows_of(race@, mode, opt_text(racecard_date)),
        scores_in_range(row_views(r@)),
{
    let ghost want = rows_of(race@, mode, opt_text(racecard_date));
    let mut rows: Vec<HorseRank> = Vec::new();
    let mut i: usize = 0;
    while i < race.horses.len()
        invariant
            i <= race.horses@.len(),
            shape == shape_of(race@, mode),
            want == rows_of(race@, mode, opt_text(racecard_date)),
            rows@.len() == i,
            forall|k: int| 0 <= k < i ==> (#[trigger] rows@[k])@ == want[k],
            forall|k: int| 0 <= k < i ==> is_score(opt_i64((#[trigger] rows@[k]).score)),
        decreases race.horses@.len() - i,
    {
        let h: &Horse = &race.horses[i];
        assert(h@ == race@.horses[i as int]);
        let run_style = parse_run_style(h.bris_run_style.as_str());
        let (score, rep) = score_horse(h, race, shape, mode);
        let workout = workout_signal(h, racecard_date, WORKOUT_WINDOW);
        rows.push(
            HorseRank {
                program_number: h.program_number.clone(),
                horse_name: h.horse_name.clone(),
                post_position: h.post_position,
                run_style,
                quirin: h.quirin_speed_points,
                shape,
                score,
                rep,
                workout,
            },
        );
        i += 1;
    }
    assert(row_views(rows@) =~= want);
    assert forall|k: int| 0 <= k < row_views(rows@).len() implies is_score(
        (#[trigger] row_views(rows@)[k]).score,
    ) by {
        assert(is_score(opt_i64(rows@[k].score)));
    }
    rows
}

/// Ranks the horses of a race for the surface `mode`.
pub fn rank_race(race: &Race, racecard_date: Option<&str>, mode: SurfaceMode) -> (r:
    RaceRankResult)
    ensures
        r@ == ranking(race@, mode, opt_text(racecard_date)),
        0 <= r@.epi <= 1_000_000,
        scores_in_range(r@.horses),
{
    let dist_f = yards_to_furlongs(race.distance);
    let (shape, pace_heat, epi) = race_shape(race, mode);
    let rows = build_rows(race, racecard_date, mode, shape);
    let borrowed = borrow_rows(&rows);
    let in_order = rank_rows(&borrowed);
    let horses = copy_rows(&in_order, in_order.len());
    assert(ref_views(in_order@).take(in_order@.len() as int) =~= ref_views(in_order@));
    proof {
        lemma_ranked_keeps_range(row_views(rows@));
    }
    RaceRankResult {
        race_number: race.race_number,
        surface_mode: mode,
        distance_f: dist_f,
        shape,
        pace_heat,
        epi,
        horses,
    }
}

/// Ranks the horses of a race on dirt.
pub fn rank_race_dirt(race: &Race, racecard_date: Option<&str>) -> (r: RaceRankResult)
    ensures
        r@ == ranking(race@, SurfaceMode::Dirt, opt_text(racecard_date)),
        0 <= r@.epi <= 1_000_000,
        scores_in_range(r@.horses),
{
    rank_race(race, racecard_date, SurfaceMode::Dirt)
}

/// Ranks the horses of a race on turf.
pub fn rank_race_turf(race: &Race, racecard_date: Option<&str>) -> (r: RaceRankResult)
    ensures
        r@ == ranking(race@, SurfaceMode::Turf, opt_text(racecard_date)),
        0 <= r@.epi <= 1_000_000,
        scores_in_range(r@.horses),
{
    rank_race(race, racecard_date, SurfaceMode::Turf)
}

/// Ranks the horses of a race on the surface that the race names.
pub fn rank_race_auto(race: &Race, racecard_date: Option<&str>) -> (r: RaceRankResult)
    ensures
        r@ == ranking(race@, mode_of(race@), opt_text(racecard_date)),
        0 <= r@.epi <= 1_000_000,
        scores_in_range(r@.horses),
{
    let surf = to_uppercase(trim(race.surface.as_str()));
    if same_text(surf.as_str(), "T") {
        rank_race_turf(race, racecard_date)
    } else {
        rank_race_dirt(race, racecard_date)
    }
}

/// A row has a score.
pub open spec fn has_score() -> spec_fn(HorseRankView) -> bool {
    |row: HorseRankView| row.score.is_some()
}

/// The rows that have a score, in the order of their scores.
pub open spec fn ranked_scored(rows: Seq<HorseRankView>) -> Seq<HorseRankView> {
    ranked(rows.filter(has_score()))
}

/// The best `n` rows by score, all where fewer have a score.
pub open spec fn top_rows(rows: Seq<HorseRankView>, n: int) -> Seq<HorseRankView> {
    ranked_scored(rows).take(kept(ranked_scored(rows).len() as int, n))
}

/// The scores that are there, best first.
pub open spec fn sorted_scores_of(rows: Seq<HorseRankView>) -> Seq<int> {
    Seq::new(ranked_scored(rows).len(), |p: int| ranked_scored(rows)[p].score.unwrap())
}

/// Scores as mathematical integers.
pub open spec fn score_values(scores: Seq<i64>) -> Seq<int> {
    Seq::new(scores.len(), |i: int| scores[i] as int)
}

/// Each of the ranked rows with a score has a score.
pub proof fn lemma_ranked_scored_have_scores(rows: Seq<HorseRankView>)
    ensures
        forall|p: int|
            0 <= p < ranked_scored(rows).len() ==> (#[trigger] ranked_scored(
                rows,
            )[p]).score.is_some(),
        ranked_scored(rows).len() == rows.filter(has_score()).len(),
        ranked_scored(rows).len() <= rows.len(),
{
    let present = rows.filter(has_score());
    rows.lemma_filter_len(has_score());
    lemma_ranked_is_sorted(present);
    let order = rank_order(scores_of(present));
    assert forall|p: int| 0 <= p < ranked_scored(rows).len() implies (#[trigger] ranked_scored(
        rows,
    )[p]).score.is_some() by {
        assert(0 <= order[p] < present.len());
        rows.lemma_filter_pred(has_score(), order[p]);
    }
}

/// The rows of a ranking that have a score, in the order of their scores.
pub fn ranked_with_score(race: &RaceRankResult) -> (r: Vec<&HorseRank>)
    ensures
        ref_views(r@) == ranked_scored(race@.horses),
{
    let ghost all = race@.horses;
    let mut present: Vec<&HorseRank> = Vec::new();
    let mut i: usize = 0;
    proof {
        lemma_filter_none(all, has_score());
        assert(ref_views(present@) =~= all.take(0).filter(has_score()));
    }
    while i < race.horses.len()
        invariant
            i <= race.horses@.len(),
            all == race@.horses,
            all.len() == race.horses@.len(),
            ref_views(present@) == all.take(i as int).filter(has_score()),
        decreases race.horses@.len() - i,
    {
        let row: &HorseRank = &race.horses[i];
        let ghost before = ref_views(present@);
        proof {
            lemma_filter_step(all, has_score(), i as int);
            assert(all[i as int] == row@);
        }
        if row.score.is_some() {
            present.push(row);
            assert(ref_views(present@) =~= before.push(row@));
        }
        i += 1;
    }
    assert(all.take(i as int) =~= all);
    rank_rows(&present)
}

/// The scores of a ranking that are there, best first.
pub fn sorted_scores(race: &RaceRankResult) -> (r: Vec<i64>)
    ensures
        score_values(r@) == sorted_scores_of(race@.horses),
{
    let rows = ranked_with_score(race);
    proof {
        lemma_ranked_scored_have_scores(race@.horses);
    }
    let mut out: Vec<i64> = Vec::new();
    let mut i: usize = 0;
    while i < rows.len()
        invariant
            i <= rows@.len(),
            ref_views(rows@) == ranked_scored(race@.horses),
            forall|p: int|
                0 <= p < ranked_scored(race@.horses).len() ==> (#[trigger] ranked_scored(
                    race@.horses,
                )[p]).score.is_some(),
            out@.len() == i,
            forall|p: int|
                0 <= p < i ==> #[trigger] out@[p] == sorted_scores_of(race@.horses)[p],
        decreases rows@.len() - i,
    {
        assert(ref_views(rows@)[i as int] == rows@[i as int]@);
        match rows[i].score {
            Some(s) => {
                out.push(s);
            },
            None => {
                assert(ranked_scored(race@.horses)[i as int].score.is_some());
            },
        }
        i += 1;
    }
    assert(score_values(out@) =~= sorted_scores_of(race@.horses));
    out
}

/// The two best scores of a ranking, each where there is one.
pub fn top_two_scores(race: &RaceRankResult) -> (r: (Option<i64>, Option<i64>))
    ensures
        r.0.is_some() == (sorted_scores_of(race@.horses).len() >= 1),
        r.1.is_some() == (sorted_scores_of(race@.horses).len() >= 2),
        r.0 matches Some(top) ==> top == sorted_scores_of(race@.horses)[0],
        r.1 matches Some(second) ==> second == sorted_scores_of(race@.horses)[1],
{
    let scores = sorted_scores(race);
    assert(forall|p: int|
        0 <= p < scores@.len() ==> score_values(scores@)[p] == #[trigger] scores@[p]);
    let top = if scores.len() >= 1 {
        Some(scores[0])
    } else {
        None
    };
    let second = if scores.len() >= 2 {
        Some(scores[1])
    } else {
        None
    };
    (top, second)
}

/// The best `n` horses of a ranking by score; horses without a score are
/// left out.
pub fn top_n_horses_by_score(race: &RaceRankResult, n: usize) -> (r: Vec<HorseRank>)
    ensures
        row_views(r@) == top_rows(race@.horses, n as int),
{
    let rows = ranked_with_score(race);
    copy_rows(&rows, n)
}

} // verus!
