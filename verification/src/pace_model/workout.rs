//! The workout signal of a horse: how many of its recent works are ranked,
//! and how many of these rank at the top of their day.

use crate::calendar::{date_day_number, parse_date};
use crate::fixed_point::clamped;
use crate::models::racecard::{Horse, HorseView, Workout, WorkoutView};
use crate::pace_model::types::{WorkoutSig, WorkoutSigView};
use vstd::prelude::*;

verus! {

/// Month, day and four-digit year, with slashes between.
pub const MMDDYYYY: &'static str = "%m/%d/%Y";

/// The date that a text of the form `MM/DD/YYYY` gives, as a day number.
pub open spec fn day_of(text: Seq<char>) -> Option<i32> {
    date_day_number(text, MMDDYYYY@)
}

/// The day of the race; `None` without a date that reads.
pub open spec fn race_day_of(date: Option<Seq<char>>) -> Option<i32> {
    match date {
        Some(d) => day_of(d),
        None => None,
    }
}

/// A work lies in the window before the race: at most `window` days before
/// it and not after it. A work or a race without a day always does.
pub open spec fn in_window(race_day: Option<i32>, work_day: Option<i32>, window: int) -> bool {
    match (race_day, work_day) {
        (Some(r), Some(w)) => 0 <= r - w <= window,
        _ => true,
    }
}

/// A work is ranked among a positive number of works of its day.
pub open spec fn is_ranked(w: WorkoutView) -> bool {
    w.rank.is_some() && w.workouts_that_day_distance.is_some()
        && w.workouts_that_day_distance.unwrap() > 0
}

/// A ranked work stands in the top tenth of its day.
pub open spec fn is_top_ranked(w: WorkoutView) -> bool {
    is_ranked(w) && w.rank.unwrap() * 10 <= w.workouts_that_day_distance.unwrap()
}

/// How many of the first `n` works are ranked and lie in the window.
pub open spec fn recent_works(works: Seq<WorkoutView>, race_day: Option<i32>, window: int, n: int)
    -> int
    decreases n,
{
    if n <= 0 {
        0
    } else {
        recent_works(works, race_day, window, n - 1) + if in_window(
            race_day,
            day_of(works[n - 1].date),
            window,
        ) && is_ranked(works[n - 1]) {
            1int
        } else {
            0int
        }
    }
}

/// How many of the first `n` works are top ranked and lie in the window.
pub open spec fn top_works(works: Seq<WorkoutView>, race_day: Option<i32>, window: int, n: int)
    -> int
    decreases n,
{
    if n <= 0 {
        0
    } else {
        top_works(works, race_day, window, n - 1) + if in_window(
            race_day,
            day_of(works[n - 1].date),
            window,
        ) && is_top_ranked(works[n - 1]) {
            1int
        } else {
            0int
        }
    }
}

/// The score of a workout signal: a tenth of a point for each recent work
/// and six tenths for each top one, three points at most.
pub open spec fn signal_score(recent: int, top: int) -> int {
    clamped(recent * 100_000 + top * 600_000, 0, 3_000_000)
}

/// The workout signal of a horse for a race on the given date.
pub open spec fn workout_sig(h: HorseView, race_date: Option<Seq<char>>, window: int)
    -> WorkoutSigView {
    let day = race_day_of(race_date);
    let n = h.workouts.len() as int;
    WorkoutSigView {
        recent_works: recent_works(h.workouts, day, window, n),
        top_rank_works: top_works(h.workouts, day, window, n),
        score: signal_score(
            recent_works(h.workouts, day, window, n),
            top_works(h.workouts, day, window, n),
        ),
    }
}

/// The score of a workout signal lies between 0 and 3, and no more works
/// are counted at the top than are counted at all.
pub proof fn lemma_signal_in_range(h: HorseView, race_date: Option<Seq<char>>, window: int)
    ensures
        0 <= workout_sig(h, race_date, window).score <= 3_000_000,
        0 <= workout_sig(h, race_date, window).top_rank_works <= workout_sig(
            h,
            race_date,
            window,
        ).recent_works <= h.workouts.len(),
{
    lemma_counts_in_range(h.workouts, race_day_of(race_date), window, h.workouts.len() as int);
}

/// Of the first `n` works no more are counted at the top than are counted
/// at all, and no more are counted than there are.
pub proof fn lemma_counts_in_range(
    works: Seq<WorkoutView>,
    race_day: Option<i32>,
    window: int,
    n: int,
)
    requires
        0 <= n,
    ensures
        0 <= top_works(works, race_day, window, n) <= recent_works(works, race_day, window, n)
            <= n,
    decreases n,
{
    if n > 0 {
        lemma_counts_in_range(works, race_day, window, n - 1);
    }
}

/// The mathematical content of an optional text.
pub open spec fn opt_text(s: Option<&str>) -> Option<Seq<char>> {
    match s {
        Some(t) => Some(t@),
        None => None,
    }
}

/// Reads a date of the form `MM/DD/YYYY` into its day number.
pub fn parse_mmddyyyy(s: &str) -> (r: Option<i32>)
    ensures
        r == day_of(s@),
{
    parse_date(s, MMDDYYYY)
}

/// Whether a work lies in the window before the race.
pub fn workout_in_window(race_day: Option<i32>, work_day: Option<i32>, days_window: i64) -> (r:
    bool)
    ensures
        r == in_window(race_day, work_day, days_window as int),
{
    match (race_day, work_day) {
        (Some(rd), Some(wd)) => {
            let age: i64 = rd as i64 - wd as i64;
            !(age < 0 || age > days_window)
        },
        _ => true,
    }
}

/// Whether a work is ranked, and whether it is ranked at the top.
pub fn workout_rank(w: &Workout) -> (r: (bool, bool))
    ensures
        r.0 == is_ranked(w@),
        r.1 == is_top_ranked(w@),
{
    match (w.rank, w.workouts_that_day_distance) {
        (Some(rank), Some(total)) => {
            if total > 0 {
                (true, (rank as u64) * 10 <= total as u64)
            } else {
                (false, false)
            }
        },
        _ => (false, false),
    }
}

/// Scores a workout signal from its two counts.
pub fn score_workouts(recent_works: usize, top_rank_works: usize) -> (r: i64)
    ensures
        r == signal_score(recent_works as int, top_rank_works as int),
        0 <= r <= 3_000_000,
{
    let sum: u128 = (recent_works as u128) * 100_000 + (top_rank_works as u128) * 600_000;
    if sum > 3_000_000 {
        3_000_000
    } else {
        sum as i64
    }
}

/// Scores the recent workouts of a horse in the `days_window` days before
/// the race.
pub fn workout_signal(h: &Horse, race_date_mmddyyyy: Option<&str>, days_window: i64) -> (r:
    WorkoutSig)
    ensures
        r@ == workout_sig(h@, opt_text(race_date_mmddyyyy), days_window as int),
        0 <= r@.score <= 3_000_000,
{
    let race_day: Option<i32> = match race_date_mmddyyyy {
        Some(d) => parse_mmddyyyy(d),
        None => None,
    };
    let ghost works = h@.workouts;
    let n: usize = h.workouts.len();
    let mut recent: usize = 0;
    let mut top: usize = 0;
    let mut i: usize = 0;
    while i < n
        invariant
            i <= n,
            n == h.workouts.len(),
            works == h@.workouts,
            works.len() == n,
            recent == recent_works(works, race_day, days_window as int, i as int),
            top == top_works(works, race_day, days_window as int, i as int),
            top <= recent <= i,
        decreases n - i,
    {
        let w: &Workout = &h.workouts[i];
        assert(w@ == works[i as int]);
        if workout_in_window(race_day, parse_mmddyyyy(w.date.as_str()), days_window) {
            let (ranked, at_top) = workout_rank(w);
            if ranked {
                recent += 1;
                if at_top {
                    top += 1;
                }
            }
        }
        i += 1;
    }
    WorkoutSig { recent_works: recent, top_rank_works: top, score: score_workouts(recent, top) }
}

} // verus!
