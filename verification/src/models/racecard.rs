//! Race, horse, past-performance and workout records as the scorers read
//! them. Fractional fields count millionths of their unit.

use vstd::prelude::*;

verus! {

/// One prior race of a horse.
#[derive(Debug, Clone)]
pub struct PastPerformance {
    /// `MM/DD/YYYY`, or blank.
    pub race_date: String,
    pub track_code: String,
    /// Single-letter surface code.
    pub surface: String,
    /// Yards.
    pub distance: Option<i32>,
    pub trip_comment: String,
    pub extended_start_comment: String,
    /// Lengths between this horse and the one ahead at the finish, in millionths.
    pub finish_between_lengths: Option<i64>,
    /// Lengths behind the leader at the finish, in millionths.
    pub finish_between_lengths_leader: Option<i64>,
    pub bris_2f_pace: Option<u32>,
    pub bris_4f_pace: Option<u32>,
    pub bris_6f_pace: Option<u32>,
    pub bris_late_pace: Option<u32>,
    pub bris_speed_rating: Option<u32>,
}

/// The mathematical content of a [`PastPerformance`].
pub struct PastPerformanceView {
    pub race_date: Seq<char>,
    pub track_code: Seq<char>,
    pub surface: Seq<char>,
    pub distance: Option<int>,
    pub trip_comment: Seq<char>,
    pub extended_start_comment: Seq<char>,
    pub finish_between_lengths: Option<int>,
    pub finish_between_lengths_leader: Option<int>,
    pub bris_2f_pace: Option<int>,
    pub bris_4f_pace: Option<int>,
    pub bris_6f_pace: Option<int>,
    pub bris_late_pace: Option<int>,
    pub bris_speed_rating: Option<int>,
}

/// A distance in furlongs, in millionths: the yards over 220; 0 where the
/// distance is missing or not positive.
pub open spec fn furlongs(yards: Option<int>) -> int {
    match yards {
        Some(y) if y > 0 => y * 1_000_000 / 220,
        _ => 0,
    }
}

/// An optional `u32` as an optional `int`.
pub open spec fn opt_u32(v: Option<u32>) -> Option<int> {
    match v {
        Some(x) => Some(x as int),
        None => None,
    }
}

/// An optional `i32` as an optional `int`.
pub open spec fn opt_i32(v: Option<i32>) -> Option<int> {
    match v {
        Some(x) => Some(x as int),
        None => None,
    }
}

/// An optional `i64` as an optional `int`.
pub open spec fn opt_i64(v: Option<i64>) -> Option<int> {
    match v {
        Some(x) => Some(x as int),
        None => None,
    }
}

impl View for PastPerformance {
    type V = PastPerformanceView;

    open spec fn view(&self) -> PastPerformanceView {
        PastPerformanceView {
            race_date: self.race_date@,
            track_code: self.track_code@,
            surface: self.surface@,
            distance: opt_i32(self.distance),
            trip_comment: self.trip_comment@,
            extended_start_comment: self.extended_start_comment@,
            finish_between_lengths: opt_i64(self.finish_between_lengths),
            finish_between_lengths_leader: opt_i64(self.finish_between_lengths_leader),
            bris_2f_pace: opt_u32(self.bris_2f_pace),
            bris_4f_pace: opt_u32(self.bris_4f_pace),
            bris_6f_pace: opt_u32(self.bris_6f_pace),
            bris_late_pace: opt_u32(self.bris_late_pace),
            bris_speed_rating: opt_u32(self.bris_speed_rating),
        }
    }
}

/// One training work of a horse.
#[derive(Debug, Clone)]
pub struct Workout {
    /// `MM/DD/YYYY`, or blank.
    pub date: String,
    /// Yards.
    pub distance: Option<i32>,
    /// How many horses worked that distance that day.
    pub workouts_that_day_distance: Option<u32>,
    /// This work's rank among them.
    pub rank: Option<u32>,
}

/// The mathematical content of a [`Workout`].
pub struct WorkoutView {
    pub date: Seq<char>,
    pub distance: Option<int>,
    pub workouts_that_day_distance: Option<int>,
    pub rank: Option<int>,
}

impl View for Workout {
    type V = WorkoutView;

    open spec fn view(&self) -> WorkoutView {
        WorkoutView {
            date: self.date@,
            distance: opt_i32(self.distance),
            workouts_that_day_distance: opt_u32(self.workouts_that_day_distance),
            rank: opt_u32(self.rank),
        }
    }
}

/// One entrant of a race. Past performances and workouts are ordered most
/// recent first.
#[derive(Debug, Clone)]
pub struct Horse {
    pub program_number: String,
    pub horse_name: String,
    pub post_position: Option<u32>,
    pub scratched: bool,
    pub bris_run_style: String,
    pub quirin_speed_points: Option<u32>,
    pub days_since_last_race: Option<u32>,
    /// Prime power rating, in millionths.
    pub bris_prime_power_rating: Option<i64>,
    /// Return on investment of the trainer and jockey together at the meet, in millionths.
    pub trainer_jockey_combo_roi_meet: Option<i64>,
    /// A number, possibly marked with `*`.
    pub bris_turf_pedigree_rating: String,
    pub past_performances: Vec<PastPerformance>,
    pub workouts: Vec<Workout>,
}

/// The mathematical content of a [`Horse`].
pub struct HorseView {
    pub program_number: Seq<char>,
    pub horse_name: Seq<char>,
    pub post_position: Option<int>,
    pub scratched: bool,
    pub bris_run_style: Seq<char>,
    pub quirin_speed_points: Option<int>,
    pub days_since_last_race: Option<int>,
    pub bris_prime_power_rating: Option<int>,
    pub trainer_jockey_combo_roi_meet: Option<int>,
    pub bris_turf_pedigree_rating: Seq<char>,
    pub past_performances: Seq<PastPerformanceView>,
    pub workouts: Seq<WorkoutView>,
}

impl View for Horse {
    type V = HorseView;

    open spec fn view(&self) -> HorseView {
        HorseView {
            program_number: self.program_number@,
            horse_name: self.horse_name@,
            post_position: opt_u32(self.post_position),
            scratched: self.scratched,
            bris_run_style: self.bris_run_style@,
            quirin_speed_points: opt_u32(self.quirin_speed_points),
            days_since_last_race: opt_u32(self.days_since_last_race),
            bris_prime_power_rating: opt_i64(self.bris_prime_power_rating),
            trainer_jockey_combo_roi_meet: opt_i64(self.trainer_jockey_combo_roi_meet),
            bris_turf_pedigree_rating: self.bris_turf_pedigree_rating@,
            past_performances: Seq::new(
                self.past_performances@.len(),
                |i: int| self.past_performances@[i]@,
            ),
            workouts: Seq::new(self.workouts@.len(), |i: int| self.workouts@[i]@),
        }
    }
}

/// One race with its class pars and its field.
#[derive(Debug, Clone)]
pub struct Race {
    pub race_number: Option<u32>,
    /// Yards.
    pub distance: Option<i32>,
    /// Single-letter surface code.
    pub surface: String,
    pub four_f_bris_pace_par: Option<u32>,
    pub six_f_bris_pace_par: Option<u32>,
    pub bris_speed_for_class: Option<u32>,
    pub bris_late_pace_par: Option<u32>,
    pub horses: Vec<Horse>,
}

/// The mathematical content of a [`Race`].
pub struct RaceView {
    pub race_number: Option<int>,
    pub distance: Option<int>,
    pub surface: Seq<char>,
    pub four_f_bris_pace_par: Option<int>,
    pub six_f_bris_pace_par: Option<int>,
    pub bris_speed_for_class: Option<int>,
    pub bris_late_pace_par: Option<int>,
    pub horses: Seq<HorseView>,
}

impl View for Race {
    type V = RaceView;

    open spec fn view(&self) -> RaceView {
        RaceView {
            race_number: opt_u32(self.race_number),
            distance: opt_i32(self.distance),
            surface: self.surface@,
            four_f_bris_pace_par: opt_u32(self.four_f_bris_pace_par),
            six_f_bris_pace_par: opt_u32(self.six_f_bris_pace_par),
            bris_speed_for_class: opt_u32(self.bris_speed_for_class),
            bris_late_pace_par: opt_u32(self.bris_late_pace_par),
            horses: Seq::new(self.horses@.len(), |i: int| self.horses@[i]@),
        }
    }
}

} // verus!
