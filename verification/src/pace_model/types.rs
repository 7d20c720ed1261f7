//! The values of the speed-and-pace model. Scores, figures and indexes
//! count millionths.

use crate::models::racecard::{opt_i64, opt_u32};
use vstd::prelude::*;

verus! {

/// The surface that a race is scored for.
#[derive(Debug, Clone, Copy, PartialEq, Eq, Structural)]
pub enum SurfaceMode {
    Dirt,
    Turf,
}

/// How hot the early pace of a race is expected to be.
#[derive(Debug, Clone, Copy, PartialEq, Eq, Structural)]
pub enum Shape {
    Slow,
    Honest,
    Fast,
    Meltdown,
}

/// The early-running tendency of a horse.
#[derive(Debug, Clone, Copy, PartialEq, Eq, Structural)]
pub enum RunStyle {
    E,
    EP,
    P,
    S,
    Unk,
}

/// How clearly one horse stands out in a race.
#[derive(Debug, Clone, Copy, PartialEq, Eq, Structural)]
pub enum Confidence {
    StrongSingle,
    Playable,
    Competitive,
    WideOpen,
    Unscorable,
}

/// The most a pooled figure can be: the greatest figure a record can hold.
pub open spec fn max_figure() -> int {
    u32::MAX * 1_000_000
}

/// The representative figures of a horse, each absent where no past figure
/// went into it.
#[derive(Debug, Clone, Copy, PartialEq, Eq)]
pub struct RepFigs {
    pub rep_speed: Option<i64>,
    pub rep_early: Option<i64>,
    pub rep_late: Option<i64>,
}

/// The mathematical content of a [`RepFigs`].
pub struct RepFigsView {
    pub rep_speed: Option<int>,
    pub rep_early: Option<int>,
    pub rep_late: Option<int>,
}

impl View for RepFigs {
    type V = RepFigsView;

    open spec fn view(&self) -> RepFigsView {
        RepFigsView {
            rep_speed: opt_i64(self.rep_speed),
            rep_early: opt_i64(self.rep_early),
            rep_late: opt_i64(self.rep_late),
        }
    }
}

/// A figure that is absent, or lies between 0 and the greatest figure.
pub open spec fn is_figure(v: Option<int>) -> bool {
    match v {
        Some(x) => 0 <= x <= max_figure(),
        None => true,
    }
}

impl RepFigsView {
    /// Each figure that is present lies between 0 and the greatest figure.
    pub open spec fn is_valid(self) -> bool {
        is_figure(self.rep_speed) && is_figure(self.rep_early) && is_figure(self.rep_late)
    }
}

/// The quality and frequency of the recent workouts of a horse.
#[derive(Debug, Clone, Copy, PartialEq, Eq)]
pub struct WorkoutSig {
    pub recent_works: usize,
    pub top_rank_works: usize,
    pub score: i64,
}

/// The mathematical content of a [`WorkoutSig`].
pub struct WorkoutSigView {
    pub recent_works: int,
    pub top_rank_works: int,
    pub score: int,
}

impl View for WorkoutSig {
    type V = WorkoutSigView;

    open spec fn view(&self) -> WorkoutSigView {
        WorkoutSigView {
            recent_works: self.recent_works as int,
            top_rank_works: self.top_rank_works as int,
            score: self.score as int,
        }
    }
}

/// The row of one horse in the ranking of a race.
#[derive(Debug, Clone, PartialEq, Eq)]
pub struct HorseRank {
    pub program_number: String,
    pub horse_name: String,
    pub post_position: Option<u32>,
    pub run_style: RunStyle,
    pub quirin: Option<u32>,
    pub shape: Shape,
    pub score: Option<i64>,
    pub rep: RepFigs,
    pub workout: WorkoutSig,
}

/// The mathematical content of a [`HorseRank`].
pub struct HorseRankView {
    pub program_number: Seq<char>,
    pub horse_name: Seq<char>,
    pub post_position: Option<int>,
    pub run_style: RunStyle,
    pub quirin: Option<int>,
    pub shape: Shape,
    pub score: Option<int>,
    pub rep: RepFigsView,
    pub workout: WorkoutSigView,
}

impl View for HorseRank {
    type V = HorseRankView;

    open spec fn view(&self) -> HorseRankView {
        HorseRankView {
            program_number: self.program_number@,
            horse_name: self.horse_name@,
            post_position: opt_u32(self.post_position),
            run_style: self.run_style,
            quirin: opt_u32(self.quirin),
            shape: self.shape,
            score: opt_i64(self.score),
            rep: self.rep@,
            workout: self.workout@,
        }
    }
}

impl HorseRank {
    /// A second row with the same content.
    pub fn copy_of(&self) -> (r: HorseRank)
        ensures
            r@ == self@,
    {
        HorseRank {
            program_number: self.program_number.clone(),
            horse_name: self.horse_name.clone(),
            post_position: self.post_position,
            run_style: self.run_style,
            quirin: self.quirin,
            shape: self.shape,
            score: self.score,
            rep: self.rep,
            workout: self.workout,
        }
    }
}

/// The mathematical content of a list of rows.
pub open spec fn row_views(rows: Seq<HorseRank>) -> Seq<HorseRankView> {
    Seq::new(rows.len(), |i: int| rows[i]@)
}

/// The ranking of a race.
#[derive(Debug, Clone, PartialEq, Eq)]
pub struct RaceRankResult {
    pub race_number: Option<u32>,
    pub surface_mode: SurfaceMode,
    /// Distance in furlongs, in millionths.
    pub distance_f: i64,
    pub shape: Shape,
    /// How many horses of the field are expected to press the early pace.
    pub pace_heat: usize,
    /// The early-pace index, between 0 and one million.
    pub epi: i64,
    /// All horses of the race, scratched ones too, best score first.
    pub horses: Vec<HorseRank>,
}

/// The mathematical content of a [`RaceRankResult`].
pub struct RaceRankResultView {
    pub race_number: Option<int>,
    pub surface_mode: SurfaceMode,
    pub distance_f: int,
    pub shape: Shape,
    pub pace_heat: int,
    pub epi: int,
    pub horses: Seq<HorseRankView>,
}

impl View for RaceRankResult {
    type V = RaceRankResultView;

    open spec fn view(&self) -> RaceRankResultView {
        RaceRankResultView {
            race_number: opt_u32(self.race_number),
            surface_mode: self.surface_mode,
            distance_f: self.distance_f as int,
            shape: self.shape,
            pace_heat: self.pace_heat as int,
            epi: self.epi as int,
            horses: row_views(self.horses@),
        }
    }
}

/// The horse to bet to win, and why.
#[derive(Debug, Clone, PartialEq, Eq)]
pub struct WinBetSuggestion {
    pub program_number: String,
    pub horse_name: String,
    /// The least odds to take, in millionths; not set by the advisor.
    pub min_odds: Option<i64>,
    pub reason: String,
}

/// The mathematical content of a [`WinBetSuggestion`].
pub struct WinBetSuggestionView {
    pub program_number: Seq<char>,
    pub horse_name: Seq<char>,
    pub min_odds: Option<int>,
    pub reason: Seq<char>,
}

impl View for WinBetSuggestion {
    type V = WinBetSuggestionView;

    open spec fn view(&self) -> WinBetSuggestionView {
        WinBetSuggestionView {
            program_number: self.program_number@,
            horse_name: self.horse_name@,
            min_odds: opt_i64(self.min_odds),
            reason: self.reason@,
        }
    }
}

/// The mathematical content of an optional suggestion.
pub open spec fn suggestion_view(s: Option<WinBetSuggestion>) -> Option<WinBetSuggestionView> {
    match s {
        Some(x) => Some(x@),
        None => None,
    }
}

/// The report on a race.
#[derive(Debug, Clone, PartialEq, Eq)]
pub struct RaceMeta {
    pub race_number: Option<u32>,
    pub shape: Shape,
    pub epi: i64,
    pub top_score: Option<i64>,
    pub second_score: Option<i64>,
    pub gap_1_2: Option<i64>,
    pub spread_top_to_4: Option<i64>,
    pub confidence: Confidence,
    pub win_bet: Option<WinBetSuggestion>,
    pub race_rank_result: RaceRankResult,
}

/// The mathematical content of a [`RaceMeta`].
pub struct RaceMetaView {
    pub race_number: Option<int>,
    pub shape: Shape,
    pub epi: int,
    pub top_score: Option<int>,
    pub second_score: Option<int>,
    pub gap_1_2: Option<int>,
    pub spread_top_to_4: Option<int>,
    pub confidence: Confidence,
    pub win_bet: Option<WinBetSuggestionView>,
    pub race_rank_result: RaceRankResultView,
}

impl View for RaceMeta {
    type V = RaceMetaView;

    open spec fn view(&self) -> RaceMetaView {
        RaceMetaView {
            race_number: opt_u32(self.race_number),
            shape: self.shape,
            epi: self.epi as int,
            top_score: opt_i64(self.top_score),
            second_score: opt_i64(self.second_score),
            gap_1_2: opt_i64(self.gap_1_2),
            spread_top_to_4: opt_i64(self.spread_top_to_4),
            confidence: self.confidence,
            win_bet: suggestion_view(self.win_bet),
            race_rank_result: self.race_rank_result@,
        }
    }
}

/// The thresholds of the win-bet advisor, in millionths of a point.
#[derive(Debug, Clone, Copy, PartialEq, Eq)]
pub struct WinBetOptions {
    pub min_top_score: i64,
    pub min_gap: i64,
}

impl Default for WinBetOptions {
    fn default() -> (r: WinBetOptions)
        ensures
            r.min_top_score == 2_000_000,
            r.min_gap == 1_500_000,
    {
        WinBetOptions { min_top_score: 2_000_000, min_gap: 1_500_000 }
    }
}

} // verus!
