//! What the trip-trouble scorer produces.

use vstd::prelude::*;

verus! {

/// The most the detector can award: every keyword rule and the widest path
/// a `u32` can hold.
pub open spec fn max_raw_score() -> int {
    7_800_000 + 650_000 * (u32::MAX - 2)
}

/// The trouble score of one past race. `raw` and `adj` count millionths of
/// a point; `why` lists the rules that fired, in the order they fired.
#[derive(Debug, Clone, PartialEq, Eq)]
pub struct TripScore {
    pub raw: i64,
    pub adj: i64,
    pub headline: String,
    pub why: Vec<String>,
}

/// The mathematical content of a [`TripScore`].
pub struct TripScoreView {
    pub raw: int,
    pub adj: int,
    pub headline: Seq<char>,
    pub why: Seq<Seq<char>>,
}

impl View for TripScore {
    type V = TripScoreView;

    open spec fn view(&self) -> TripScoreView {
        TripScoreView {
            raw: self.raw as int,
            adj: self.adj as int,
            headline: self.headline@,
            why: self.why.deep_view(),
        }
    }
}

impl TripScoreView {
    /// Neither score is negative, and the raw score is one the detector can award.
    pub open spec fn is_valid(self) -> bool {
        0 <= self.raw <= max_raw_score() && 0 <= self.adj
    }
}

/// The past race of a horse that is most worth betting back.
#[derive(Debug, Clone, PartialEq, Eq)]
pub struct BetBackPick {
    /// Position of the race among the horse's past performances.
    pub pp_index: usize,
    pub score: TripScore,
    pub surface: String,
    /// Distance in furlongs, in millionths.
    pub dist_f: i64,
    pub date: String,
    pub track: String,
    /// One and a half times the adjusted score, in millionths of a point.
    pub adj_points: i64,
}

/// The mathematical content of a [`BetBackPick`].
pub struct BetBackPickView {
    pub pp_index: int,
    pub score: TripScoreView,
    pub surface: Seq<char>,
    pub dist_f: int,
    pub date: Seq<char>,
    pub track: Seq<char>,
    pub adj_points: int,
}

impl View for BetBackPick {
    type V = BetBackPickView;

    open spec fn view(&self) -> BetBackPickView {
        BetBackPickView {
            pp_index: self.pp_index as int,
            score: self.score@,
            surface: self.surface@,
            dist_f: self.dist_f as int,
            date: self.date@,
            track: self.track@,
            adj_points: self.adj_points as int,
        }
    }
}

} // verus!
