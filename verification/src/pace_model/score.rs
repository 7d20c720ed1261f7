//! The score of one horse: its representative figures against the class
//! pars, weighted by the shape of the race, and a few smaller modifiers.

use crate::fixed_point::{clamp, clamped, div_floor};
use crate::models::racecard::{opt_i64, Horse, HorseView, Race, RaceView};
use crate::number::{parse_decimal, parsed_decimal};
use crate::pace_model::figures::{rep_figs, representative_figures, yards_to_furlongs};
use crate::pace_model::shape::{get_pars_for_race, pars_for, Pars};
use crate::pace_model::types::{max_figure, RepFigs, RepFigsView, Shape, SurfaceMode};
use crate::text::{remove_char, trim, trimmed, without};
use vstd::prelude::*;

verus! {

/// The weights of the speed, early and late figures, in millionths.
#[derive(Debug, Clone, Copy, PartialEq, Eq)]
pub struct Weights {
    pub speed: i64,
    pub early: i64,
    pub late: i64,
}

/// The weights for a surface and a shape.
pub open spec fn weights_for(mode: SurfaceMode, shape: Shape) -> Weights {
    match mode {
        SurfaceMode::Dirt => match shape {
            Shape::Honest => Weights { speed: 450_000, early: 300_000, late: 250_000 },
            Shape::Slow => Weights { speed: 450_000, early: 400_000, late: 150_000 },
            Shape::Fast => Weights { speed: 450_000, early: 250_000, late: 300_000 },
            Shape::Meltdown => Weights { speed: 400_000, early: 150_000, late: 450_000 },
        },
        SurfaceMode::Turf => match shape {
            Shape::Honest => Weights { speed: 400_000, early: 200_000, late: 400_000 },
            Shape::Slow => Weights { speed: 450_000, early: 250_000, late: 300_000 },
            Shape::Fast => Weights { speed: 400_000, early: 150_000, late: 450_000 },
            Shape::Meltdown => Weights { speed: 350_000, early: 100_000, late: 550_000 },
        },
    }
}

/// Gives the weights for a surface and a shape.
pub fn shape_weights(mode: SurfaceMode, shape: Shape) -> (r: Weights)
    ensures
        r == weights_for(mode, shape),
{
    match mode {
        SurfaceMode::Dirt => match shape {
            Shape::Honest => Weights { speed: 450_000, early: 300_000, late: 250_000 },
            Shape::Slow => Weights { speed: 450_000, early: 400_000, late: 150_000 },
            Shape::Fast => Weights { speed: 450_000, early: 250_000, late: 300_000 },
            Shape::Meltdown => Weights { speed: 400_000, early: 150_000, late: 450_000 },
        },
        SurfaceMode::Turf => match shape {
            Shape::Honest => Weights { speed: 400_000, early: 200_000, late: 400_000 },
            Shape::Slow => Weights { speed: 450_000, early: 250_000, late: 300_000 },
            Shape::Fast => Weights { speed: 400_000, early: 150_000, late: 450_000 },
            Shape::Meltdown => Weights { speed: 350_000, early: 100_000, late: 550_000 },
        },
    }
}

/// The weighted sum of the three figures less their pars.
pub open spec fn figure_points(w: Weights, speed: int, early: int, late: int, pars: Pars) -> int {
    (w.speed * (speed - pars.speed * 1_000_000) + w.early * (early - pars.early * 1_000_000)
        + w.late * (late - pars.late * 1_000_000)) / 1_000_000
}

/// A tenth, on turf a twelfth, of the prime power rating beyond 100.
pub open spec fn prime_power_points(mode: SurfaceMode, rating: Option<int>) -> int {
    match rating {
        Some(p) => (p - 100_000_000) / match mode {
            SurfaceMode::Dirt => 10int,
            SurfaceMode::Turf => 12int,
        },
        None => 0,
    }
}

/// What a layoff costs: a sixtieth of a point for each day beyond sixty,
/// one and a half points at most.
pub open spec fn layoff_penalty(days: Option<int>) -> int {
    match days {
        Some(d) if d > 60 => if (d - 60) * 1_000_000 / 60 < 1_500_000 {
            (d - 60) * 1_000_000 / 60
        } else {
            1_500_000
        },
        _ => 0,
    }
}

/// On dirt, a quarter of the return on investment of trainer and jockey,
/// within half a point either way.
pub open spec fn roi_points(mode: SurfaceMode, roi: Option<int>) -> int {
    match (mode, roi) {
        (SurfaceMode::Dirt, Some(r)) => clamped(r / 4, -500_000, 500_000),
        _ => 0,
    }
}

/// The turf pedigree rating that a text gives: the number that is left of
/// it without its `*` marks and the white space round it.
pub open spec fn pedigree_rating(text: Seq<char>) -> Option<int> {
    parsed_decimal(trimmed(without(text, '*')))
}

/// On turf, a thirtieth of the pedigree rating beyond 100, between half a
/// point down and eight tenths up.
pub open spec fn pedigree_points(mode: SurfaceMode, text: Seq<char>) -> int {
    match (mode, pedigree_rating(text)) {
        (SurfaceMode::Turf, Some(p)) => clamped((p - 100_000_000) / 30, -500_000, 800_000),
        _ => 0,
    }
}

/// What the modifiers add to the figure points of a horse.
pub open spec fn modifier_points(h: HorseView, mode: SurfaceMode) -> int {
    prime_power_points(mode, h.bris_prime_power_rating) - layoff_penalty(h.days_since_last_race)
        + roi_points(mode, h.trainer_jockey_combo_roi_meet) + pedigree_points(
        mode,
        h.bris_turf_pedigree_rating,
    )
}

/// The score of a horse in a race of the given shape; `None` where the
/// race lacks a par or the horse a representative figure.
pub open spec fn horse_score(h: HorseView, race: RaceView, mode: SurfaceMode, shape: Shape)
    -> Option<int> {
    let rep = rep_figs(h, race, mode);
    match (pars_for(race), rep.rep_speed, rep.rep_early, rep.rep_late) {
        (Some(pars), Some(s), Some(e), Some(l)) => Some(
            figure_points(weights_for(mode, shape), s, e, l, pars) + modifier_points(h, mode),
        ),
        _ => None,
    }
}

/// The figures that come with the score: the representative figures of the
/// horse, none where the race lacks a par.
pub open spec fn scored_figs(h: HorseView, race: RaceView, mode: SurfaceMode) -> RepFigsView {
    match pars_for(race) {
        Some(_) => rep_figs(h, race, mode),
        None => RepFigsView { rep_speed: None, rep_early: None, rep_late: None },
    }
}

/// The most a score can be, either way.
pub open spec fn max_score() -> int {
    1_000_000_000_000_000_000
}

/// A score that is absent, or within the limit either way.
pub open spec fn is_score(v: Option<int>) -> bool {
    match v {
        Some(x) => -max_score() <= x <= max_score(),
        None => true,
    }
}

fn weighted_delta(weight: i64, figure: i64, par: u32) -> (r: i128)
    requires
        0 <= weight <= 1_000_000,
        0 <= figure <= max_figure(),
    ensures
        r == weight * (figure - par * 1_000_000),
        -4_294_967_295_000_000_000_000 <= r <= 4_294_967_295_000_000_000_000,
{
    let delta: i128 = figure as i128 - (par as i128) * 1_000_000;
    assert(-4_294_967_295_000_000_000_000 <= (weight as int) * (delta as int)
        <= 4_294_967_295_000_000_000_000) by (nonlinear_arith)
        requires
            0 <= weight <= 1_000_000,
            -4_294_967_295_000_000 <= delta <= 4_294_967_295_000_000,
    ;
    (weight as i128) * delta
}

fn figures_against_pars(w: &Weights, speed: i64, early: i64, late: i64, pars: &Pars) -> (r: i128)
    requires
        0 <= w.speed <= 1_000_000,
        0 <= w.early <= 1_000_000,
        0 <= w.late <= 1_000_000,
        0 <= speed <= max_figure(),
        0 <= early <= max_figure(),
        0 <= late <= max_figure(),
    ensures
        r == figure_points(*w, speed as int, early as int, late as int, *pars),
        -12_884_901_885_000_000 <= r <= 12_884_901_885_000_000,
{
    let sum: i128 = weighted_delta(w.speed, speed, pars.speed) + weighted_delta(
        w.early,
        early,
        pars.early,
    ) + weighted_delta(w.late, late, pars.late);
    div_floor(sum, 1_000_000)
}

fn prime_power(mode: SurfaceMode, rating: Option<i64>) -> (r: i128)
    ensures
        r == prime_power_points(mode, opt_i64(rating)),
        -930_000_000_000_000_000 <= r <= 930_000_000_000_000_000,
{
    match rating {
        Some(p) => div_floor(
            p as i128 - 100_000_000,
            match mode {
                SurfaceMode::Dirt => 10,
                SurfaceMode::Turf => 12,
            },
        ),
        None => 0,
    }
}

fn layoff(days: Option<u32>) -> (r: i128)
    ensures
        r == layoff_penalty(
            match days {
                Some(d) => Some(d as int),
                None => None,
            },
        ),
        0 <= r <= 1_500_000,
{
    match days {
        Some(d) if d > 60 => {
            let cost: i128 = (d as i128 - 60) * 1_000_000 / 60;
            if cost < 1_500_000 {
                cost
            } else {
                1_500_000
            }
        },
        _ => 0,
    }
}

fn roi(mode: SurfaceMode, value: Option<i64>) -> (r: i128)
    ensures
        r == roi_points(mode, opt_i64(value)),
        -500_000 <= r <= 500_000,
{
    match (mode, value) {
        (SurfaceMode::Dirt, Some(v)) => clamp(div_floor(v as i128, 4), -500_000, 500_000),
        _ => 0,
    }
}

/// Reads a turf pedigree rating.
pub fn parse_pedigree(text: &str) -> (r: Option<i64>)
    ensures
        opt_i64(r) == pedigree_rating(text@),
{
    let bare = remove_char(text, '*');
    parse_decimal(trim(bare.as_str()))
}

fn pedigree(mode: SurfaceMode, text: &str) -> (r: i128)
    ensures
        r == pedigree_points(mode, text@),
        -500_000 <= r <= 800_000,
{
    match mode {
        SurfaceMode::Turf => match parse_pedigree(text) {
            Some(p) => clamp(div_floor(p as i128 - 100_000_000, 30), -500_000, 800_000),
            None => 0,
        },
        SurfaceMode::Dirt => 0,
    }
}

/// Scores a horse for a race of the given shape on the surface `mode`, and
/// gives the figures that the score was made from.
pub fn score_horse(h: &Horse, race: &Race, shape: Shape, mode: SurfaceMode) -> (r: (
    Option<i64>,
    RepFigs,
))
    ensures
        opt_i64(r.0) == horse_score(h@, race@, mode, shape),
        r.1@ == scored_figs(h@, race@, mode),
        is_score(opt_i64(r.0)),
        r.1@.is_valid(),
{
    let dist_f = yards_to_furlongs(race.distance);
    let pars = match get_pars_for_race(race, dist_f) {
        Some(p) => p,
        None => {
            return (None, RepFigs { rep_speed: None, rep_early: None, rep_late: None });
        },
    };
    let rep = representative_figures(h, race, mode);
    let (speed, early, late) = match (rep.rep_speed, rep.rep_early, rep.rep_late) {
        (Some(a), Some(b), Some(c)) => (a, b, c),
        _ => {
            return (None, rep);
        },
    };
    let w = shape_weights(mode, shape);
    let score: i128 = figures_against_pars(&w, speed, early, late, &pars) + prime_power(
        mode,
        h.bris_prime_power_rating,
    ) - layoff(h.days_since_last_race) + roi(mode, h.trainer_jockey_combo_roi_meet) + pedigree(
        mode,
        h.bris_turf_pedigree_rating.as_str(),
    );
    (Some(score as i64), rep)
}

/// Scores a horse for a race on dirt.
pub fn score_horse_dirt(h: &Horse, race: &Race, shape: Shape) -> (r: (Option<i64>, RepFigs))
    ensures
        opt_i64(r.0) == horse_score(h@, race@, SurfaceMode::Dirt, shape),
        r.1@ == scored_figs(h@, race@, SurfaceMode::Dirt),
        is_score(opt_i64(r.0)),
        r.1@.is_valid(),
{
    score_horse(h, race, shape, SurfaceMode::Dirt)
}

/// Scores a horse for a race on turf.
pub fn score_horse_turf(h: &Horse, race: &Race, shape: Shape) -> (r: (Option<i64>, RepFigs))
    ensures
        opt_i64(r.0) == horse_score(h@, race@, SurfaceMode::Turf, shape),
        r.1@ == scored_figs(h@, race@, SurfaceMode::Turf),
        is_score(opt_i64(r.0)),
        r.1@.is_valid(),
{
    score_horse(h, race, shape, SurfaceMode::Turf)
}

} // verus!
