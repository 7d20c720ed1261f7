//! The pace shape of a race: how many of the field press the early pace,
//! how their early figures stand against the par, and the early-pace index
//! made of the two.

use crate::fixed_point::{clamp, clamped, div_floor};
use crate::models::racecard::{furlongs, Horse, HorseView, Race, RaceView};
use crate::pace_model::figures::{
    parse_run_style,
    rep_figs,
    representative_figures,
    run_style_of,
    yards_to_furlongs,
};
use crate::pace_model::types::{RunStyle, Shape, SurfaceMode};
use vstd::prelude::*;

verus! {

/// The class pars of a race, in whole points.
#[derive(Debug, Clone, Copy, PartialEq, Eq)]
pub struct Pars {
    pub speed: u32,
    pub early: u32,
    pub late: u32,
}

/// The pars of a race of `dist_f` millionths of a furlong: the early par
/// is the par at four furlongs up to seven and a half furlongs and the par
/// at six furlongs beyond. `None` unless all three are published.
pub open spec fn pars_at(race: RaceView, dist_f: int) -> Option<Pars> {
    let early = if dist_f <= 7_500_000 {
        race.four_f_bris_pace_par
    } else {
        race.six_f_bris_pace_par
    };
    match (race.bris_speed_for_class, early, race.bris_late_pace_par) {
        (Some(s), Some(e), Some(l)) => Some(Pars { speed: s as u32, early: e as u32, late: l as u32 }),
        _ => None,
    }
}

/// The pars of a race at its own distance.
pub open spec fn pars_for(race: RaceView) -> Option<Pars> {
    pars_at(race, furlongs(race.distance))
}

/// Looks up the class pars of a race.
pub fn get_pars_for_race(race: &Race, dist_f: i64) -> (r: Option<Pars>)
    ensures
        r == pars_at(race@, dist_f as int),
{
    let early = if dist_f <= 7_500_000 {
        race.four_f_bris_pace_par
    } else {
        race.six_f_bris_pace_par
    };
    match (race.bris_speed_for_class, early, race.bris_late_pace_par) {
        (Some(s), Some(e), Some(l)) => Some(Pars { speed: s, early: e, late: l }),
        _ => None,
    }
}

/// The numbers that tune the shape of a race on one surface, in
/// millionths but for `scale`.
#[derive(Debug, Clone, Copy, PartialEq, Eq)]
pub struct ShapeTuning {
    /// Weight of the share of the field that presses the pace.
    pub heat_weight: i64,
    /// Weight of the early figures against the par.
    pub par_weight: i64,
    /// Added to the early figures against the par.
    pub offset: i64,
    /// Divides the early figures against the par; a whole number.
    pub scale: i64,
    /// The index from which the shape is a meltdown.
    pub meltdown: i64,
    /// The index from which the shape is fast.
    pub fast: i64,
    /// The index up to which the shape is slow.
    pub slow: i64,
}

impl ShapeTuning {
    /// The weights lie between 0 and 1, the scale is positive, and the
    /// offset is no more than a million points either way.
    pub open spec fn is_valid(self) -> bool {
        &&& 0 <= self.heat_weight <= 1_000_000
        &&& 0 <= self.par_weight <= 1_000_000
        &&& 1 <= self.scale
        &&& -1_000_000_000_000 <= self.offset <= 1_000_000_000_000
    }
}

/// The tuning of a surface.
pub open spec fn tuning(mode: SurfaceMode) -> ShapeTuning {
    match mode {
        SurfaceMode::Dirt => ShapeTuning {
            heat_weight: 700_000,
            par_weight: 300_000,
            offset: 6_000_000,
            scale: 12,
            meltdown: 880_000,
            fast: 750_000,
            slow: 250_000,
        },
        SurfaceMode::Turf => ShapeTuning {
            heat_weight: 600_000,
            par_weight: 400_000,
            offset: 4_000_000,
            scale: 10,
            meltdown: 820_000,
            fast: 680_000,
            slow: 220_000,
        },
    }
}

/// Gives the tuning of a surface.
pub fn shape_tuning(mode: SurfaceMode) -> (r: ShapeTuning)
    ensures
        r == tuning(mode),
        r.is_valid(),
{
    match mode {
        SurfaceMode::Dirt => ShapeTuning {
            heat_weight: 700_000,
            par_weight: 300_000,
            offset: 6_000_000,
            scale: 12,
            meltdown: 880_000,
            fast: 750_000,
            slow: 250_000,
        },
        SurfaceMode::Turf => ShapeTuning {
            heat_weight: 600_000,
            par_weight: 400_000,
            offset: 4_000_000,
            scale: 10,
            meltdown: 820_000,
            fast: 680_000,
            slow: 220_000,
        },
    }
}

/// The quirin speed points of a horse, 0 where it has none.
pub open spec fn quirin_of(h: HorseView) -> int {
    match h.quirin_speed_points {
        Some(q) => q,
        None => 0,
    }
}

/// A horse is expected to press the early pace. On dirt: run style E, or
/// six quirin points or more. On turf: run style E, or run style EP with
/// five points or more, or seven points or more.
pub open spec fn presses_pace(mode: SurfaceMode, h: HorseView) -> bool {
    let style = run_style_of(h.bris_run_style);
    let q = quirin_of(h);
    match mode {
        SurfaceMode::Dirt => style == RunStyle::E || q >= 6,
        SurfaceMode::Turf => style == RunStyle::E || (style == RunStyle::EP && q >= 5) || q >= 7,
    }
}

/// How many of the first `n` horses are not scratched.
pub open spec fn runners(horses: Seq<HorseView>, n: int) -> int
    decreases n,
{
    if n <= 0 {
        0
    } else {
        runners(horses, n - 1) + if horses[n - 1].scratched {
            0int
        } else {
            1int
        }
    }
}

/// How many of the first `n` horses are not scratched and press the pace.
pub open spec fn pace_heat(horses: Seq<HorseView>, mode: SurfaceMode, n: int) -> int
    decreases n,
{
    if n <= 0 {
        0
    } else {
        pace_heat(horses, mode, n - 1) + if !horses[n - 1].scratched && presses_pace(
            mode,
            horses[n - 1],
        ) {
            1int
        } else {
            0int
        }
    }
}

/// The representative early figure of a horse that runs; `None` for a
/// scratched horse and for one without such a figure.
pub open spec fn running_early(race: RaceView, mode: SurfaceMode, i: int) -> Option<int> {
    if race.horses[i].scratched {
        None
    } else {
        rep_figs(race.horses[i], race, mode).rep_early
    }
}

/// The sum of the early figures of the first `n` horses.
pub open spec fn early_total(race: RaceView, mode: SurfaceMode, n: int) -> int
    decreases n,
{
    if n <= 0 {
        0
    } else {
        early_total(race, mode, n - 1) + match running_early(race, mode, n - 1) {
            Some(e) => e,
            None => 0,
        }
    }
}

/// How many of the first `n` horses have an early figure.
pub open spec fn early_count(race: RaceView, mode: SurfaceMode, n: int) -> int
    decreases n,
{
    if n <= 0 {
        0
    } else {
        early_count(race, mode, n - 1) + match running_early(race, mode, n - 1) {
            Some(_) => 1int,
            None => 0int,
        }
    }
}

/// The average early figure of the field, 0 where no horse has one.
pub open spec fn average_early(race: RaceView, mode: SurfaceMode) -> int {
    let n = race.horses.len() as int;
    if early_count(race, mode, n) > 0 {
        early_total(race, mode, n) / early_count(race, mode, n)
    } else {
        0
    }
}

/// The average early figure less the early par; 0 where the race has no
/// pars.
pub open spec fn early_versus_par(race: RaceView, mode: SurfaceMode) -> int {
    match pars_for(race) {
        Some(p) => average_early(race, mode) - p.early * 1_000_000,
        None => 0,
    }
}

/// The size of the field: the horses that are not scratched, one at least.
pub open spec fn field_size(race: RaceView) -> int {
    let n = runners(race.horses, race.horses.len() as int);
    if n < 1 {
        1
    } else {
        n
    }
}

/// The early-pace index from its parts.
pub open spec fn index_of(t: ShapeTuning, heat: int, field: int, versus_par: int) -> int {
    clamped(
        heat * t.heat_weight / field + clamped(
            (versus_par + t.offset) / (t.scale as int),
            0,
            1_000_000,
        ) * t.par_weight / 1_000_000,
        0,
        1_000_000,
    )
}

/// The early-pace index of a race.
pub open spec fn early_pace_index(race: RaceView, mode: SurfaceMode) -> int {
    index_of(
        tuning(mode),
        pace_heat(race.horses, mode, race.horses.len() as int),
        field_size(race),
        early_versus_par(race, mode),
    )
}

/// The shape that an early-pace index stands for.
pub open spec fn shape_at(t: ShapeTuning, epi: int) -> Shape {
    if epi >= t.meltdown {
        Shape::Meltdown
    } else if epi >= t.fast {
        Shape::Fast
    } else if epi <= t.slow {
        Shape::Slow
    } else {
        Shape::Honest
    }
}

/// The shape of a race.
pub open spec fn shape_of(race: RaceView, mode: SurfaceMode) -> Shape {
    shape_at(tuning(mode), early_pace_index(race, mode))
}

/// The early-pace index lies between 0 and 1.
pub proof fn lemma_index_in_range(race: RaceView, mode: SurfaceMode)
    ensures
        0 <= early_pace_index(race, mode) <= 1_000_000,
{
}

fn presses(mode: SurfaceMode, h: &Horse) -> (r: bool)
    ensures
        r == presses_pace(mode, h@),
{
    let style = parse_run_style(h.bris_run_style.as_str());
    let q: u32 = match h.quirin_speed_points {
        Some(q) => q,
        None => 0,
    };
    match mode {
        SurfaceMode::Dirt => style == RunStyle::E || q >= 6,
        SurfaceMode::Turf => style == RunStyle::E || (style == RunStyle::EP && q >= 5) || q >= 7,
    }
}

/// Computes the early-pace index from its parts.
pub fn pace_index(t: &ShapeTuning, heat: usize, field: usize, versus_par: i64) -> (r: i64)
    requires
        t.is_valid(),
        field >= 1,
    ensures
        r == index_of(*t, heat as int, field as int, versus_par as int),
        0 <= r <= 1_000_000,
{
    assert(0 <= (heat as int) * (t.heat_weight as int) <= 0xffff_ffff_ffff_ffff * 1_000_000)
        by (nonlinear_arith)
        requires
            0 <= heat <= 0xffff_ffff_ffff_ffff,
            0 <= t.heat_weight <= 1_000_000,
    ;
    let pressed: i128 = (heat as i128) * (t.heat_weight as i128);
    let share: i128 = div_floor(pressed, field as i128);
    assert(0 <= share <= pressed) by (nonlinear_arith)
        requires
            0 <= pressed,
            field >= 1,
            share == (pressed as int) / (field as int),
    ;
    let against: i128 = clamp(
        div_floor(versus_par as i128 + t.offset as i128, t.scale as i128),
        0,
        1_000_000,
    );
    assert(0 <= (against as int) * (t.par_weight as int) <= 1_000_000 * 1_000_000)
        by (nonlinear_arith)
        requires
            0 <= against <= 1_000_000,
            0 <= t.par_weight <= 1_000_000,
    ;
    let part: i128 = div_floor(against * (t.par_weight as i128), 1_000_000);
    clamp(share + part, 0, 1_000_000) as i64
}

/// Picks the shape that an early-pace index stands for.
pub fn shape_for(t: &ShapeTuning, epi: i64) -> (r: Shape)
    ensures
        r == shape_at(*t, epi as int),
{
    if epi >= t.meltdown {
        Shape::Meltdown
    } else if epi >= t.fast {
        Shape::Fast
    } else if epi <= t.slow {
        Shape::Slow
    } else {
        Shape::Honest
    }
}

/// Estimates the pace shape of a race on the surface `mode`: the shape, the
/// number of horses that press the pace, and the early-pace index.
pub fn race_shape(race: &Race, mode: SurfaceMode) -> (r: (Shape, usize, i64))
    ensures
        r.0 == shape_of(race@, mode),
        r.1 == pace_heat(race@.horses, mode, race@.horses.len() as int),
        r.2 == early_pace_index(race@, mode),
        0 <= r.2 <= 1_000_000,
{
    let dist_f = yards_to_furlongs(race.distance);
    let pars = get_pars_for_race(race, dist_f);
    let ghost view = race@;
    let n: usize = race.horses.len();
    let mut field: usize = 0;
    let mut heat: usize = 0;
    let mut total: i128 = 0;
    let mut count: usize = 0;
    let mut i: usize = 0;
    while i < n
        invariant
            i <= n,
            n == race.horses.len(),
            view == race@,
            view.horses.len() == n,
            field == runners(view.horses, i as int),
            heat == pace_heat(view.horses, mode, i as int),
            total == early_total(view, mode, i as int),
            count == early_count(view, mode, i as int),
            heat <= field <= i,
            count <= i,
            0 <= total <= count * 4_294_967_295_000_000,
        decreases n - i,
    {
        let h: &Horse = &race.horses[i];
        assert(h@ == view.horses[i as int]);
        if !h.scratched {
            field += 1;
            if presses(mode, h) {
                heat += 1;
            }
            let rep = representative_figures(h, race, mode);
            match rep.rep_early {
                Some(e) => {
                    assert(running_early(view, mode, i as int) == Some(e as int));
                    total = total + e as i128;
                    count += 1;
                },
                None => {
                    assert(running_early(view, mode, i as int).is_none());
                },
            }
        }
        i += 1;
    }
    let average: i128 = if count > 0 {
        let q: i128 = total / (count as i128);
        assert(0 <= q <= 4_294_967_295_000_000) by (nonlinear_arith)
            requires
                0 <= total <= count * 4_294_967_295_000_000,
                count > 0,
                q == (total as int) / (count as int),
        ;
        q
    } else {
        0
    };
    let versus_par: i64 = match pars {
        Some(p) => (average - (p.early as i128) * 1_000_000) as i64,
        None => 0,
    };
    let t = shape_tuning(mode);
    let field_floor: usize = if field < 1 {
        1
    } else {
        field
    };
    let epi = pace_index(&t, heat, field_floor, versus_par);
    (shape_for(&t, epi), heat, epi)
}

/// Estimates the pace shape of a race on dirt.
pub fn race_shape_dirt(race: &Race) -> (r: (Shape, usize, i64))
    ensures
        r.0 == shape_of(race@, SurfaceMode::Dirt),
        r.1 == pace_heat(race@.horses, SurfaceMode::Dirt, race@.horses.len() as int),
        r.2 == early_pace_index(race@, SurfaceMode::Dirt),
        0 <= r.2 <= 1_000_000,
{
    race_shape(race, SurfaceMode::Dirt)
}

/// Estimates the pace shape of a race on turf.
pub fn race_shape_turf(race: &Race) -> (r: (Shape, usize, i64))
    ensures
        r.0 == shape_of(race@, SurfaceMode::Turf),
        r.1 == pace_heat(race@.horses, SurfaceMode::Turf, race@.horses.len() as int),
        r.2 == early_pace_index(race@, SurfaceMode::Turf),
        0 <= r.2 <= 1_000_000,
{
    race_shape(race, SurfaceMode::Turf)
}

} // verus!
