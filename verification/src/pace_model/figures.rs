//! The representative figures of a horse: its recent figures on the
//! surface of the race, pooled by position.

use crate::models::racecard::{
    furlongs,
    opt_i32,
    opt_i64,
    opt_u32,
    Horse,
    HorseView,
    PastPerformance,
    PastPerformanceView,
    Race,
    RaceView,
};
use crate::seq_lemmas::lemma_filter_step;
use crate::pace_model::types::{max_figure, RepFigs, RepFigsView, RunStyle, SurfaceMode};
use crate::text::{
    blank,
    has_prefix,
    is_blank,
    same_text,
    starts_with,
    to_uppercase,
    trim,
    trimmed,
    uppercased,
};
use vstd::prelude::*;

verus! {

/// Turns a distance in yards into furlongs.
pub fn yards_to_furlongs(yards: Option<i32>) -> (r: i64)
    ensures
        r == furlongs(opt_i32(yards)),
{
    match yards {
        Some(y) if y > 0 => (y as i64) * 1_000_000 / 220,
        _ => 0,
    }
}

/// The run style that a code stands for, read without regard to case and
/// to the white space round it.
pub open spec fn run_style_of(raw: Seq<char>) -> RunStyle {
    let s = uppercased(trimmed(raw));
    if s == "E"@ || has_prefix(s, "E/"@) {
        RunStyle::E
    } else if has_prefix(s, "EP"@) {
        RunStyle::EP
    } else if s == "P"@ {
        RunStyle::P
    } else if s == "S"@ || s == "C"@ || s == "CLO"@ {
        RunStyle::S
    } else {
        RunStyle::Unk
    }
}

/// Reads a run-style code.
pub fn parse_run_style(raw: &str) -> (r: RunStyle)
    ensures
        r == run_style_of(raw@),
{
    let upper = to_uppercase(trim(raw));
    let s = upper.as_str();
    if same_text(s, "E") || starts_with(s, "E/") {
        RunStyle::E
    } else if starts_with(s, "EP") {
        RunStyle::EP
    } else if same_text(s, "P") {
        RunStyle::P
    } else if same_text(s, "S") || same_text(s, "C") || same_text(s, "CLO") {
        RunStyle::S
    } else {
        RunStyle::Unk
    }
}

/// The code of a surface.
pub open spec fn surface_code(mode: SurfaceMode) -> Seq<char> {
    match mode {
        SurfaceMode::Dirt => "D"@,
        SurfaceMode::Turf => "T"@,
    }
}

/// A surface code names the surface `mode`, read without regard to case
/// and to the white space round it.
pub open spec fn on_surface(mode: SurfaceMode, surface: Seq<char>) -> bool {
    uppercased(trimmed(surface)) == surface_code(mode)
}

/// Whether a past race was run on the surface `mode`.
pub fn surface_matches(mode: SurfaceMode, pp_surface: &str) -> (r: bool)
    ensures
        r == on_surface(mode, pp_surface@),
{
    let upper = to_uppercase(trim(pp_surface));
    match mode {
        SurfaceMode::Dirt => same_text(upper.as_str(), "D"),
        SurfaceMode::Turf => same_text(upper.as_str(), "T"),
    }
}

/// The weight of a position in the pool, in millionths: 0.55, 0.30, 0.15,
/// 0.08 and 0.05 for the five most recent races, nothing beyond.
pub open spec fn pool_weight(position: int) -> int {
    if position == 0 {
        550_000
    } else if position == 1 {
        300_000
    } else if position == 2 {
        150_000
    } else if position == 3 {
        80_000
    } else if position == 4 {
        50_000
    } else {
        0
    }
}

/// The sum over the first `n` positions of each figure that is there times
/// the weight of its position.
pub open spec fn weighted_sum(values: Seq<Option<int>>, n: int) -> int
    decreases n,
{
    if n <= 0 {
        0
    } else {
        weighted_sum(values, n - 1) + match values[n - 1] {
            Some(v) => v * pool_weight(n - 1),
            None => 0,
        }
    }
}

/// The sum of the weights of those of the first `n` positions that hold a
/// figure.
pub open spec fn weight_used(values: Seq<Option<int>>, n: int) -> int
    decreases n,
{
    if n <= 0 {
        0
    } else {
        weight_used(values, n - 1) + match values[n - 1] {
            Some(_) => pool_weight(n - 1),
            None => 0,
        }
    }
}

/// How many positions the pool weighs: five at most.
pub open spec fn window(len: int) -> int {
    if len < 5 {
        len
    } else {
        5
    }
}

/// The weighted average, in millionths, of the figures in the window, the
/// weights scaled up to the positions that hold a figure; `None` where none
/// does.
pub open spec fn weighted_average(values: Seq<Option<int>>) -> Option<int> {
    let n = window(values.len() as int);
    if weight_used(values, n) > 0 {
        Some(weighted_sum(values, n) * 1_000_000 / weight_used(values, n))
    } else {
        None
    }
}

/// Figures as mathematical integers.
pub open spec fn figure_values(values: Seq<Option<u32>>) -> Seq<Option<int>> {
    Seq::new(values.len(), |i: int| opt_u32(values[i]))
}

fn weight_at(position: usize) -> (r: i128)
    ensures
        r == pool_weight(position as int),
{
    if position == 0 {
        550_000
    } else if position == 1 {
        300_000
    } else if position == 2 {
        150_000
    } else if position == 3 {
        80_000
    } else if position == 4 {
        50_000
    } else {
        0
    }
}

/// Pools figures by position.
pub fn weighted_avg(values: &Vec<Option<u32>>) -> (r: Option<i64>)
    ensures
        opt_i64(r) == weighted_average(figure_values(values@)),
        r matches Some(v) ==> 0 <= v <= max_figure(),
{
    let ghost vals = figure_values(values@);
    let n: usize = if values.len() < 5 {
        values.len()
    } else {
        5
    };
    let mut num: i128 = 0;
    let mut den: i128 = 0;
    let mut i: usize = 0;
    while i < n
        invariant
            i <= n <= 5,
            n <= values.len(),
            vals == figure_values(values@),
            num == weighted_sum(vals, i as int),
            den == weight_used(vals, i as int),
            0 <= den <= i * 550_000,
            0 <= num <= u32::MAX * den,
        decreases n - i,
    {
        let w = weight_at(i);
        match values[i] {
            Some(v) => {
                assert(vals[i as int] == Some(v as int));
                assert(0 <= (v as int) * (w as int) <= u32::MAX * (w as int)) by (nonlinear_arith)
                    requires
                        0 <= v <= u32::MAX,
                        0 <= w <= 550_000,
                ;
                num = num + (v as i128) * w;
                den = den + w;
            },
            None => {
                assert(vals[i as int].is_none());
            },
        }
        i += 1;
    }
    if den > 0 {
        let scaled: i128 = num * 1_000_000;
        let q: i128 = scaled / den;
        assert(0 <= q <= u32::MAX * 1_000_000) by (nonlinear_arith)
            requires
                0 <= num <= u32::MAX * den,
                den > 0,
                scaled == num * 1_000_000,
                q == scaled / den,
        ;
        Some(q as i64)
    } else {
        None
    }
}

/// The first of two figures that is there.
pub open spec fn first_of(a: Option<int>, b: Option<int>) -> Option<int> {
    if a.is_some() {
        a
    } else {
        b
    }
}

/// The early figure of a past race for a race of `dist_f` millionths of a
/// furlong: up to five and a half furlongs the figure at two furlongs, else
/// that at four; up to seven and a half the figure at four, else that at
/// two, else that at six; beyond, the figure at six, else that at four.
pub open spec fn early_figure(pp: PastPerformanceView, dist_f: int) -> Option<int> {
    if dist_f <= 5_500_000 {
        first_of(pp.bris_2f_pace, pp.bris_4f_pace)
    } else if dist_f <= 7_500_000 {
        first_of(pp.bris_4f_pace, first_of(pp.bris_2f_pace, pp.bris_6f_pace))
    } else {
        first_of(pp.bris_6f_pace, pp.bris_4f_pace)
    }
}

fn either(a: Option<u32>, b: Option<u32>) -> (r: Option<u32>)
    ensures
        opt_u32(r) == first_of(opt_u32(a), opt_u32(b)),
{
    if a.is_some() {
        a
    } else {
        b
    }
}

/// Picks the early figure of a past race that suits the distance.
pub fn pick_early_fig(pp: &PastPerformance, dist_f: i64) -> (r: Option<u32>)
    ensures
        opt_u32(r) == early_figure(pp@, dist_f as int),
{
    if dist_f <= 5_500_000 {
        either(pp.bris_2f_pace, pp.bris_4f_pace)
    } else if dist_f <= 7_500_000 {
        either(pp.bris_4f_pace, either(pp.bris_2f_pace, pp.bris_6f_pace))
    } else {
        either(pp.bris_6f_pace, pp.bris_4f_pace)
    }
}

/// The three figures that are pooled.
#[derive(Debug, Clone, Copy, PartialEq, Eq)]
pub enum Figure {
    Speed,
    Early,
    Late,
}

/// One of the three figures of a past race.
pub open spec fn figure_of(pp: PastPerformanceView, which: Figure, dist_f: int) -> Option<int> {
    match which {
        Figure::Speed => pp.bris_speed_rating,
        Figure::Early => early_figure(pp, dist_f),
        Figure::Late => pp.bris_late_pace,
    }
}

/// One of the three figures of each race of a pool.
pub open spec fn pool_figures(pool: Seq<PastPerformanceView>, which: Figure, dist_f: int) -> Seq<
    Option<int>,
> {
    Seq::new(pool.len(), |i: int| figure_of(pool[i], which, dist_f))
}

/// A past race has a date.
pub open spec fn is_dated() -> spec_fn(PastPerformanceView) -> bool {
    |pp: PastPerformanceView| !blank(pp.race_date)
}

/// A past race was run on the surface `mode`.
pub open spec fn is_on(mode: SurfaceMode) -> spec_fn(PastPerformanceView) -> bool {
    |pp: PastPerformanceView| on_surface(mode, pp.surface)
}

/// The first five at most of a list of races.
pub open spec fn first_five(pps: Seq<PastPerformanceView>) -> Seq<PastPerformanceView> {
    pps.take(window(pps.len() as int))
}

/// The races whose figures are pooled: of the dated ones those on the
/// surface `mode` where there are two or more, else all; of these the
/// first five.
pub open spec fn figure_pool(pps: Seq<PastPerformanceView>, mode: SurfaceMode) -> Seq<
    PastPerformanceView,
> {
    let usable = pps.filter(is_dated());
    let same = usable.filter(is_on(mode));
    if same.len() >= 2 {
        first_five(same)
    } else {
        first_five(usable)
    }
}

/// The representative figures of a horse for a race on the surface `mode`.
pub open spec fn rep_figs(h: HorseView, race: RaceView, mode: SurfaceMode) -> RepFigsView {
    let pool = figure_pool(h.past_performances, mode);
    let d = furlongs(race.distance);
    RepFigsView {
        rep_speed: weighted_average(pool_figures(pool, Figure::Speed, d)),
        rep_early: weighted_average(pool_figures(pool, Figure::Early, d)),
        rep_late: weighted_average(pool_figures(pool, Figure::Late, d)),
    }
}

/// With fewer than two dated races on the surface, the pool is the first
/// five dated races, whatever their surface.
pub proof fn lemma_pool_falls_back(pps: Seq<PastPerformanceView>, mode: SurfaceMode)
    requires
        pps.filter(is_dated()).filter(is_on(mode)).len() < 2,
    ensures
        figure_pool(pps, mode) == first_five(pps.filter(is_dated())),
{
}

/// The pool never holds more than five races.
pub proof fn lemma_pool_is_small(pps: Seq<PastPerformanceView>, mode: SurfaceMode)
    ensures
        figure_pool(pps, mode).len() <= 5,
{
}

/// The mathematical content of a list of past races.
pub open spec fn pp_views(pps: Seq<&PastPerformance>) -> Seq<PastPerformanceView> {
    Seq::new(pps.len(), |i: int| pps[i]@)
}

fn dated_races(h: &Horse) -> (r: Vec<&PastPerformance>)
    ensures
        pp_views(r@) == h@.past_performances.filter(is_dated()),
{
    let ghost all = h@.past_performances;
    let mut usable: Vec<&PastPerformance> = Vec::new();
    let mut i: usize = 0;
    proof {
        reveal(Seq::filter);
        assert(all.take(0).filter(is_dated()) =~= pp_views(usable@));
    }
    while i < h.past_performances.len()
        invariant
            i <= h.past_performances.len(),
            all == h@.past_performances,
            all.len() == h.past_performances.len(),
            pp_views(usable@) == all.take(i as int).filter(is_dated()),
        decreases h.past_performances.len() - i,
    {
        let pp: &PastPerformance = &h.past_performances[i];
        let ghost before = pp_views(usable@);
        proof {
            lemma_filter_step(all, is_dated(), i as int);
            assert(all[i as int] == pp@);
        }
        if !is_blank(pp.race_date.as_str()) {
            usable.push(pp);
            assert(pp_views(usable@) =~= before.push(pp@));
        }
        i += 1;
    }
    assert(all.take(i as int) =~= all);
    usable
}

fn races_on<'a>(usable: &Vec<&'a PastPerformance>, mode: SurfaceMode) -> (r: Vec<
    &'a PastPerformance,
>)
    ensures
        pp_views(r@) == pp_views(usable@).filter(is_on(mode)),
{
    let ghost all = pp_views(usable@);
    let mut same: Vec<&PastPerformance> = Vec::new();
    let mut i: usize = 0;
    proof {
        reveal(Seq::filter);
        assert(all.take(0).filter(is_on(mode)) =~= pp_views(same@));
    }
    while i < usable.len()
        invariant
            i <= usable.len(),
            all == pp_views(usable@),
            pp_views(same@) == all.take(i as int).filter(is_on(mode)),
        decreases usable.len() - i,
    {
        let pp: &PastPerformance = usable[i];
        let ghost before = pp_views(same@);
        proof {
            lemma_filter_step(all, is_on(mode), i as int);
            assert(all[i as int] == pp@);
        }
        if surface_matches(mode, pp.surface.as_str()) {
            same.push(pp);
            assert(pp_views(same@) =~= before.push(pp@));
        }
        i += 1;
    }
    assert(all.take(i as int) =~= all);
    same
}

fn figures_of(chosen: &Vec<&PastPerformance>, which: Figure, dist_f: i64) -> (r: Vec<Option<u32>>)
    ensures
        figure_values(r@) == pool_figures(first_five(pp_views(chosen@)), which, dist_f as int),
{
    let n: usize = if chosen.len() < 5 {
        chosen.len()
    } else {
        5
    };
    let ghost pool = first_five(pp_views(chosen@));
    let mut out: Vec<Option<u32>> = Vec::new();
    let mut i: usize = 0;
    while i < n
        invariant
            i <= n,
            n == window(chosen@.len() as int),
            pool == first_five(pp_views(chosen@)),
            out@.len() == i,
            forall|k: int|
                0 <= k < i ==> opt_u32(#[trigger] out@[k]) == figure_of(
                    pool[k],
                    which,
                    dist_f as int,
                ),
        decreases n - i,
    {
        let pp: &PastPerformance = chosen[i];
        assert(pool[i as int] == pp@);
        let v = match which {
            Figure::Speed => pp.bris_speed_rating,
            Figure::Early => pick_early_fig(pp, dist_f),
            Figure::Late => pp.bris_late_pace,
        };
        out.push(v);
        i += 1;
    }
    assert(figure_values(out@) =~= pool_figures(pool, which, dist_f as int));
    out
}

/// Pools the recent figures of a horse into its representative figures.
pub fn representative_figures(h: &Horse, race: &Race, mode: SurfaceMode) -> (r: RepFigs)
    ensures
        r@ == rep_figs(h@, race@, mode),
        r@.is_valid(),
{
    let dist_f = yards_to_furlongs(race.distance);
    let usable = dated_races(h);
    let same = races_on(&usable, mode);
    let chosen = if same.len() >= 2 {
        same
    } else {
        usable
    };
    assert(first_five(pp_views(chosen@)) == figure_pool(h@.past_performances, mode));
    let speeds = figures_of(&chosen, Figure::Speed, dist_f);
    let earlies = figures_of(&chosen, Figure::Early, dist_f);
    let lates = figures_of(&chosen, Figure::Late, dist_f);
    RepFigs {
        rep_speed: weighted_avg(&speeds),
        rep_early: weighted_avg(&earlies),
        rep_late: weighted_avg(&lates),
    }
}

} // verus!
