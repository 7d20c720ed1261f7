use handicapper::models::racecard::{Horse, PastPerformance, Race, Workout};
use handicapper::pace_model::advice::{classify_race, classify_scores, win_bet_suggestion};
use handicapper::pace_model::figures::{
    parse_run_style, pick_early_fig, representative_figures, surface_matches, weighted_avg,
    yards_to_furlongs,
};
use handicapper::pace_model::meta::derive_race_meta;
use handicapper::pace_model::order::{order_by_score, ranks_before};
use handicapper::pace_model::rank::{
    rank_race_auto, rank_race_dirt, rank_race_turf, sorted_scores, top_n_horses_by_score,
    top_two_scores,
};
use handicapper::pace_model::score::{
    parse_pedigree, score_horse_dirt, score_horse_turf, shape_weights,
};
use handicapper::pace_model::shape::{
    get_pars_for_race, pace_index, race_shape_dirt, race_shape_turf, shape_for, shape_tuning, Pars,
};
use handicapper::pace_model::types::{
    Confidence, HorseRank, RaceRankResult, RepFigs, RunStyle, Shape, SurfaceMode, WinBetOptions,
    WorkoutSig,
};
use handicapper::pace_model::workout::{
    parse_mmddyyyy, score_workouts, workout_in_window, workout_rank, workout_signal,
};

fn pp(surface: &str, speed: Option<u32>, four_f: Option<u32>, late: Option<u32>) -> PastPerformance {
    PastPerformance {
        race_date: "01/15/2024".to_string(),
        track_code: "AQU".to_string(),
        surface: surface.to_string(),
        distance: Some(1320),
        trip_comment: String::new(),
        extended_start_comment: String::new(),
        finish_between_lengths: None,
        finish_between_lengths_leader: None,
        bris_2f_pace: None,
        bris_4f_pace: four_f,
        bris_6f_pace: None,
        bris_late_pace: late,
        bris_speed_rating: speed,
    }
}

fn horse(number: &str, style: &str, quirin: Option<u32>, pps: Vec<PastPerformance>) -> Horse {
    Horse {
        program_number: number.to_string(),
        horse_name: format!("Horse {}", number),
        post_position: None,
        scratched: false,
        bris_run_style: style.to_string(),
        quirin_speed_points: quirin,
        days_since_last_race: None,
        bris_prime_power_rating: None,
        trainer_jockey_combo_roi_meet: None,
        bris_turf_pedigree_rating: String::new(),
        past_performances: pps,
        workouts: vec![],
    }
}

fn race(surface: &str, yards: Option<i32>, horses: Vec<Horse>) -> Race {
    Race {
        race_number: Some(3),
        distance: yards,
        surface: surface.to_string(),
        four_f_bris_pace_par: Some(90),
        six_f_bris_pace_par: Some(92),
        bris_speed_for_class: Some(85),
        bris_late_pace_par: Some(88),
        horses,
    }
}

fn field() -> Race {
    let mut one = horse("1", "E", Some(7), vec![pp("D", Some(90), Some(96), Some(85))]);
    one.bris_prime_power_rating = Some(110_000_000);
    one.days_since_last_race = Some(90);
    one.trainer_jockey_combo_roi_meet = Some(1_000_000);
    let two = horse("2", "P", Some(6), vec![pp("D", Some(85), Some(96), Some(88))]);
    let three = horse("3", "S", Some(2), vec![pp("D", Some(80), Some(96), Some(90))]);
    let four = horse("4", " e/p ", None, vec![pp("D", Some(83), Some(96), Some(86))]);
    race("D", Some(1320), vec![three, one, four, two])
}

fn row(number: &str, score: Option<i64>) -> HorseRank {
    HorseRank {
        program_number: number.to_string(),
        horse_name: format!("Horse {}", number),
        post_position: None,
        run_style: RunStyle::Unk,
        quirin: None,
        shape: Shape::Honest,
        score,
        rep: RepFigs { rep_speed: None, rep_early: None, rep_late: None },
        workout: WorkoutSig { recent_works: 0, top_rank_works: 0, score: 0 },
    }
}

fn result(scores: &[Option<i64>]) -> RaceRankResult {
    RaceRankResult {
        race_number: Some(1),
        surface_mode: SurfaceMode::Dirt,
        distance_f: 6_000_000,
        shape: Shape::Honest,
        pace_heat: 0,
        epi: 500_000,
        horses: scores
            .iter()
            .enumerate()
            .map(|(i, s)| row(&format!("{}", i + 1), *s))
            .collect(),
    }
}

fn work(date: &str, rank: Option<u32>, total: Option<u32>) -> Workout {
    Workout {
        date: date.to_string(),
        distance: Some(880),
        workouts_that_day_distance: total,
        rank,
    }
}

#[test]
fn run_style_codes() {
    assert_eq!(parse_run_style("E"), RunStyle::E);
    assert_eq!(parse_run_style(" e "), RunStyle::E);
    assert_eq!(parse_run_style("E/P"), RunStyle::E);
    assert_eq!(parse_run_style("E/8"), RunStyle::E);
    assert_eq!(parse_run_style("EP"), RunStyle::EP);
    assert_eq!(parse_run_style("ep5"), RunStyle::EP);
    assert_eq!(parse_run_style("P"), RunStyle::P);
    assert_eq!(parse_run_style("S"), RunStyle::S);
    assert_eq!(parse_run_style("c"), RunStyle::S);
    assert_eq!(parse_run_style("Clo"), RunStyle::S);
    assert_eq!(parse_run_style(""), RunStyle::Unk);
    assert_eq!(parse_run_style("NA"), RunStyle::Unk);
    assert_eq!(parse_run_style("PS"), RunStyle::Unk);
}

#[test]
fn surface_codes() {
    assert!(surface_matches(SurfaceMode::Dirt, " d "));
    assert!(surface_matches(SurfaceMode::Turf, "T"));
    assert!(!surface_matches(SurfaceMode::Turf, "D"));
    assert!(!surface_matches(SurfaceMode::Dirt, "DT"));
    assert!(!surface_matches(SurfaceMode::Dirt, ""));
}

#[test]
fn yards_become_furlongs() {
    assert_eq!(yards_to_furlongs(Some(1210)), 5_500_000);
    assert_eq!(yards_to_furlongs(Some(1650)), 7_500_000);
    assert_eq!(yards_to_furlongs(Some(1)), 4_545);
    assert_eq!(yards_to_furlongs(Some(-5)), 0);
    assert_eq!(yards_to_furlongs(None), 0);
}

#[test]
fn weighted_average_of_two_figures() {
    // (90 * 0.55 + 80 * 0.30) / 0.85 = 86.470588...
    assert_eq!(weighted_avg(&vec![Some(90), Some(80)]), Some(86_470_588));
}

#[test]
fn weighted_average_skips_gaps_and_rescales() {
    // (90 * 0.55 + 70 * 0.15) / 0.70 = 85.714285...
    assert_eq!(weighted_avg(&vec![Some(90), None, Some(70)]), Some(85_714_285));
    assert_eq!(weighted_avg(&vec![None, None, None, None, Some(77)]), Some(77_000_000));
}

#[test]
fn weighted_average_of_nothing_is_none() {
    assert_eq!(weighted_avg(&vec![]), None);
    assert_eq!(weighted_avg(&vec![None, None]), None);
}

#[test]
fn weighted_average_looks_at_five_figures_only() {
    let same = vec![Some(100), Some(100), Some(100), Some(100), Some(100), Some(0), Some(0)];
    assert_eq!(weighted_avg(&same), Some(100_000_000));
    assert_eq!(weighted_avg(&vec![None, None, None, None, None, Some(50)]), None);
    assert_eq!(
        weighted_avg(&vec![Some(u32::MAX), Some(u32::MAX)]),
        Some(u32::MAX as i64 * 1_000_000)
    );
}

#[test]
fn early_figure_follows_the_distance() {
    let mut p = pp("D", None, Some(4), None);
    p.bris_2f_pace = Some(2);
    p.bris_6f_pace = Some(6);
    assert_eq!(pick_early_fig(&p, 5_500_000), Some(2));
    assert_eq!(pick_early_fig(&p, 5_500_001), Some(4));
    assert_eq!(pick_early_fig(&p, 7_500_000), Some(4));
    assert_eq!(pick_early_fig(&p, 7_500_001), Some(6));
    p.bris_4f_pace = None;
    assert_eq!(pick_early_fig(&p, 6_000_000), Some(2));
    assert_eq!(pick_early_fig(&p, 9_000_000), Some(6));
    p.bris_2f_pace = None;
    assert_eq!(pick_early_fig(&p, 6_000_000), Some(6));
    assert_eq!(pick_early_fig(&p, 5_000_000), None);
    p.bris_6f_pace = None;
    p.bris_4f_pace = Some(4);
    assert_eq!(pick_early_fig(&p, 5_000_000), Some(4));
    assert_eq!(pick_early_fig(&p, 9_000_000), Some(4));
}

#[test]
fn one_turf_race_falls_back_to_the_mixed_pool() {
    let h = horse(
        "1",
        "E",
        None,
        vec![
            pp("T", Some(100), Some(95), Some(90)),
            pp("D", Some(80), Some(85), Some(80)),
            pp("D", Some(80), Some(85), Some(80)),
            pp("D", Some(80), Some(85), Some(80)),
            pp("D", Some(80), Some(85), Some(80)),
        ],
    );
    let figs = representative_figures(&h, &race("T", Some(1320), vec![]), SurfaceMode::Turf);
    // (100 * 0.55 + 80 * 0.58) / 1.13 = 89.734513...
    assert_eq!(figs.rep_speed, Some(89_734_513));
    // (95 * 0.55 + 85 * 0.58) / 1.13 = 89.867256...
    assert_eq!(figs.rep_early, Some(89_867_256));
    // (90 * 0.55 + 80 * 0.58) / 1.13 = 84.867256...
    assert_eq!(figs.rep_late, Some(84_867_256));
}

#[test]
fn two_races_on_the_surface_make_the_pool() {
    let h = horse(
        "1",
        "E",
        None,
        vec![
            pp("D", Some(60), None, None),
            pp("T", Some(100), None, None),
            pp("D", Some(60), None, None),
            pp("t", Some(90), None, None),
        ],
    );
    let figs = representative_figures(&h, &race("T", Some(1320), vec![]), SurfaceMode::Turf);
    // (100 * 0.55 + 90 * 0.30) / 0.85 = 96.470588...
    assert_eq!(figs.rep_speed, Some(96_470_588));
    assert_eq!(figs.rep_early, None);
    assert_eq!(figs.rep_late, None);
}

#[test]
fn races_without_a_date_are_not_pooled() {
    let mut undated = pp("D", Some(120), None, None);
    undated.race_date = "  ".to_string();
    let h = horse(
        "1",
        "E",
        None,
        vec![undated, pp("D", Some(90), None, None), pp("D", Some(80), None, None)],
    );
    let figs = representative_figures(&h, &race("D", Some(1320), vec![]), SurfaceMode::Dirt);
    assert_eq!(figs.rep_speed, Some(86_470_588));
}

#[test]
fn only_the_five_most_recent_races_are_pooled() {
    let mut pps = vec![];
    for _ in 0..5 {
        pps.push(pp("D", Some(80), None, None));
    }
    pps.push(pp("D", Some(200), None, None));
    let h = horse("1", "E", None, pps);
    let figs = representative_figures(&h, &race("D", Some(1320), vec![]), SurfaceMode::Dirt);
    assert_eq!(figs.rep_speed, Some(80_000_000));
}

#[test]
fn horse_without_races_has_no_figures() {
    let figs = representative_figures(
        &horse("1", "E", None, vec![]),
        &race("D", Some(1320), vec![]),
        SurfaceMode::Dirt,
    );
    assert_eq!(figs, RepFigs { rep_speed: None, rep_early: None, rep_late: None });
}

#[test]
fn pars_need_all_three_figures() {
    let mut r = race("D", Some(1320), vec![]);
    assert_eq!(get_pars_for_race(&r, 6_000_000), Some(Pars { speed: 85, early: 90, late: 88 }));
    assert_eq!(get_pars_for_race(&r, 7_500_001), Some(Pars { speed: 85, early: 92, late: 88 }));
    r.six_f_bris_pace_par = None;
    assert_eq!(get_pars_for_race(&r, 8_000_000), None);
    assert_eq!(get_pars_for_race(&r, 7_500_000), Some(Pars { speed: 85, early: 90, late: 88 }));
    r.bris_late_pace_par = None;
    assert_eq!(get_pars_for_race(&r, 6_000_000), None);
}

#[test]
fn pace_index_from_its_parts() {
    let dirt = shape_tuning(SurfaceMode::Dirt);
    // 3/4 * 0.70 + clamp((6 + 6) / 12) * 0.30
    assert_eq!(pace_index(&dirt, 3, 4, 6_000_000), 825_000);
    // 1/3 * 0.70 + clamp((-3 + 6) / 12) * 0.30 = 0.233333 + 0.075
    assert_eq!(pace_index(&dirt, 1, 3, -3_000_000), 308_333);
    assert_eq!(pace_index(&dirt, 0, 1, -90_000_000), 0);
    assert_eq!(pace_index(&dirt, 8, 8, 50_000_000), 1_000_000);
    let turf = shape_tuning(SurfaceMode::Turf);
    // 2/5 * 0.60 + clamp((1 + 4) / 10) * 0.40 = 0.24 + 0.20
    assert_eq!(pace_index(&turf, 2, 5, 1_000_000), 440_000);
}

#[test]
fn shape_thresholds() {
    let dirt = shape_tuning(SurfaceMode::Dirt);
    assert_eq!(shape_for(&dirt, 880_000), Shape::Meltdown);
    assert_eq!(shape_for(&dirt, 879_999), Shape::Fast);
    assert_eq!(shape_for(&dirt, 750_000), Shape::Fast);
    assert_eq!(shape_for(&dirt, 749_999), Shape::Honest);
    assert_eq!(shape_for(&dirt, 250_001), Shape::Honest);
    assert_eq!(shape_for(&dirt, 250_000), Shape::Slow);
    let turf = shape_tuning(SurfaceMode::Turf);
    assert_eq!(shape_for(&turf, 820_000), Shape::Meltdown);
    assert_eq!(shape_for(&turf, 680_000), Shape::Fast);
    assert_eq!(shape_for(&turf, 679_999), Shape::Honest);
    assert_eq!(shape_for(&turf, 220_000), Shape::Slow);
}

#[test]
fn shape_of_a_dirt_field() {
    assert_eq!(race_shape_dirt(&field()), (Shape::Fast, 3, 825_000));
}

#[test]
fn shape_of_a_turf_field() {
    // On turf six quirin points do not press the pace: 2/4 * 0.60, and the
    // early figures stand 6 over the par: clamp((6 + 4) / 10) * 0.40.
    assert_eq!(race_shape_turf(&field()), (Shape::Fast, 2, 700_000));
}

#[test]
fn scratched_horses_do_not_shape_the_race() {
    let mut r = field();
    r.horses[1].scratched = true;
    // 2/3 * 0.70 = 0.466666, and 0.30 for the early figures.
    assert_eq!(race_shape_dirt(&r), (Shape::Fast, 2, 766_666));
}

#[test]
fn empty_field_is_slow() {
    let r = race("D", Some(1320), vec![]);
    assert_eq!(race_shape_dirt(&r), (Shape::Slow, 0, 0));
    let mut no_pars = race("D", Some(1320), vec![]);
    no_pars.bris_speed_for_class = None;
    // Without pars the early figures count as level with the par: 6/12 * 0.30.
    assert_eq!(race_shape_dirt(&no_pars), (Shape::Slow, 0, 150_000));
    // On turf: 4/10 * 0.40.
    assert_eq!(race_shape_turf(&no_pars), (Shape::Slow, 0, 160_000));
}

#[test]
fn weights_by_surface_and_shape() {
    let w = shape_weights(SurfaceMode::Dirt, Shape::Meltdown);
    assert_eq!((w.speed, w.early, w.late), (400_000, 150_000, 450_000));
    let w = shape_weights(SurfaceMode::Dirt, Shape::Honest);
    assert_eq!((w.speed, w.early, w.late), (450_000, 300_000, 250_000));
    let w = shape_weights(SurfaceMode::Turf, Shape::Slow);
    assert_eq!((w.speed, w.early, w.late), (450_000, 250_000, 300_000));
    let w = shape_weights(SurfaceMode::Turf, Shape::Meltdown);
    assert_eq!((w.speed, w.early, w.late), (350_000, 100_000, 550_000));
}

#[test]
fn dirt_score_with_every_modifier() {
    let r = field();
    // 0.45 * 5 + 0.25 * 6 + 0.30 * -3 = 2.85; +1.0 prime power; -0.5 layoff; +0.25 roi.
    let (score, figs) = score_horse_dirt(&r.horses[1], &r, Shape::Fast);
    assert_eq!(score, Some(3_600_000));
    assert_eq!(
        figs,
        RepFigs {
            rep_speed: Some(90_000_000),
            rep_early: Some(96_000_000),
            rep_late: Some(85_000_000)
        }
    );
    // 0.45 * 5 + 0.30 * 6 + 0.25 * -3 = 3.3
    assert_eq!(score_horse_dirt(&r.horses[1], &r, Shape::Honest).0, Some(4_050_000));
}

#[test]
fn modifiers_are_capped() {
    let r = field();
    let mut h = horse("9", "E", None, vec![pp("D", Some(85), Some(90), Some(88))]);
    assert_eq!(score_horse_dirt(&h, &r, Shape::Honest).0, Some(0));
    h.days_since_last_race = Some(60);
    assert_eq!(score_horse_dirt(&h, &r, Shape::Honest).0, Some(0));
    h.days_since_last_race = Some(61);
    assert_eq!(score_horse_dirt(&h, &r, Shape::Honest).0, Some(-16_666));
    h.days_since_last_race = Some(400);
    assert_eq!(score_horse_dirt(&h, &r, Shape::Honest).0, Some(-1_500_000));
    h.days_since_last_race = None;
    h.trainer_jockey_combo_roi_meet = Some(9_000_000);
    assert_eq!(score_horse_dirt(&h, &r, Shape::Honest).0, Some(500_000));
    h.trainer_jockey_combo_roi_meet = Some(-9_000_000);
    assert_eq!(score_horse_dirt(&h, &r, Shape::Honest).0, Some(-500_000));
    h.trainer_jockey_combo_roi_meet = None;
    h.bris_prime_power_rating = Some(94_000_000);
    assert_eq!(score_horse_dirt(&h, &r, Shape::Honest).0, Some(-600_000));
    assert_eq!(score_horse_turf(&h, &r, Shape::Honest).0, Some(-500_000));
}

#[test]
fn turf_score_reads_the_pedigree_and_not_the_roi() {
    let r = race("T", Some(1760), vec![]);
    let mut h = horse("1", "S", None, vec![pp("T", Some(90), Some(70), Some(95))]);
    // 0.40 * 5 + 0.20 * (70 - 92) + 0.40 * 7 = 0.4
    assert_eq!(score_horse_turf(&h, &r, Shape::Honest).0, Some(400_000));
    h.bris_turf_pedigree_rating = "115*".to_string();
    assert_eq!(score_horse_turf(&h, &r, Shape::Honest).0, Some(900_000));
    h.trainer_jockey_combo_roi_meet = Some(2_000_000);
    assert_eq!(score_horse_turf(&h, &r, Shape::Honest).0, Some(900_000));
    h.bris_prime_power_rating = Some(112_000_000);
    assert_eq!(score_horse_turf(&h, &r, Shape::Honest).0, Some(1_900_000));
    h.days_since_last_race = Some(120);
    assert_eq!(score_horse_turf(&h, &r, Shape::Honest).0, Some(900_000));
    // 0.35 * 5 + 0.10 * -22 + 0.55 * 7 = 3.4, and 0.5 for the modifiers.
    assert_eq!(score_horse_turf(&h, &r, Shape::Meltdown).0, Some(3_900_000));
}

#[test]
fn pedigree_ratings() {
    assert_eq!(parse_pedigree("115*"), Some(115_000_000));
    assert_eq!(parse_pedigree(" *103.5 "), Some(103_500_000));
    assert_eq!(parse_pedigree("**"), None);
    assert_eq!(parse_pedigree(""), None);
    assert_eq!(parse_pedigree("n/a"), None);
    let r = race("T", Some(1320), vec![]);
    let mut h = horse("1", "S", None, vec![pp("T", Some(85), Some(90), Some(88))]);
    h.bris_turf_pedigree_rating = "160".to_string();
    assert_eq!(score_horse_turf(&h, &r, Shape::Honest).0, Some(800_000));
    h.bris_turf_pedigree_rating = "40".to_string();
    assert_eq!(score_horse_turf(&h, &r, Shape::Honest).0, Some(-500_000));
    h.bris_turf_pedigree_rating = "100*".to_string();
    assert_eq!(score_horse_turf(&h, &r, Shape::Honest).0, Some(0));
    assert_eq!(score_horse_dirt(&h, &r, Shape::Honest).0, Some(0));
}

#[test]
fn horse_is_unscorable_without_pars_or_figures() {
    let mut r = field();
    let h = horse("9", "E", None, vec![pp("D", Some(85), None, Some(88))]);
    let (score, figs) = score_horse_dirt(&h, &r, Shape::Honest);
    assert_eq!(score, None);
    assert_eq!(
        figs,
        RepFigs { rep_speed: Some(85_000_000), rep_early: None, rep_late: Some(88_000_000) }
    );
    r.bris_late_pace_par = None;
    let (score, figs) = score_horse_dirt(&r.horses[1], &r, Shape::Honest);
    assert_eq!(score, None);
    assert_eq!(figs, RepFigs { rep_speed: None, rep_early: None, rep_late: None });
}

#[test]
fn dates_read_as_day_numbers() {
    assert_eq!(parse_mmddyyyy("01/01/1970"), Some(719_163));
    assert_eq!(
        parse_mmddyyyy("03/31/2024").unwrap() - parse_mmddyyyy("03/01/2024").unwrap(),
        30
    );
    assert_eq!(parse_mmddyyyy("02/30/2024"), None);
    assert_eq!(parse_mmddyyyy("2024-03-31"), None);
    assert_eq!(parse_mmddyyyy(""), None);
}

#[test]
fn window_is_closed_at_both_ends_and_fails_open() {
    assert!(workout_in_window(Some(100), Some(100), 21));
    assert!(workout_in_window(Some(100), Some(79), 21));
    assert!(!workout_in_window(Some(100), Some(78), 21));
    assert!(!workout_in_window(Some(100), Some(101), 21));
    assert!(workout_in_window(None, Some(5), 21));
    assert!(workout_in_window(Some(100), None, 21));
    assert!(workout_in_window(None, None, 21));
    assert!(!workout_in_window(Some(i32::MAX), Some(i32::MIN), i64::MAX >> 40));
}

#[test]
fn top_rank_is_the_best_tenth() {
    assert_eq!(workout_rank(&work("", Some(1), Some(10))), (true, true));
    assert_eq!(workout_rank(&work("", Some(2), Some(10))), (true, false));
    assert_eq!(workout_rank(&work("", Some(3), Some(30))), (true, true));
    assert_eq!(workout_rank(&work("", Some(3), Some(29))), (true, false));
    assert_eq!(workout_rank(&work("", Some(0), Some(1))), (true, true));
    assert_eq!(workout_rank(&work("", Some(1), Some(0))), (false, false));
    assert_eq!(workout_rank(&work("", None, Some(10))), (false, false));
    assert_eq!(workout_rank(&work("", Some(1), None)), (false, false));
}

#[test]
fn workout_score_is_capped_at_three() {
    assert_eq!(score_workouts(0, 0), 0);
    assert_eq!(score_workouts(1, 1), 700_000);
    assert_eq!(score_workouts(3, 0), 300_000);
    assert_eq!(score_workouts(4, 4), 2_800_000);
    assert_eq!(score_workouts(5, 5), 3_000_000);
    assert_eq!(score_workouts(usize::MAX, usize::MAX), 3_000_000);
}

#[test]
fn one_work_in_the_window_and_one_before_it() {
    let mut h = horse("1", "E", None, vec![]);
    h.workouts = vec![
        work("03/01/2024", Some(1), Some(10)),
        work("02/25/2024", Some(1), Some(10)),
    ];
    let sig = workout_signal(&h, Some("03/31/2024"), 30);
    assert_eq!(sig, WorkoutSig { recent_works: 1, top_rank_works: 1, score: 700_000 });
    assert!((sig.score as f64 / 1e6 - 0.70).abs() < 1e-9);
}

#[test]
fn works_older_than_the_window_do_not_count() {
    let mut h = horse("1", "E", None, vec![]);
    h.workouts = vec![
        work("03/01/2024", Some(1), Some(10)),
        work("03/06/2024", Some(1), Some(10)),
    ];
    let sig = workout_signal(&h, Some("03/31/2024"), 21);
    assert_eq!(sig, WorkoutSig { recent_works: 0, top_rank_works: 0, score: 0 });
    let sig = workout_signal(&h, Some("03/31/2024"), 25);
    assert_eq!(sig, WorkoutSig { recent_works: 1, top_rank_works: 1, score: 700_000 });
}

#[test]
fn works_count_when_a_date_does_not_read() {
    let mut h = horse("1", "E", None, vec![]);
    h.workouts = vec![
        work("01/01/2020", Some(5), Some(10)),
        work("not a date", Some(1), Some(20)),
        work("04/15/2024", Some(1), Some(20)),
        work("03/30/2024", None, Some(20)),
    ];
    let sig = workout_signal(&h, Some("03/31/2024"), 21);
    assert_eq!(sig, WorkoutSig { recent_works: 1, top_rank_works: 1, score: 700_000 });
    let sig = workout_signal(&h, None, 21);
    assert_eq!(sig, WorkoutSig { recent_works: 3, top_rank_works: 2, score: 1_500_000 });
    let sig = workout_signal(&h, Some("soon"), 21);
    assert_eq!(sig, WorkoutSig { recent_works: 3, top_rank_works: 2, score: 1_500_000 });
}

#[test]
fn order_is_descending_stable_and_puts_absent_scores_last() {
    let keys = vec![Some(1), None, Some(3), Some(1), None, Some(3), Some(-7)];
    assert_eq!(order_by_score(&keys), vec![2, 5, 0, 3, 6, 1, 4]);
    assert_eq!(order_by_score(&vec![]), Vec::<usize>::new());
    assert_eq!(order_by_score(&vec![None, None]), vec![0, 1]);
    assert!(ranks_before(Some(2), Some(1)));
    assert!(ranks_before(Some(i64::MIN), None));
    assert!(!ranks_before(Some(1), Some(1)));
    assert!(!ranks_before(None, None));
    assert!(!ranks_before(None, Some(0)));
}

#[test]
fn dirt_ranking_of_a_field() {
    let mut r = field();
    r.horses[0].workouts = vec![work("03/20/2024", Some(1), Some(12))];
    let ranked = rank_race_dirt(&r, Some("03/31/2024"));
    assert_eq!(ranked.race_number, Some(3));
    assert_eq!(ranked.surface_mode, SurfaceMode::Dirt);
    assert_eq!(ranked.distance_f, 6_000_000);
    assert_eq!(ranked.shape, Shape::Fast);
    assert_eq!(ranked.pace_heat, 3);
    assert_eq!(ranked.epi, 825_000);
    let numbers: Vec<&str> = ranked.horses.iter().map(|h| h.program_number.as_str()).collect();
    assert_eq!(numbers, vec!["1", "2", "4", "3"]);
    let scores: Vec<Option<i64>> = ranked.horses.iter().map(|h| h.score).collect();
    assert_eq!(scores, vec![Some(3_600_000), Some(1_500_000), Some(0), Some(-150_000)]);
    let last = &ranked.horses[3];
    assert_eq!(last.horse_name, "Horse 3");
    assert_eq!(last.run_style, RunStyle::S);
    assert_eq!(last.quirin, Some(2));
    assert_eq!(last.shape, Shape::Fast);
    assert_eq!(last.rep.rep_late, Some(90_000_000));
    assert_eq!(last.workout, WorkoutSig { recent_works: 1, top_rank_works: 1, score: 700_000 });
    assert_eq!(ranked.horses[2].run_style, RunStyle::E);
}

#[test]
fn ranking_keeps_scratched_and_unscorable_horses() {
    let mut r = field();
    r.horses[1].scratched = true;
    r.horses.insert(0, horse("5", "P", None, vec![]));
    r.horses.push(horse("6", "P", None, vec![]));
    let ranked = rank_race_dirt(&r, None);
    let numbers: Vec<&str> = ranked.horses.iter().map(|h| h.program_number.as_str()).collect();
    assert_eq!(numbers, vec!["1", "2", "4", "3", "5", "6"]);
    assert_eq!(ranked.horses[4].score, None);
    assert_eq!(ranked.pace_heat, 2);
}

#[test]
fn auto_ranking_follows_the_surface_of_the_race() {
    let mut r = field();
    assert_eq!(rank_race_auto(&r, None), rank_race_dirt(&r, None));
    r.surface = " t ".to_string();
    assert_eq!(rank_race_auto(&r, None), rank_race_turf(&r, None));
    assert_eq!(rank_race_auto(&r, None).surface_mode, SurfaceMode::Turf);
    r.surface = "A".to_string();
    assert_eq!(rank_race_auto(&r, None).surface_mode, SurfaceMode::Dirt);
}

#[test]
fn sorted_scores_leave_out_absent_ones() {
    let r = result(&[Some(1_000_000), None, Some(3_000_000), Some(2_000_000)]);
    assert_eq!(sorted_scores(&r), vec![3_000_000, 2_000_000, 1_000_000]);
    assert_eq!(top_two_scores(&r), (Some(3_000_000), Some(2_000_000)));
    assert_eq!(top_two_scores(&result(&[None, Some(5)])), (Some(5), None));
    assert_eq!(top_two_scores(&result(&[])), (None, None));
}

#[test]
fn top_horses_by_score() {
    let r = result(&[Some(1_000_000), None, Some(3_000_000), Some(3_000_000)]);
    let top = top_n_horses_by_score(&r, 2);
    let numbers: Vec<&str> = top.iter().map(|h| h.program_number.as_str()).collect();
    assert_eq!(numbers, vec!["3", "4"]);
    assert_eq!(top[0], r.horses[2]);
    assert_eq!(top_n_horses_by_score(&r, 10).len(), 3);
    assert!(top_n_horses_by_score(&r, 0).is_empty());
}

#[test]
fn clear_leader_with_wide_spread_is_a_strong_single() {
    let r = result(&[Some(10_000_000), Some(7_500_000), Some(7_000_000), Some(6_000_000)]);
    assert_eq!(classify_race(&r), Confidence::StrongSingle);
    let shuffled = result(&[Some(7_000_000), Some(6_000_000), Some(10_000_000), Some(7_500_000)]);
    assert_eq!(classify_race(&shuffled), Confidence::StrongSingle);
}

#[test]
fn fewer_than_two_scores_are_unscorable() {
    assert_eq!(classify_race(&result(&[])), Confidence::Unscorable);
    assert_eq!(classify_race(&result(&[Some(9_000_000)])), Confidence::Unscorable);
    assert_eq!(classify_race(&result(&[None, Some(9_000_000), None])), Confidence::Unscorable);
    assert_eq!(classify_scores(&vec![]), Confidence::Unscorable);
}

#[test]
fn confidence_buckets() {
    // A gap of two points without four scores is no strong single.
    assert_eq!(classify_scores(&vec![5_000_000, 3_000_000, 1_000_000]), Confidence::Playable);
    // A gap of two points with a spread under three.
    assert_eq!(
        classify_scores(&vec![5_000_000, 3_000_000, 2_500_000, 2_100_000]),
        Confidence::Playable
    );
    assert_eq!(classify_scores(&vec![5_000_000, 3_500_000]), Confidence::Playable);
    assert_eq!(classify_scores(&vec![5_000_000, 3_500_001]), Confidence::Competitive);
    assert_eq!(classify_scores(&vec![5_000_000, 4_500_000]), Confidence::Competitive);
    assert_eq!(classify_scores(&vec![5_000_000, 4_500_001]), Confidence::WideOpen);
    assert_eq!(
        classify_scores(&vec![5_000_000, 4_900_000, 4_800_000, 3_500_000]),
        Confidence::Competitive
    );
    assert_eq!(
        classify_scores(&vec![5_000_000, 4_900_000, 4_800_000, 3_500_001]),
        Confidence::WideOpen
    );
    assert_eq!(classify_scores(&vec![i64::MAX, i64::MIN]), Confidence::Playable);
}

#[test]
fn win_bet_needs_top_score_and_gap() {
    let r = result(&[Some(900_000), Some(2_500_000)]);
    let bet = win_bet_suggestion(&r, None).unwrap();
    assert_eq!(bet.program_number, "2");
    assert_eq!(bet.horse_name, "Horse 2");
    assert_eq!(bet.min_odds, None);
    assert_eq!(bet.reason, "Top score 2.50 with strong separation (gap 1.60).");
    assert_eq!(win_bet_suggestion(&result(&[Some(1_900_000), Some(300_000)]), None), None);
    assert_eq!(win_bet_suggestion(&result(&[Some(2_500_000), Some(1_100_000)]), None), None);
    assert_eq!(win_bet_suggestion(&result(&[Some(2_500_000), None]), None), None);
    assert_eq!(win_bet_suggestion(&result(&[]), None), None);
}

#[test]
fn win_bet_options_can_be_set() {
    let defaults = WinBetOptions::default();
    assert_eq!(defaults, WinBetOptions { min_top_score: 2_000_000, min_gap: 1_500_000 });
    let r = result(&[Some(1_900_000), Some(1_000_000), Some(-5_000_000)]);
    assert_eq!(win_bet_suggestion(&r, Some(defaults)), None);
    let loose = WinBetOptions { min_top_score: 1_900_000, min_gap: 900_000 };
    let bet = win_bet_suggestion(&r, Some(loose)).unwrap();
    assert_eq!(bet.program_number, "1");
    assert_eq!(bet.reason, "Top score 1.90 with strong separation (gap 0.90).");
    let wide = win_bet_suggestion(
        &result(&[Some(i64::MAX), Some(i64::MIN)]),
        Some(WinBetOptions { min_top_score: 0, min_gap: i64::MAX }),
    )
    .unwrap();
    assert_eq!(
        wide.reason,
        "Top score 9223372036854.78 with strong separation (gap 18446744073709.55)."
    );
}

#[test]
fn report_on_a_field() {
    let meta = derive_race_meta(&field(), Some("03/31/2024"));
    assert_eq!(meta.race_number, Some(3));
    assert_eq!(meta.shape, Shape::Fast);
    assert_eq!(meta.epi, 825_000);
    assert_eq!(meta.top_score, Some(3_600_000));
    assert_eq!(meta.second_score, Some(1_500_000));
    assert_eq!(meta.gap_1_2, Some(2_100_000));
    assert_eq!(meta.spread_top_to_4, Some(3_750_000));
    assert_eq!(meta.confidence, Confidence::StrongSingle);
    let bet = meta.win_bet.unwrap();
    assert_eq!(bet.program_number, "1");
    assert_eq!(bet.reason, "Top score 3.60 with strong separation (gap 2.10).");
    assert_eq!(meta.race_rank_result, rank_race_dirt(&field(), Some("03/31/2024")));
}

#[test]
fn report_leaves_scratched_horses_out_of_the_scores() {
    let mut r = field();
    r.horses[1].scratched = true;
    let meta = derive_race_meta(&r, None);
    assert_eq!(meta.epi, 766_666);
    assert_eq!(meta.top_score, Some(1_500_000));
    assert_eq!(meta.second_score, Some(0));
    assert_eq!(meta.gap_1_2, Some(1_500_000));
    assert_eq!(meta.spread_top_to_4, None);
    assert_eq!(meta.confidence, Confidence::Playable);
    assert_eq!(meta.win_bet, None);
    assert_eq!(meta.race_rank_result.horses.len(), 4);
    assert_eq!(meta.race_rank_result.horses[0].program_number, "1");
    assert_eq!(meta.race_rank_result.horses[0].score, Some(3_600_000));
}

#[test]
fn report_on_an_empty_race_is_unscorable() {
    let meta = derive_race_meta(&race("T", None, vec![]), None);
    assert_eq!(meta.shape, Shape::Slow);
    assert_eq!(meta.top_score, None);
    assert_eq!(meta.gap_1_2, None);
    assert_eq!(meta.confidence, Confidence::Unscorable);
    assert_eq!(meta.win_bet, None);
    assert_eq!(meta.race_rank_result.surface_mode, SurfaceMode::Turf);
    assert_eq!(meta.race_rank_result.distance_f, 0);
}

#[test]
fn report_is_the_same_when_made_again() {
    let mut r = field();
    r.horses[2].scratched = true;
    r.horses[0].workouts = vec![work("03/20/2024", Some(1), Some(12))];
    let first = derive_race_meta(&r, Some("03/31/2024"));
    let second = derive_race_meta(&r, Some("03/31/2024"));
    assert_eq!(first, second);
    assert_eq!(derive_race_meta(&r.clone(), Some("03/31/2024")), first);
}

fn near(millionths: i64, value: f64) -> bool {
    (millionths as f64 / 1e6 - value).abs() < 1e-5
}

#[test]
fn weighted_average_agrees_with_the_formula_in_floating_point() {
    let weights = [0.55, 0.30, 0.15, 0.08, 0.05];
    let figures: [Option<u32>; 7] = [Some(91), None, Some(78), Some(103), Some(0), Some(66), None];
    for start in 0..figures.len() {
        for len in 0..=figures.len() - start {
            let values: Vec<Option<u32>> = figures[start..start + len].to_vec();
            let mut num = 0.0;
            let mut den = 0.0;
            for (v, w) in values.iter().zip(weights.iter()) {
                if let Some(v) = v {
                    num += *v as f64 * w;
                    den += w;
                }
            }
            match weighted_avg(&values) {
                Some(avg) => assert!(den > 0.0 && near(avg, num / den)),
                None => assert!(den == 0.0),
            }
        }
    }
}

#[test]
fn pace_index_agrees_with_the_formula_in_floating_point() {
    let clamp = |v: f64, lo: f64, hi: f64| v.max(lo).min(hi);
    for field in 1..9usize {
        for heat in 0..=field {
            for tenths in -150..150i64 {
                let versus_par = tenths as f64 / 10.0;
                let share = heat as f64 / field as f64;
                let dirt = clamp(
                    share * 0.70 + clamp((versus_par + 6.0) / 12.0, 0.0, 1.0) * 0.30,
                    0.0,
                    1.0,
                );
                let turf = clamp(
                    share * 0.60 + clamp((versus_par + 4.0) / 10.0, 0.0, 1.0) * 0.40,
                    0.0,
                    1.0,
                );
                let in_millionths = tenths * 100_000;
                let d = pace_index(&shape_tuning(SurfaceMode::Dirt), heat, field, in_millionths);
                let t = pace_index(&shape_tuning(SurfaceMode::Turf), heat, field, in_millionths);
                assert!(near(d, dirt));
                assert!(near(t, turf));
                assert!((0..=1_000_000).contains(&d) && (0..=1_000_000).contains(&t));
            }
        }
    }
}

#[test]
fn scores_agree_with_the_formula_in_floating_point() {
    let r = field();
    let weights = [
        (Shape::Honest, 0.45, 0.30, 0.25),
        (Shape::Slow, 0.45, 0.40, 0.15),
        (Shape::Fast, 0.45, 0.25, 0.30),
        (Shape::Meltdown, 0.40, 0.15, 0.45),
    ];
    for (speed, early, late) in [(97u32, 71u32, 104u32), (60, 120, 33), (85, 90, 88)] {
        for (prime, lay, roi) in [(101.7, 75u32, -0.37), (88.3, 30, 1.99), (131.0, 365, 3.3)] {
            let mut h = horse(
                "9",
                "E",
                None,
                vec![
                    pp("D", Some(speed), Some(early), Some(late)),
                    pp("D", Some(late), Some(speed), Some(early)),
                ],
            );
            h.bris_prime_power_rating = Some((prime * 1e6_f64).round() as i64);
            h.days_since_last_race = Some(lay);
            h.trainer_jockey_combo_roi_meet = Some((roi * 1e6_f64).round() as i64);
            let avg = |a: u32, b: u32| (a as f64 * 0.55 + b as f64 * 0.30) / 0.85;
            for (shape, ws, we, wl) in weights {
                let mut want = ws * (avg(speed, late) - 85.0)
                    + we * (avg(early, speed) - 90.0)
                    + wl * (avg(late, early) - 88.0);
                want += (prime - 100.0) / 10.0;
                if lay > 60 {
                    want -= ((lay - 60) as f64 / 60.0).min(1.5);
                }
                want += (roi / 4.0_f64).max(-0.5).min(0.5);
                let got = score_horse_dirt(&h, &r, shape).0.unwrap();
                assert!(near(got, want), "{} against {}", got, want);
            }
        }
    }
}
