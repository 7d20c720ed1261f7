use handicapper::analysis::bet_back::{best_bet_back_line, dist_to_furlongs};
use handicapper::analysis::trip_score::{
    apply_context_adjust, detect_trip_signals, raw_trip_score, score_trip_signals, TripSignals,
};
use handicapper::analysis::trip_text::{max_path_from_text, merged_trip_text, strip_date_prefix};
use handicapper::models::racecard::{Horse, PastPerformance};
use handicapper::text::contains_any;

fn past_race(extended: &str, short: &str) -> PastPerformance {
    PastPerformance {
        race_date: "01/15/2024".to_string(),
        track_code: "AQU".to_string(),
        surface: "D".to_string(),
        distance: Some(1320),
        trip_comment: short.to_string(),
        extended_start_comment: extended.to_string(),
        finish_between_lengths: None,
        finish_between_lengths_leader: None,
        bris_2f_pace: None,
        bris_4f_pace: None,
        bris_6f_pace: None,
        bris_late_pace: None,
        bris_speed_rating: None,
    }
}

fn runner(pps: Vec<PastPerformance>) -> Horse {
    Horse {
        program_number: "1".to_string(),
        horse_name: "Quiet Storm".to_string(),
        post_position: Some(1),
        scratched: false,
        bris_run_style: "E".to_string(),
        quirin_speed_points: Some(5),
        days_since_last_race: None,
        bris_prime_power_rating: None,
        trainer_jockey_combo_roi_meet: None,
        bris_turf_pedigree_rating: String::new(),
        past_performances: pps,
        workouts: vec![],
    }
}

fn no_signals() -> TripSignals {
    TripSignals {
        start_trouble: false,
        start_contact: false,
        traffic: false,
        bump: false,
        widest_path: None,
        pace_pressure: false,
        noncompetitive: false,
        dnf_like: false,
    }
}

#[test]
fn merge_strips_date_and_drops_repeated_short_comment() {
    let p = past_race("01-02-03 steadied, checked", "steadied");
    assert_eq!(merged_trip_text(&p), "steadied, checked");
}

#[test]
fn merge_appends_a_short_comment_that_is_new() {
    let p = past_race("  Wide trip ", " Bumped start ");
    assert_eq!(merged_trip_text(&p), "Wide trip; Bumped start");
}

#[test]
fn merge_drops_short_comment_without_regard_to_case() {
    let p = past_race("BUMPED START, 4w", "bumped");
    assert_eq!(merged_trip_text(&p), "BUMPED START, 4w");
}

#[test]
fn merge_of_blank_comments_is_empty() {
    assert_eq!(merged_trip_text(&past_race("   ", "")), "");
}

#[test]
fn merge_with_only_a_short_comment_is_that_comment() {
    assert_eq!(merged_trip_text(&past_race("", " checked ")), "checked");
}

#[test]
fn date_prefix_needs_white_space_after_it() {
    assert_eq!(strip_date_prefix("01-02-03 stumbled"), "stumbled");
    assert_eq!(strip_date_prefix("01-02-03"), "01-02-03");
    assert_eq!(strip_date_prefix("no date 01-02-03 here"), "no date 01-02-03 here");
}

#[test]
fn contains_any_looks_in_lower_case() {
    assert!(contains_any("He STUMBLED badly", &["bobbled", "stumbled"]));
    assert!(!contains_any("clean trip", &["bobbled", "stumbled"]));
    assert!(!contains_any("anything", &[]));
}

#[test]
fn widest_path_takes_the_larger_of_a_pair() {
    assert_eq!(max_path_from_text("raced 3-5w on the turn"), Some(5));
    assert_eq!(max_path_from_text("raced 5 - 3 w on the turn"), Some(5));
}

#[test]
fn widest_path_reads_single_and_post_forms() {
    assert_eq!(max_path_from_text("4w, bumped start"), Some(4));
    assert_eq!(max_path_from_text("came 6 wide"), Some(6));
    assert_eq!(max_path_from_text("7wd into stretch"), Some(7));
    assert_eq!(max_path_from_text("broke from 12p"), Some(12));
    assert_eq!(max_path_from_text("3W then 5PTH"), Some(5));
}

#[test]
fn widest_path_is_none_without_a_pattern() {
    assert_eq!(max_path_from_text("no trouble at all"), None);
    assert_eq!(max_path_from_text(""), None);
}

#[test]
fn wide_and_bumped_scores_two_point_seven() {
    let ts = raw_trip_score("4w, bumped start");
    assert_eq!(ts.raw, 2_700_000);
    assert!((ts.raw as f64 / 1e6 - 2.7).abs() < 1e-9);
    assert_eq!(ts.adj, 0);
    assert_eq!(ts.headline, "4w");
    assert_eq!(ts.why, vec!["bump/brush".to_string(), "wide_4w".to_string()]);
}

#[test]
fn every_rule_adds_its_points_and_its_tag() {
    let ts = raw_trip_score(
        "stumbled, squeezed, checked, brush, 3w, dueled, no factor, pulled up",
    );
    // 1.6 + 1.3 + 2.6 + 1.4 + 0.65 + 0.9 - 0.8
    assert_eq!(ts.raw, 7_650_000);
    assert_eq!(ts.headline, "traffic");
    assert_eq!(
        ts.why,
        vec![
            "start_trouble",
            "start_contact",
            "traffic/interference",
            "bump/brush",
            "wide_3w",
            "used/pace_pressure",
            "noncompetitive_phrase",
            "dnf_like",
        ]
    );
}

#[test]
fn raw_score_is_floored_at_zero() {
    let ts = raw_trip_score("no factor");
    assert_eq!(ts.raw, 0);
    assert_eq!(ts.why, vec!["noncompetitive_phrase"]);
    assert_eq!(ts.headline, "trip");
}

#[test]
fn headline_prefers_path_then_traffic_then_start() {
    assert_eq!(raw_trip_score("steadied 5w").headline, "5w");
    assert_eq!(raw_trip_score("hit gate, held up").headline, "traffic");
    assert_eq!(raw_trip_score("bobbled, 3w").headline, "bad start");
    assert_eq!(raw_trip_score("pressed").headline, "trip");
}

#[test]
fn path_below_three_earns_nothing() {
    let ts = raw_trip_score("2w throughout");
    assert_eq!(ts.raw, 0);
    assert!(ts.why.is_empty());
}

#[test]
fn signals_are_read_rule_by_rule() {
    let sig = detect_trip_signals("Off slow, 4-6w, unseated rider");
    assert_eq!(
        sig,
        TripSignals { start_trouble: true, widest_path: Some(6), dnf_like: true, ..no_signals() }
    );
}

#[test]
fn signals_score_without_any_text() {
    let ts = score_trip_signals(&TripSignals {
        bump: true,
        widest_path: Some(4),
        ..no_signals()
    });
    assert_eq!(ts.raw, 2_700_000);
    assert_eq!(ts.headline, "4w");
    let wide = score_trip_signals(&TripSignals { widest_path: Some(12), ..no_signals() });
    assert_eq!(wide.raw, 6_500_000);
    assert_eq!(wide.why, vec!["wide_12w"]);
    assert_eq!(wide.headline, "12w");
}

#[test]
fn close_finish_earns_a_bonus() {
    let mut p = past_race("", "bumped");
    p.finish_between_lengths = Some(3_000_000);
    let ts = apply_context_adjust(raw_trip_score("bumped"), &p);
    assert_eq!(ts.raw, 1_400_000);
    assert_eq!(ts.adj, 2_600_000);
    assert_eq!(ts.why, vec!["bump/brush", "close_finish_bonus"]);
}

#[test]
fn mid_finish_uses_the_margin_behind_the_leader() {
    let mut p = past_race("", "bumped");
    p.finish_between_lengths = Some(0);
    p.finish_between_lengths_leader = Some(5_500_000);
    let ts = apply_context_adjust(raw_trip_score("bumped"), &p);
    assert_eq!(ts.adj, 2_000_000);
    assert_eq!(ts.why, vec!["bump/brush", "mid_finish_bonus"]);
}

#[test]
fn unknown_margin_counts_as_a_big_defeat() {
    let p = past_race("", "bumped");
    let ts = apply_context_adjust(raw_trip_score("bumped"), &p);
    assert_eq!(ts.adj, 300_000);
    assert_eq!(ts.why, vec!["bump/brush", "big_defeat_clip"]);
}

#[test]
fn stopping_far_back_is_clipped_and_floored() {
    let mut p = past_race("bumped, gave way", "");
    p.finish_between_lengths = Some(12_000_000);
    let ts = apply_context_adjust(raw_trip_score("bumped, gave way"), &p);
    assert_eq!(ts.adj, 200_000);
    assert_eq!(ts.why, vec!["bump/brush", "stopped_clip"]);
    p.finish_between_lengths = Some(20_000_000);
    let ts = apply_context_adjust(raw_trip_score("bumped, gave way"), &p);
    assert_eq!(ts.adj, 0);
    assert_eq!(ts.why, vec!["bump/brush", "big_defeat_clip", "stopped_clip"]);
}

#[test]
fn margin_between_six_and_ten_changes_nothing() {
    let mut p = past_race("stopped", "");
    p.finish_between_lengths = Some(8_000_000);
    let ts = apply_context_adjust(raw_trip_score("checked"), &p);
    assert_eq!(ts.adj, 2_600_000);
    assert_eq!(ts.why, vec!["traffic/interference"]);
}

#[test]
fn fast_early_pace_with_slow_finish_earns_a_bonus() {
    let mut p = past_race("", "");
    p.finish_between_lengths = Some(7_000_000);
    p.bris_2f_pace = Some(85);
    p.bris_late_pace = Some(70);
    let ts = apply_context_adjust(raw_trip_score("bumped"), &p);
    assert_eq!(ts.adj, 1_800_000);
    assert_eq!(ts.why, vec!["bump/brush", "fast_early_context"]);
    p.bris_late_pace = Some(71);
    assert_eq!(apply_context_adjust(raw_trip_score("bumped"), &p).adj, 1_400_000);
    p.bris_late_pace = Some(0);
    assert_eq!(apply_context_adjust(raw_trip_score("bumped"), &p).adj, 1_400_000);
}

#[test]
fn scores_are_never_negative() {
    for text in ["", "no factor", "no threat, never involved", "stopped", "4w", "bumped"] {
        let mut p = past_race(text, "");
        p.finish_between_lengths = Some(30_000_000);
        let raw = raw_trip_score(text);
        assert!(raw.raw >= 0);
        let adj = apply_context_adjust(raw, &p);
        assert!(adj.raw >= 0);
        assert!(adj.adj >= 0);
    }
}

#[test]
fn furlongs_are_yards_over_220() {
    assert_eq!(dist_to_furlongs(Some(1320)), 6_000_000);
    assert_eq!(dist_to_furlongs(Some(1760)), 8_000_000);
    assert_eq!(dist_to_furlongs(Some(1430)), 6_500_000);
    assert_eq!(dist_to_furlongs(Some(1000)), 4_545_454);
    assert_eq!(dist_to_furlongs(Some(0)), 0);
    assert_eq!(dist_to_furlongs(Some(-220)), 0);
    assert_eq!(dist_to_furlongs(None), 0);
}

#[test]
fn bet_back_picks_the_greatest_adjusted_score() {
    let mut a = past_race("bumped", "");
    a.finish_between_lengths = Some(2_000_000);
    let mut b = past_race("01-02-03 checked, 4w", "steadied");
    b.finish_between_lengths = Some(1_000_000);
    b.surface = "T".to_string();
    b.distance = Some(1760);
    b.race_date = "02/20/2024".to_string();
    b.track_code = "GP".to_string();
    let c = past_race("", "");
    let pick = best_bet_back_line(&runner(vec![a, b, c])).unwrap();
    assert_eq!(pick.pp_index, 1);
    // 2.6 + 1.3 + 1.2
    assert_eq!(pick.score.raw, 3_900_000);
    assert_eq!(pick.score.adj, 5_100_000);
    assert_eq!(pick.adj_points, 7_650_000);
    assert_eq!(pick.score.headline, "4w");
    assert_eq!(pick.surface, "T");
    assert_eq!(pick.dist_f, 8_000_000);
    assert_eq!(pick.date, "02/20/2024");
    assert_eq!(pick.track, "GP");
}

#[test]
fn bet_back_keeps_the_first_of_equal_scores() {
    let mut a = past_race("bumped", "");
    a.finish_between_lengths = Some(2_000_000);
    let mut b = past_race("brush", "");
    b.finish_between_lengths = Some(1_000_000);
    let pick = best_bet_back_line(&runner(vec![past_race("", ""), a, b])).unwrap();
    assert_eq!(pick.pp_index, 1);
    assert_eq!(pick.score.adj, 2_600_000);
}

#[test]
fn bet_back_is_none_without_any_comment() {
    assert_eq!(best_bet_back_line(&runner(vec![past_race("", "  "), past_race(" ", "")])), None);
    assert_eq!(best_bet_back_line(&runner(vec![])), None);
}

#[test]
fn bet_back_takes_a_comment_that_scores_nothing() {
    let pick = best_bet_back_line(&runner(vec![past_race("clean trip", "")])).unwrap();
    assert_eq!(pick.pp_index, 0);
    assert_eq!(pick.score.adj, 0);
    assert_eq!(pick.adj_points, 0);
    assert_eq!(pick.score.headline, "trip");
}
