use handicapper::fixed_point::{clamp, decimal_string, div_floor, format_two_decimals};
use handicapper::number::{parse_decimal, parse_i32, parse_i32_in, parse_u32, read_digits};
use handicapper::sqlite::racecards::placeholders;
use handicapper::text::{find_char, is_blank, keep_digits, remove_char, same_text, starts_with};
use handicapper::utils::transformers::{
    is_eight_digits, name_of_month, name_of_weekday, number_of_month, weekday, Transformers,
};

#[test]
fn division_rounds_toward_negative_infinity() {
    assert_eq!(div_floor(7, 2), 3);
    assert_eq!(div_floor(-7, 2), -4);
    assert_eq!(div_floor(-8, 2), -4);
    assert_eq!(div_floor(-1, 12), -1);
    assert_eq!(div_floor(0, 5), 0);
    assert_eq!(div_floor(i128::MIN, 1), i128::MIN);
    assert_eq!(div_floor(i128::MAX, i128::MAX), 1);
}

#[test]
fn clamp_limits_to_the_range() {
    assert_eq!(clamp(5, 0, 3), 3);
    assert_eq!(clamp(-5, 0, 3), 0);
    assert_eq!(clamp(2, 0, 3), 2);
}

#[test]
fn numbers_in_decimal() {
    assert_eq!(decimal_string(0), "0");
    assert_eq!(decimal_string(7), "7");
    assert_eq!(decimal_string(10), "10");
    assert_eq!(decimal_string(4_294_967_295), "4294967295");
    assert_eq!(decimal_string(u128::MAX), u128::MAX.to_string());
}

#[test]
fn two_decimals_round_to_the_nearest_hundredth() {
    assert_eq!(format_two_decimals(2_500_000), "2.50");
    assert_eq!(format_two_decimals(1_600_000), "1.60");
    assert_eq!(format_two_decimals(0), "0.00");
    assert_eq!(format_two_decimals(4_999), "0.00");
    assert_eq!(format_two_decimals(5_000), "0.01");
    assert_eq!(format_two_decimals(995_000), "1.00");
    assert_eq!(format_two_decimals(123_456_789), "123.46");
    assert_eq!(format_two_decimals(-150_000), "-0.15");
    assert_eq!(format_two_decimals(-4_999), "0.00");
    assert_eq!(format_two_decimals(-12_345_000), "-12.35");
    assert_eq!(
        format_two_decimals(i128::MIN),
        "-170141183460469231731687303715884.11"
    );
}

#[test]
fn unsigned_numbers() {
    assert_eq!(parse_u32("0"), Some(0));
    assert_eq!(parse_u32("12"), Some(12));
    assert_eq!(parse_u32("+7"), Some(7));
    assert_eq!(parse_u32("007"), Some(7));
    assert_eq!(parse_u32("4294967295"), Some(u32::MAX));
    assert_eq!(parse_u32("4294967296"), None);
    assert_eq!(parse_u32("99999999999999999999999"), None);
    assert_eq!(parse_u32(""), None);
    assert_eq!(parse_u32("+"), None);
    assert_eq!(parse_u32("-1"), None);
    assert_eq!(parse_u32("1 "), None);
    assert_eq!(parse_u32("1a"), None);
    assert_eq!(parse_u32("٣"), None);
    for text in ["0", "12", "+7", "007", "4294967296", "", "+", "-1", "1 ", "٣", "++1"] {
        assert_eq!(parse_u32(text), text.parse::<u32>().ok());
    }
}

#[test]
fn digits_within_a_text() {
    assert_eq!(read_digits("ab123cd", 2, 5, 1000), Some(123));
    assert_eq!(read_digits("ab123cd", 2, 5, 122), None);
    assert_eq!(read_digits("ab123cd", 2, 6, 1000), None);
    assert_eq!(read_digits("ab123cd", 3, 3, 1000), Some(0));
}

#[test]
fn decimal_numbers_in_millionths() {
    assert_eq!(parse_decimal("115"), Some(115_000_000));
    assert_eq!(parse_decimal("103.5"), Some(103_500_000));
    assert_eq!(parse_decimal("-0.25"), Some(-250_000));
    assert_eq!(parse_decimal("+1.000001"), Some(1_000_001));
    assert_eq!(parse_decimal("1.0000019"), Some(1_000_001));
    assert_eq!(parse_decimal(".5"), Some(500_000));
    assert_eq!(parse_decimal("5."), Some(5_000_000));
    assert_eq!(parse_decimal("1000000000000"), Some(1_000_000_000_000_000_000));
    assert_eq!(parse_decimal("1000000000001"), None);
    assert_eq!(parse_decimal(""), None);
    assert_eq!(parse_decimal("."), None);
    assert_eq!(parse_decimal("-"), None);
    assert_eq!(parse_decimal("1.2.3"), None);
    assert_eq!(parse_decimal("1e3"), None);
    assert_eq!(parse_decimal("12a"), None);
    assert_eq!(parse_decimal(" 12"), None);
}

#[test]
fn text_helpers() {
    assert!(is_blank(""));
    assert!(is_blank(" \t\n"));
    assert!(!is_blank(" x "));
    assert!(starts_with("EP5", "EP"));
    assert!(starts_with("EP", "EP"));
    assert!(starts_with("EP", ""));
    assert!(!starts_with("E", "EP"));
    assert!(!starts_with("PE", "EP"));
    assert!(same_text("CLO", "CLO"));
    assert!(!same_text("CLO", "CL"));
    assert!(!same_text("CLO", "CLX"));
    assert!(same_text("", ""));
    assert_eq!(remove_char("*11*5*", '*'), "115");
    assert_eq!(remove_char("", '*'), "");
    assert_eq!(remove_char("é*ü", '*'), "éü");
    assert_eq!(keep_digits("31st of 12"), "3112");
    assert_eq!(keep_digits("none"), "");
    assert_eq!(find_char("a,b,c", ',', 0), 1);
    assert_eq!(find_char("a,b,c", ',', 2), 3);
    assert_eq!(find_char("a,b,c", ',', 4), 5);
    assert_eq!(find_char("", ',', 0), 0);
}

#[test]
fn eight_digit_dates_are_reordered() {
    assert_eq!(Transformers::yyyymmdd_to_mmddyyyy("20240331"), Some("03/31/2024".to_string()));
    assert_eq!(Transformers::yyyymmdd_to_mmddyyyy(" 19991201\n"), Some("12/01/1999".to_string()));
    assert_eq!(Transformers::yyyymmdd_to_mmddyyyy("2024033"), None);
    assert_eq!(Transformers::yyyymmdd_to_mmddyyyy("202403311"), None);
    assert_eq!(Transformers::yyyymmdd_to_mmddyyyy("2024-03-31"), None);
    assert_eq!(Transformers::yyyymmdd_to_mmddyyyy("2024033a"), None);
    assert_eq!(Transformers::yyyymmdd_to_mmddyyyy(""), None);
    assert!(is_eight_digits("00000000"));
    assert!(!is_eight_digits("0000 000"));
}

#[test]
fn dates_get_their_day_of_the_week() {
    assert_eq!(
        Transformers::prepend_weekday("03/31/2024"),
        Some("Sunday, March 31, 2024".to_string())
    );
    assert_eq!(
        Transformers::prepend_weekday(" 20240331 "),
        Some("Sunday, March 31, 2024".to_string())
    );
    assert_eq!(
        Transformers::prepend_weekday("1/1/2000"),
        Some("Saturday, January 1, 2000".to_string())
    );
    assert_eq!(
        Transformers::prepend_weekday("02/29/2024"),
        Some("Thursday, February 29, 2024".to_string())
    );
    assert_eq!(
        Transformers::prepend_weekday("12/25/1999"),
        Some("Saturday, December 25, 1999".to_string())
    );
    assert_eq!(
        Transformers::prepend_weekday("07/04/1776"),
        Some("Thursday, July 4, 1776".to_string())
    );
}

#[test]
fn named_dates_keep_their_text() {
    assert_eq!(
        Transformers::prepend_weekday("March 31, 2024"),
        Some("Sunday, March 31, 2024".to_string())
    );
    assert_eq!(
        Transformers::prepend_weekday("  october 28th,  2026 "),
        Some("Wednesday, october 28th,  2026".to_string())
    );
    assert_eq!(
        Transformers::prepend_weekday("JUNE 3 or so, 2024"),
        Some("Monday, JUNE 3 or so, 2024".to_string())
    );
}

#[test]
fn texts_that_are_no_date_get_nothing() {
    assert_eq!(Transformers::prepend_weekday(""), None);
    assert_eq!(Transformers::prepend_weekday("tomorrow"), None);
    assert_eq!(Transformers::prepend_weekday("13/01/2024"), None);
    assert_eq!(Transformers::prepend_weekday("0/01/2024"), None);
    assert_eq!(Transformers::prepend_weekday("03/31/0"), None);
    assert_eq!(Transformers::prepend_weekday("03/-1/2024"), None);
    assert_eq!(Transformers::prepend_weekday("03/31"), None);
    assert_eq!(Transformers::prepend_weekday("03/31/2024/1"), None);
    assert_eq!(Transformers::prepend_weekday("03/x/2024"), None);
    assert_eq!(Transformers::prepend_weekday("March 31 2024"), None);
    assert_eq!(Transformers::prepend_weekday("March, 2024"), None);
    assert_eq!(Transformers::prepend_weekday("Marsh 31, 2024"), None);
    assert_eq!(Transformers::prepend_weekday("March x, 2024"), None);
    assert_eq!(Transformers::prepend_weekday("March 31, year"), None);
}

#[test]
fn a_slash_too_few_is_read_as_a_named_date() {
    assert_eq!(
        Transformers::prepend_weekday("May 5/6, 2024"),
        Some("Tuesday, May 5/6, 2024".to_string())
    );
}

#[test]
fn signed_numbers() {
    assert_eq!(parse_i32("-2147483648"), Some(i32::MIN));
    assert_eq!(parse_i32("2147483647"), Some(i32::MAX));
    assert_eq!(parse_i32("2147483648"), None);
    assert_eq!(parse_i32("-2147483649"), None);
    assert_eq!(parse_i32("+0"), Some(0));
    assert_eq!(parse_i32("-0"), Some(0));
    assert_eq!(parse_i32("-"), None);
    assert_eq!(parse_i32(""), None);
    assert_eq!(parse_i32("1-"), None);
    assert_eq!(parse_i32_in("a-12b", 1, 4), Some(-12));
    for text in ["-2147483648", "2147483648", "+0", "-0", "-", "", "1-", "0012", " 1", "--1"] {
        assert_eq!(parse_i32(text), text.parse::<i32>().ok());
    }
}

#[test]
fn parameter_lists() {
    assert_eq!(placeholders(0), "");
    assert_eq!(placeholders(1), "?");
    assert_eq!(placeholders(3), "?, ?, ?");
    assert_eq!(placeholders(43).len(), 43 * 3 - 2);
}

#[test]
fn days_of_the_week() {
    assert_eq!(weekday(2024, 3, 31), 0);
    assert_eq!(weekday(2026, 10, 28), 3);
    assert_eq!(weekday(1, 1, 1), 1);
    assert_eq!(weekday(1900, 2, 28), 3);
    assert_eq!(weekday(i32::MAX, 12, i32::MAX), 0);
    assert_eq!(name_of_weekday(6), "Saturday");
    assert_eq!(name_of_month(9), "September");
    assert_eq!(number_of_month("september"), Some(9));
    assert_eq!(number_of_month("September"), None);
}
