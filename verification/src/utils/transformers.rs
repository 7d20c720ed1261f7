//! Dates of a race card, rewritten for display.

use crate::fixed_point::{decimal_string, decimal_text};
use crate::number::{all_digits, is_digit, parse_i32, parse_i32_in, parsed_i32};
use crate::text::{
    digits_in,
    find_char,
    keep_digits,
    lowercased,
    position_of,
    same_text,
    split_whitespace,
    to_lowercase,
    trim,
    trimmed,
    words_of,
};
use vstd::prelude::*;
use vstd::string::{StrSliceExecFns, StringExecFns};

verus! {

/// The rewriting of race-card dates.
pub struct Transformers;

/// A date of eight digits, year first.
pub open spec fn is_yyyymmdd(t: Seq<char>) -> bool {
    t.len() == 8 && all_digits(t)
}

/// The month, the day and the year of an eight-digit date, with slashes
/// between.
pub open spec fn month_day_year(t: Seq<char>) -> Seq<char> {
    t.subrange(4, 6) + "/"@ + t.subrange(6, 8) + "/"@ + t.subrange(0, 4)
}

/// What an eight-digit date becomes, the white space round it set aside;
/// `None` for any other text.
pub open spec fn reordered_date(value: Seq<char>) -> Option<Seq<char>> {
    if is_yyyymmdd(trimmed(value)) {
        Some(month_day_year(trimmed(value)))
    } else {
        None
    }
}

/// Whether a text is a date of eight digits.
pub fn is_eight_digits(t: &str) -> (r: bool)
    ensures
        r == is_yyyymmdd(t@),
{
    if t.unicode_len() != 8 {
        return false;
    }
    let mut i: usize = 0;
    while i < 8
        invariant
            i <= 8,
            t@.len() == 8,
            forall|j: int| 0 <= j < i ==> is_digit(#[trigger] t@[j]),
        decreases 8 - i,
    {
        let c: char = t.get_char(i);
        if c < '0' || c > '9' {
            return false;
        }
        i += 1;
    }
    true
}

/// Puts the month and the day of an eight-digit date before its year.
pub fn reorder(t: &str) -> (r: String)
    requires
        is_yyyymmdd(t@),
    ensures
        r@ == month_day_year(t@),
{
    let mut out = String::from_str(t.substring_char(4, 6));
    out.append("/");
    out.append(t.substring_char(6, 8));
    out.append("/");
    out.append(t.substring_char(0, 4));
    out
}

/// The name of a month, January being 1; of December for any number that
/// is no month.
pub open spec fn month_name(month: int) -> Seq<char> {
    if month == 1 {
        "January"@
    } else if month == 2 {
        "February"@
    } else if month == 3 {
        "March"@
    } else if month == 4 {
        "April"@
    } else if month == 5 {
        "May"@
    } else if month == 6 {
        "June"@
    } else if month == 7 {
        "July"@
    } else if month == 8 {
        "August"@
    } else if month == 9 {
        "September"@
    } else if month == 10 {
        "October"@
    } else if month == 11 {
        "November"@
    } else {
        "December"@
    }
}

/// The month that a name in lower case stands for.
pub open spec fn month_number(name: Seq<char>) -> Option<int> {
    if name == "january"@ {
        Some(1)
    } else if name == "february"@ {
        Some(2)
    } else if name == "march"@ {
        Some(3)
    } else if name == "april"@ {
        Some(4)
    } else if name == "may"@ {
        Some(5)
    } else if name == "june"@ {
        Some(6)
    } else if name == "july"@ {
        Some(7)
    } else if name == "august"@ {
        Some(8)
    } else if name == "september"@ {
        Some(9)
    } else if name == "october"@ {
        Some(10)
    } else if name == "november"@ {
        Some(11)
    } else if name == "december"@ {
        Some(12)
    } else {
        None
    }
}

/// The name of a day of the week, Sunday being 0; of Saturday for any
/// number that is no day.
pub open spec fn weekday_name(day: int) -> Seq<char> {
    if day == 0 {
        "Sunday"@
    } else if day == 1 {
        "Monday"@
    } else if day == 2 {
        "Tuesday"@
    } else if day == 3 {
        "Wednesday"@
    } else if day == 4 {
        "Thursday"@
    } else if day == 5 {
        "Friday"@
    } else {
        "Saturday"@
    }
}

/// What a month adds to the count of days that gives the day of the week.
pub open spec fn month_offset(month: int) -> int {
    if month == 1 || month == 5 {
        0
    } else if month == 2 || month == 6 {
        3
    } else if month == 3 || month == 11 {
        2
    } else if month == 4 || month == 7 {
        5
    } else if month == 8 {
        1
    } else if month == 9 {
        4
    } else if month == 10 {
        6
    } else {
        4
    }
}

/// A date has a day of the week here: a year from 1 on, a month, and a day
/// that is not negative.
pub open spec fn has_weekday(year: int, month: int, day: int) -> bool {
    year >= 1 && 1 <= month <= 12 && day >= 0
}

/// The day of the week of a date in the Gregorian calendar, Sunday being
/// 0: January and February count to the year before.
pub open spec fn weekday_index(year: int, month: int, day: int) -> int {
    let y = if month < 3 {
        year - 1
    } else {
        year
    };
    (y + y / 4 - y / 100 + y / 400 + month_offset(month) + day) % 7
}

/// A date given by its three numbers.
pub struct DateNumbers {
    pub year: int,
    pub month: int,
    pub day: int,
}

/// The parts of a text of the form `M/D/Y`: `None` unless the text has
/// exactly two slashes.
pub open spec fn slash_parts(n: Seq<char>) -> Option<(Seq<char>, Seq<char>, Seq<char>)> {
    let a = position_of(n, '/');
    let rest = n.subrange(a + 1, n.len() as int);
    let b = position_of(rest, '/');
    let last = rest.subrange(b + 1, rest.len() as int);
    if a < n.len() && b < rest.len() && position_of(last, '/') == last.len() {
        Some((n.subrange(0, a), rest.subrange(0, b), last))
    } else {
        None
    }
}

/// The date that three parts give, each read as a number; `None` where
/// one does not read or the date has no day of the week.
pub open spec fn slash_date(parts: (Seq<char>, Seq<char>, Seq<char>)) -> Option<DateNumbers> {
    match (parsed_i32(parts.0), parsed_i32(parts.1), parsed_i32(parts.2)) {
        (Some(m), Some(d), Some(y)) => if has_weekday(y as int, m as int, d as int) {
            Some(DateNumbers { year: y as int, month: m as int, day: d as int })
        } else {
            None
        },
        _ => None,
    }
}

/// A date written out with its day of the week: `Sunday, March 31, 2024`.
pub open spec fn long_date(date: DateNumbers) -> Seq<char> {
    weekday_name(weekday_index(date.year, date.month, date.day)) + ", "@ + month_name(date.month)
        + " "@ + decimal_text(date.day as nat) + ", "@ + decimal_text(date.year as nat)
}

/// The date that a text of the form `Month day, year` gives: the year is
/// what follows the first comma; the month and the day are the first two
/// words before it, the day read from its digits alone.
pub open spec fn named_date(n: Seq<char>) -> Option<DateNumbers> {
    let c = position_of(n, ',');
    let words = words_of(n.subrange(0, c));
    if c < n.len() && words.len() >= 2 {
        match (
            parsed_i32(trimmed(n.subrange(c + 1, n.len() as int))),
            month_number(lowercased(words[0])),
            parsed_i32(digits_in(words[1])),
        ) {
            (Some(y), Some(m), Some(d)) => if has_weekday(y as int, m, d as int) {
                Some(DateNumbers { year: y as int, month: m, day: d as int })
            } else {
                None
            },
            _ => None,
        }
    } else {
        None
    }
}

/// A date in its usual form: an eight-digit date with its month and day
/// before its year, any other text as it is.
pub open spec fn normalized_date(t: Seq<char>) -> Seq<char> {
    if is_yyyymmdd(t) {
        month_day_year(t)
    } else {
        t
    }
}

/// A date with its day of the week before it. A text with exactly two
/// slashes is read as `M/D/Y` and written out in full; any other text is
/// read as `Month day, year` and kept behind the day of the week.
pub open spec fn with_weekday(s: Seq<char>) -> Option<Seq<char>> {
    let n = normalized_date(trimmed(s));
    match slash_parts(n) {
        Some(parts) => match slash_date(parts) {
            Some(date) => Some(long_date(date)),
            None => None,
        },
        None => match named_date(n) {
            Some(date) => Some(
                weekday_name(weekday_index(date.year, date.month, date.day)) + ", "@ + n,
            ),
            None => None,
        },
    }
}

/// Gives the name of a month.
pub fn name_of_month(month: i32) -> (r: &'static str)
    ensures
        r@ == month_name(month as int),
{
    if month == 1 {
        "January"
    } else if month == 2 {
        "February"
    } else if month == 3 {
        "March"
    } else if month == 4 {
        "April"
    } else if month == 5 {
        "May"
    } else if month == 6 {
        "June"
    } else if month == 7 {
        "July"
    } else if month == 8 {
        "August"
    } else if month == 9 {
        "September"
    } else if month == 10 {
        "October"
    } else if month == 11 {
        "November"
    } else {
        "December"
    }
}

/// Reads the name of a month, given in lower case.
pub fn number_of_month(name: &str) -> (r: Option<i32>)
    ensures
        match r {
            Some(m) => month_number(name@) == Some(m as int),
            None => month_number(name@).is_none(),
        },
        r matches Some(m) ==> 1 <= m <= 12,
{
    if same_text(name, "january") {
        Some(1)
    } else if same_text(name, "february") {
        Some(2)
    } else if same_text(name, "march") {
        Some(3)
    } else if same_text(name, "april") {
        Some(4)
    } else if same_text(name, "may") {
        Some(5)
    } else if same_text(name, "june") {
        Some(6)
    } else if same_text(name, "july") {
        Some(7)
    } else if same_text(name, "august") {
        Some(8)
    } else if same_text(name, "september") {
        Some(9)
    } else if same_text(name, "october") {
        Some(10)
    } else if same_text(name, "november") {
        Some(11)
    } else if same_text(name, "december") {
        Some(12)
    } else {
        None
    }
}

/// Gives the name of a day of the week.
pub fn name_of_weekday(day: u8) -> (r: &'static str)
    ensures
        r@ == weekday_name(day as int),
{
    if day == 0 {
        "Sunday"
    } else if day == 1 {
        "Monday"
    } else if day == 2 {
        "Tuesday"
    } else if day == 3 {
        "Wednesday"
    } else if day == 4 {
        "Thursday"
    } else if day == 5 {
        "Friday"
    } else {
        "Saturday"
    }
}

/// Computes the day of the week of a date, Sunday being 0.
pub fn weekday(year: i32, month: i32, day: i32) -> (r: u8)
    requires
        has_weekday(year as int, month as int, day as int),
    ensures
        r == weekday_index(year as int, month as int, day as int),
        r < 7,
{
    let offset: i64 = if month == 1 || month == 5 {
        0
    } else if month == 2 || month == 6 {
        3
    } else if month == 3 || month == 11 {
        2
    } else if month == 4 || month == 7 {
        5
    } else if month == 8 {
        1
    } else if month == 9 {
        4
    } else if month == 10 {
        6
    } else {
        4
    };
    let y: i64 = if month < 3 {
        year as i64 - 1
    } else {
        year as i64
    };
    ((y + y / 4 - y / 100 + y / 400 + offset + day as i64) % 7) as u8
}

fn date_in_full(year: i32, month: i32, day: i32) -> (r: String)
    requires
        has_weekday(year as int, month as int, day as int),
    ensures
        r@ == long_date(DateNumbers { year: year as int, month: month as int, day: day as int }),
{
    let mut out = String::from_str(name_of_weekday(weekday(year, month, day)));
    out.append(", ");
    out.append(name_of_month(month));
    out.append(" ");
    let day_text = decimal_string(day as u128);
    out.append(day_text.as_str());
    out.append(", ");
    let year_text = decimal_string(year as u128);
    out.append(year_text.as_str());
    out
}

fn read_named_date(n: &str) -> (r: Option<(i32, i32, i32)>)
    ensures
        match r {
            Some((y, m, d)) => named_date(n@) == Some(
                DateNumbers { year: y as int, month: m as int, day: d as int },
            ) && has_weekday(y as int, m as int, d as int),
            None => named_date(n@).is_none(),
        },
{
    let len = n.unicode_len();
    let c = find_char(n, ',', 0);
    assert(n@.subrange(0, len as int) =~= n@);
    if c >= len {
        return None;
    }
    let words = split_whitespace(n.substring_char(0, c));
    if words.len() < 2 {
        return None;
    }
    assert(words.deep_view()[0] == words@[0]@);
    assert(words.deep_view()[1] == words@[1]@);
    let year = match parse_i32(trim(n.substring_char(c + 1, len))) {
        Some(y) => y,
        None => {
            return None;
        },
    };
    let month_text = to_lowercase(words[0].as_str());
    let day_text = keep_digits(words[1].as_str());
    let day = match parse_i32(day_text.as_str()) {
        Some(d) => d,
        None => {
            return None;
        },
    };
    let month = match number_of_month(month_text.as_str()) {
        Some(m) => m,
        None => {
            return None;
        },
    };
    if year >= 1 && day >= 0 {
        Some((year, month, day))
    } else {
        None
    }
}

fn read_slash_date(n: &str) -> (r: Option<Option<(i32, i32, i32)>>)
    ensures
        r.is_some() == slash_parts(n@).is_some(),
        r matches Some(date) ==> match date {
            Some((y, m, d)) => slash_date(slash_parts(n@).unwrap()) == Some(
                DateNumbers { year: y as int, month: m as int, day: d as int },
            ) && has_weekday(y as int, m as int, d as int),
            None => slash_date(slash_parts(n@).unwrap()).is_none(),
        },
{
    let len = n.unicode_len();
    let a = find_char(n, '/', 0);
    assert(n@.subrange(0, len as int) =~= n@);
    if a >= len {
        return None;
    }
    let b = find_char(n, '/', a + 1);
    let ghost rest = n@.subrange(a + 1, len as int);
    if b >= len {
        return None;
    }
    let ghost last = rest.subrange(b - a, rest.len() as int);
    assert(last =~= n@.subrange(b + 1, len as int));
    let third = find_char(n, '/', b + 1);
    if third < len {
        return None;
    }
    proof {
        assert(rest.subrange(0, b - a - 1) =~= n@.subrange(a + 1, b as int));
    }
    let month = parse_i32_in(n, 0, a);
    let day = parse_i32_in(n, a + 1, b);
    let year = parse_i32_in(n, b + 1, len);
    match (month, day, year) {
        (Some(m), Some(d), Some(y)) => {
            if y >= 1 && 1 <= m && m <= 12 && d >= 0 {
                Some(Some((y, m, d)))
            } else {
                Some(None)
            }
        },
        _ => Some(None),
    }
}

impl Transformers {
    /// Rewrites `YYYYMMDD` as `MM/DD/YYYY`.
    pub fn yyyymmdd_to_mmddyyyy(value: &str) -> (r: Option<String>)
        ensures
            r.deep_view() == reordered_date(value@),
    {
        let t = trim(value);
        if !is_eight_digits(t) {
            return None;
        }
        Some(reorder(t))
    }

    /// Puts the day of the week before a date.
    pub fn prepend_weekday(s: &str) -> (r: Option<String>)
        ensures
            r.deep_view() == with_weekday(s@),
    {
        let t = trim(s);
        let normalized = if is_eight_digits(t) {
            reorder(t)
        } else {
            String::from_str(t)
        };
        let n = normalized.as_str();
        match read_slash_date(n) {
            Some(date) => match date {
                Some((year, month, day)) => Some(date_in_full(year, month, day)),
                None => None,
            },
            None => match read_named_date(n) {
                Some((year, month, day)) => {
                    let mut out = String::from_str(name_of_weekday(weekday(year, month, day)));
                    out.append(", ");
                    out.append(n);
                    Some(out)
                },
                None => None,
            },
        }
    }
}

} // verus!
