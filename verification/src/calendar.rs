//! Calendar dates, read by the `chrono` crate.

use chrono::{Datelike, NaiveDate};
use vstd::prelude::*;

verus! {

/// The day number, counted from 1 January of year 1 as day 1 in the
/// proleptic Gregorian calendar, of the date that `NaiveDate::parse_from_str`
/// reads from `text` under `format`; `None` when it reads none.
pub uninterp spec fn date_day_number(text: Seq<char>, format: Seq<char>) -> Option<i32>;

/// `NaiveDate::parse_from_str`, the date handed out as its day number
/// (`Datelike::num_days_from_ce`). The contract only names the result; the
/// difference of two day numbers is the number of days between the dates.
#[verifier::external_body]
pub(crate) fn parse_date(text: &str, format: &str) -> (r: Option<i32>)
    ensures
        r == date_day_number(text@, format@),
{
    NaiveDate::parse_from_str(text, format).ok().map(|d| d.num_days_from_ce())
}

} // verus!
