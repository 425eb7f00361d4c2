use vstd::prelude::*;
use crate::model::Date;
use chrono::Datelike;

verus! {

/// The calendar date that chrono reads from a `yyyy-mm-dd` text, as year,
/// month and day, or `None` where it reads none.
pub uninterp spec fn parsed_date(s: Seq<char>) -> Option<(int, int, int)>;

/// Relies on `<chrono::NaiveDate as FromStr>::from_str`: it reads a date from
/// the text alone, and every `NaiveDate` is a day of the calendar.
#[verifier::external_body]
pub(crate) fn parse_date(s: &str) -> (r: Option<Date>)
    ensures
        r.is_some() == parsed_date(s@).is_some(),
        r.is_some() ==> parsed_date(s@) == Some(r.unwrap().ymd()),
        r.is_some() ==> r.unwrap().wf(),
{
    match s.parse::<chrono::NaiveDate>() {
        Ok(d) => Some(Date { year: d.year(), month: d.month(), day: d.day() }),
        Err(_) => None,
    }
}

/// Relies on `chrono::Local::now` and `DateTime::date_naive`: today's date in
/// the local time zone, which is some day of the calendar.
#[verifier::external_body]
pub(crate) fn today() -> (r: Date)
    ensures
        r.wf(),
{
    let d = chrono::Local::now().date_naive();
    Date { year: d.year(), month: d.month(), day: d.day() }
}

} // verus!
