use vstd::prelude::*;

verus! {

/// A calendar date without a time of day.
#[derive(Clone, Copy, Debug, PartialEq, Eq, Structural)]
pub struct Date {
    pub year: i32,
    pub month: u32,
    pub day: u32,
}

/// Year, month and day that chrono reads from `text` under `format`, or `None`
/// where it refuses the text.
pub uninterp spec fn parsed_ymd(text: Seq<char>, format: Seq<char>) -> Option<(i32, u32, u32)>;

/// The days that chrono counts from the first calendar date to the second,
/// negative where the second is the earlier one, or `None` where one of the
/// two is no date of its calendar.
pub uninterp spec fn day_span(
    from_year: i32,
    from_month: u32,
    from_day: u32,
    to_year: i32,
    to_month: u32,
    to_day: u32,
) -> Option<i64>;

/// Calls `chrono::NaiveDate::parse_from_str` and takes year, month and day
/// out of the date it returns. Nothing is proved of it: the contract only
/// gives the outcome, which depends on the two texts alone, its name.
#[verifier::external_body]
fn parse_with_format(text: &str, format: &str) -> (r: Option<(i32, u32, u32)>)
    ensures
        r == parsed_ymd(text@, format@),
{
    match chrono::NaiveDate::parse_from_str(text, format) {
        Ok(d) => Some(
            (chrono::Datelike::year(&d), chrono::Datelike::month(&d), chrono::Datelike::day(&d)),
        ),
        Err(_) => None,
    }
}

/// Builds both dates with `chrono::NaiveDate::from_ymd_opt` and counts the
/// days between them with `chrono::NaiveDate::signed_duration_since` and
/// `chrono::TimeDelta::num_days`. Nothing is proved of it: the contract only
/// gives the outcome, which depends on the six numbers alone, its name.
#[verifier::external_body]
fn count_days(from: Date, to: Date) -> (r: Option<i64>)
    ensures
        r == day_span(from.year, from.month, from.day, to.year, to.month, to.day),
{
    let start = chrono::NaiveDate::from_ymd_opt(from.year, from.month, from.day)?;
    let end = chrono::NaiveDate::from_ymd_opt(to.year, to.month, to.day)?;
    Some(end.signed_duration_since(start).num_days())
}

impl Date {
    /// The date that a text in the form year-month-day stands for.
    pub open spec fn of_text(text: Seq<char>) -> Option<Date> {
        match parsed_ymd(text, "%Y-%m-%d"@) {
            Some((year, month, day)) => Some(Date { year, month, day }),
            None => None,
        }
    }

    /// The days from `self` to `later`.
    pub open spec fn span_to(self, later: Date) -> Option<i64> {
        day_span(self.year, self.month, self.day, later.year, later.month, later.day)
    }

    /// Reads a date written as year-month-day, month and day in one or two digits.
    pub fn parse(text: &str) -> (r: Option<Date>)
        ensures
            r == Date::of_text(text@),
    {
        match parse_with_format(text, "%Y-%m-%d") {
            Some((year, month, day)) => Some(Date { year, month, day }),
            None => None,
        }
    }

    /// Counts the days from `self` to `later`.
    pub fn days_until(&self, later: &Date) -> (r: Option<i64>)
        ensures
            r == self.span_to(*later),
    {
        count_days(*self, *later)
    }
}

} // verus!
