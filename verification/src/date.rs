use vstd::prelude::*;

verus! {

/// The first and the last year a calendar date can carry.
pub const MIN_YEAR: i32 = -262143;

pub const MAX_YEAR: i32 = 262142;

/// Leap years of the proleptic Gregorian calendar.
pub open spec fn leap_year(year: int) -> bool {
    year % 4 == 0 && (year % 100 != 0 || year % 400 == 0)
}

/// The number of days of a month, 0 for a month that does not exist.
pub open spec fn days_in_month(year: int, month: int) -> int {
    if month == 2 {
        if leap_year(year) {
            29
        } else {
            28
        }
    } else if month == 4 || month == 6 || month == 9 || month == 11 {
        30
    } else if 1 <= month <= 12 {
        31
    } else {
        0
    }
}

/// A calendar date, held as year, month and day of the month.
#[derive(Clone, Copy, Debug, PartialEq, Eq, Structural)]
pub struct Date {
    pub year: i32,
    pub month: u32,
    pub day: u32,
}

impl Date {
    /// The date exists in the calendar and its year can be carried.
    pub open spec fn valid(self) -> bool {
        &&& MIN_YEAR <= self.year <= MAX_YEAR
        &&& 1 <= self.month <= 12
        &&& 1 <= self.day <= days_in_month(self.year as int, self.month as int)
    }

    /// The date of the given year, month and day, if there is such a day.
    pub fn new(year: i32, month: u32, day: u32) -> (date: Option<Date>)
        ensures
            date == if (Date { year, month, day }).valid() {
                Some(Date { year, month, day })
            } else {
                None
            },
    {
        if year < MIN_YEAR || year > MAX_YEAR || month < 1 || month > 12 || day < 1 {
            return None;
        }
        let leap = year % 4 == 0 && (year % 100 != 0 || year % 400 == 0);
        let last: u32 = if month == 2 {
            if leap {
                29
            } else {
                28
            }
        } else if month == 4 || month == 6 || month == 9 || month == 11 {
            30
        } else {
            31
        };
        if day <= last {
            Some(Date { year, month, day })
        } else {
            None
        }
    }

    /// Reads a date written as year, month and day with `-` between them.
    pub fn parse(text: &str) -> (date: Option<Date>)
        ensures
            date == date_of_text(text@),
            date matches Some(d) ==> d.valid(),
    {
        date_from_str(text)
    }
}

/// What the `chrono` crate reads out of a text as a calendar date, or nothing
/// where the text is not a date.
pub uninterp spec fn date_of_text(text: Seq<char>) -> Option<Date>;

/// Calls `chrono::NaiveDate`'s `FromStr` and takes the date apart with
/// `Datelike::year`, `month` and `day`. The contract names the outcome, and
/// claims that a date that was read exists in the calendar and lies within the
/// years `chrono` can carry: the parser refuses every other text.
#[verifier::external_body]
pub(crate) fn date_from_str(text: &str) -> (date: Option<Date>)
    ensures
        date == date_of_text(text@),
        date matches Some(d) ==> d.valid(),
{
    match text.parse::<chrono::NaiveDate>() {
        Ok(parsed) => Some(
            Date {
                year: chrono::Datelike::year(&parsed),
                month: chrono::Datelike::month(&parsed),
                day: chrono::Datelike::day(&parsed),
            },
        ),
        Err(_) => None,
    }
}

} // verus!
