//! Moments of time as dates of the Gregorian calendar.

use vstd::prelude::*;
use vstd::string::StringExecFns;
use crate::text::{decimal, decimal_string, join};

verus! {

/// Whether a year of the Gregorian calendar has 366 days.
pub open spec fn is_leap(year: int) -> bool {
    year % 4 == 0 && (year % 100 != 0 || year % 400 == 0)
}

/// The number of days of a year.
pub open spec fn days_in_year(year: int) -> int {
    if is_leap(year) {
        366
    } else {
        365
    }
}

/// The number of days of a month, the months counted from 1.
pub open spec fn days_in_month(year: int, month: int) -> int {
    if month == 2 {
        if is_leap(year) {
            29
        } else {
            28
        }
    } else if month == 4 || month == 6 || month == 9 || month == 11 {
        30
    } else {
        31
    }
}

/// The number of days from 1 January 1970 to 1 January of `year`.
pub open spec fn days_before_year(year: int) -> int
    decreases year,
{
    if year <= 1970 {
        0
    } else {
        days_before_year(year - 1) + days_in_year(year - 1)
    }
}

/// The number of days from 1 January of `year` to the first of `month`.
pub open spec fn days_before_month(year: int, month: int) -> int
    decreases month,
{
    if month <= 1 {
        0
    } else {
        days_before_month(year, month - 1) + days_in_month(year, month - 1)
    }
}

/// A moment of the UTC day count, to the second.
#[derive(Debug, Clone, Copy, PartialEq, Eq, Structural)]
pub struct UtcTime {
    pub year: u64,
    pub month: u8,
    pub day: u8,
    pub hour: u8,
    pub minute: u8,
    pub second: u8,
}

impl UtcTime {
    /// Whether the fields name a date from 1970 on and a time of day.
    pub open spec fn valid(self) -> bool {
        &&& self.year >= 1970
        &&& 1 <= self.month <= 12
        &&& 1 <= self.day <= days_in_month(self.year as int, self.month as int)
        &&& self.hour < 24
        &&& self.minute < 60
        &&& self.second < 60
    }

    /// The seconds from the start of 1970 to this moment.
    pub open spec fn unix_seconds(self) -> int {
        (days_before_year(self.year as int) + days_before_month(
            self.year as int,
            self.month as int,
        ) + self.day - 1) * 86400 + self.hour * 3600 + self.minute * 60 + self.second
    }

    /// The moment in the notation of ISO 8601, such as
    /// `2024-03-09T07:05:00Z`.
    pub open spec fn iso8601_text(self) -> Seq<char> {
        decimal(self.year as nat) + seq!['-'] + two_digits(self.month as nat) + seq!['-']
            + two_digits(self.day as nat) + seq!['T'] + two_digits(self.hour as nat) + seq![':']
            + two_digits(self.minute as nat) + seq![':'] + two_digits(self.second as nat)
            + seq!['Z']
    }

    /// The moment that lies `seconds` seconds after the start of 1970.
    pub fn from_unix(seconds: u64) -> (time: Self)
        ensures
            time.valid(),
            time.unix_seconds() == seconds,
    {
        let mut days = seconds / 86400;
        let rest = seconds % 86400;
        let mut year: u64 = 1970;
        while days >= year_length(year)
            invariant
                1970 <= year,
                year + days <= 1970 + seconds / 86400,
                days_before_year(year as int) + days == seconds / 86400,
            decreases days,
        {
            days = days - year_length(year);
            year = year + 1;
        }
        let mut month: u8 = 1;
        while days >= month_length(year, month)
            invariant
                1 <= month <= 12,
                days < days_in_year(year as int),
                days_before_year(year as int) + days_before_month(year as int, month as int)
                    + days == seconds / 86400,
                days + days_before_month(year as int, month as int) < days_in_year(year as int),
            decreases 12 - month,
        {
            proof {
                if month == 12 {
                    lemma_year_is_its_months(year as int);
                }
            }
            days = days - month_length(year, month);
            month = month + 1;
        }
        UtcTime {
            year,
            month,
            day: (days + 1) as u8,
            hour: (rest / 3600) as u8,
            minute: (rest % 3600 / 60) as u8,
            second: (rest % 60) as u8,
        }
    }

    /// Writes the moment in the notation of ISO 8601.
    pub fn iso8601(&self) -> (text: String)
        ensures
            text@ == self.iso8601_text(),
    {
        let mut text = decimal_string(self.year);
        text.append("-");
        text.append(two_digit_string(self.month).as_str());
        text.append("-");
        text.append(two_digit_string(self.day).as_str());
        text.append("T");
        text.append(two_digit_string(self.hour).as_str());
        text.append(":");
        text.append(two_digit_string(self.minute).as_str());
        text.append(":");
        text.append(two_digit_string(self.second).as_str());
        text.append("Z");
        proof {
            reveal_strlit("-");
            reveal_strlit("T");
            reveal_strlit(":");
            reveal_strlit("Z");
            assert("-"@ =~= seq!['-']);
            assert("T"@ =~= seq!['T']);
            assert(":"@ =~= seq![':']);
            assert("Z"@ =~= seq!['Z']);
        }
        text
    }
}

/// The decimal numeral of a number, with a zero before a single digit.
pub open spec fn two_digits(n: nat) -> Seq<char> {
    if n < 10 {
        seq!['0'] + decimal(n)
    } else {
        decimal(n)
    }
}

fn two_digit_string(n: u8) -> (text: String)
    ensures
        text@ == two_digits(n as nat),
{
    if n < 10 {
        proof {
            reveal_strlit("0");
            assert("0"@ =~= seq!['0']);
        }
        join("0", decimal_string(n as u64).as_str())
    } else {
        decimal_string(n as u64)
    }
}

fn year_length(year: u64) -> (days: u64)
    ensures
        days == days_in_year(year as int),
{
    if year % 4 == 0 && (year % 100 != 0 || year % 400 == 0) {
        366
    } else {
        365
    }
}

fn month_length(year: u64, month: u8) -> (days: u64)
    ensures
        days == days_in_month(year as int, month as int),
{
    if month == 2 {
        if year % 4 == 0 && (year % 100 != 0 || year % 400 == 0) {
            29
        } else {
            28
        }
    } else if month == 4 || month == 6 || month == 9 || month == 11 {
        30
    } else {
        31
    }
}

/// The twelve months of a year make up its days.
pub proof fn lemma_year_is_its_months(year: int)
    ensures
        days_before_month(year, 13) == days_in_year(year),
        forall|month: int|
            1 <= month <= 12 ==> #[trigger] days_before_month(year, month) + days_in_month(
                year,
                month,
            ) <= days_in_year(year),
{
    reveal_with_fuel(days_before_month, 14);
}

} // verus!
