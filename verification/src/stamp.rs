//! The moment of a sale, as calendar date and time of day.

use vstd::prelude::*;

verus! {

/// Whether `year` is a leap year of the proleptic Gregorian calendar.
pub open spec fn is_leap_year(year: int) -> bool {
    year % 4 == 0 && (year % 100 != 0 || year % 400 == 0)
}

/// Number of days of `month` (1 to 12) in `year`.
pub open spec fn days_in_month(year: int, month: int) -> int {
    if month == 2 {
        if is_leap_year(year) {
            29
        } else {
            28
        }
    } else if month == 4 || month == 6 || month == 9 || month == 11 {
        30
    } else {
        31
    }
}

/// Calendar fields of a sale time.
pub struct SaleTimeView {
    pub year: int,
    pub month: int,
    pub day: int,
    pub hour: int,
    pub minute: int,
    pub second: int,
}

impl SaleTimeView {
    /// The fields name a real date between the years 0 and 9999 and a time
    /// of day without leap second.
    pub open spec fn is_valid(self) -> bool {
        &&& 0 <= self.year <= 9999
        &&& 1 <= self.month <= 12
        &&& 1 <= self.day <= days_in_month(self.year, self.month)
        &&& 0 <= self.hour < 24
        &&& 0 <= self.minute < 60
        &&& 0 <= self.second < 60
    }

    /// The text `DD-MM-YYYY HH:MM:SS`, every field padded with zeros.
    pub open spec fn text(self) -> Seq<char> {
        decimal(self.day, 2) + seq!['-'] + decimal(self.month, 2) + seq!['-'] + decimal(
            self.year,
            4,
        ) + seq![' '] + decimal(self.hour, 2) + seq![':'] + decimal(self.minute, 2) + seq![':']
            + decimal(self.second, 2)
    }
}

/// The calendar fields as a value of the model.
pub open spec fn civil_time(
    year: i32,
    month: u32,
    day: u32,
    hour: u32,
    minute: u32,
    second: u32,
) -> SaleTimeView {
    SaleTimeView {
        year: year as int,
        month: month as int,
        day: day as int,
        hour: hour as int,
        minute: minute as int,
        second: second as int,
    }
}

/// The decimal digit for a value below ten.
pub open spec fn decimal_digit(value: int) -> char {
    (('0' as u8) + value) as char
}

/// The last `width` decimal digits of `value`, most significant first.
pub open spec fn decimal(value: int, width: nat) -> Seq<char>
    decreases width,
{
    if width == 0 {
        Seq::empty()
    } else {
        decimal(value / 10, (width - 1) as nat).push(decimal_digit(value % 10))
    }
}

/// A validated point in time: the moment a sale was recorded.
#[derive(Clone, Copy, Debug, PartialEq, Eq)]
pub struct SaleTime {
    year: i32,
    month: u32,
    day: u32,
    hour: u32,
    minute: u32,
    second: u32,
}

impl View for SaleTime {
    type V = SaleTimeView;

    closed spec fn view(&self) -> SaleTimeView {
        civil_time(self.year, self.month, self.day, self.hour, self.minute, self.second)
    }
}

impl DeepView for SaleTime {
    type V = SaleTimeView;

    open spec fn deep_view(&self) -> SaleTimeView {
        self@
    }
}

/// Calls `chrono::Local::now` and reads the calendar fields of the local
/// time. The clock decides the result, so nothing is claimed about it.
#[verifier::external_body]
fn local_clock() -> (i32, u32, u32, u32, u32, u32) {
    let now = chrono::Local::now().naive_local();
    (
        chrono::Datelike::year(&now),
        chrono::Datelike::month(&now),
        chrono::Datelike::day(&now),
        chrono::Timelike::hour(&now),
        chrono::Timelike::minute(&now),
        chrono::Timelike::second(&now),
    )
}

/// Builds a `chrono::NaiveDateTime` with `NaiveDate::from_ymd_opt` and
/// `and_hms_opt`, and formats it with the pattern `%d-%m-%Y %H:%M:%S`.
/// The contract claims that chrono accepts every valid date of the years 0
/// to 9999 and writes each field in decimal, padded with zeros to two
/// digits (four for the year).
#[verifier::external_body]
fn chrono_format(year: i32, month: u32, day: u32, hour: u32, minute: u32, second: u32) -> (text:
    Option<String>)
    ensures
        civil_time(year, month, day, hour, minute, second).is_valid() ==> text is Some && text->0@
            == civil_time(year, month, day, hour, minute, second).text(),
{
    let date = chrono::NaiveDate::from_ymd_opt(year, month, day)?;
    let moment = date.and_hms_opt(hour, minute, second)?;
    Some(moment.format("%d-%m-%Y %H:%M:%S").to_string())
}

impl SaleTime {
    #[verifier::type_invariant]
    spec fn well_formed(self) -> bool {
        self@.is_valid()
    }

    /// The sale time with the given fields, if they name a real moment.
    pub fn new(year: i32, month: u32, day: u32, hour: u32, minute: u32, second: u32) -> (time:
        Option<SaleTime>)
        ensures
            time is Some <==> civil_time(year, month, day, hour, minute, second).is_valid(),
            time matches Some(t) ==> t@ == civil_time(year, month, day, hour, minute, second),
    {
        if year < 0 || year > 9999 || month < 1 || month > 12 || hour > 23 || minute > 59 || second
            > 59 {
            return None;
        }
        let leap = year % 4 == 0 && (year % 100 != 0 || year % 400 == 0);
        let days: u32 = if month == 2 {
            if leap {
                29
            } else {
                28
            }
        } else if month == 4 || month == 6 || month == 9 || month == 11 {
            30
        } else {
            31
        };
        if day < 1 || day > days {
            return None;
        }
        Some(SaleTime { year, month, day, hour, minute, second })
    }

    /// The local time of this machine, if its clock shows a year from 0 to 9999.
    pub fn now() -> (time: Option<SaleTime>)
        ensures
            time matches Some(t) ==> t@.is_valid(),
    {
        let (year, month, day, hour, minute, second) = local_clock();
        SaleTime::new(year, month, day, hour, minute, second)
    }

    pub fn year(&self) -> (value: i32)
        ensures
            value == self@.year,
    {
        self.year
    }

    pub fn month(&self) -> (value: u32)
        ensures
            value == self@.month,
    {
        self.month
    }

    pub fn day(&self) -> (value: u32)
        ensures
            value == self@.day,
    {
        self.day
    }

    pub fn hour(&self) -> (value: u32)
        ensures
            value == self@.hour,
    {
        self.hour
    }

    pub fn minute(&self) -> (value: u32)
        ensures
            value == self@.minute,
    {
        self.minute
    }

    pub fn second(&self) -> (value: u32)
        ensures
            value == self@.second,
    {
        self.second
    }

    /// The time as it is printed on a receipt: `DD-MM-YYYY HH:MM:SS`.
    pub fn format(&self) -> (text: String)
        ensures
            text@ == self@.text(),
    {
        proof {
            use_type_invariant(self);
        }
        let text = chrono_format(
            self.year,
            self.month,
            self.day,
            self.hour,
            self.minute,
            self.second,
        );
        text.unwrap()
    }
}

} // verus!
