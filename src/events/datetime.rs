//! The vehicle's [`DateTime`], from identifier `0x350`.
//!
//! Whether a date exists and whether a time of day is valid is asked of
//! chrono, whose answers are stated below.

use vstd::prelude::*;

use super::{checked, outcome, Decoded, ParseError};
use crate::bytes::{be2, read_be_u16};
use crate::frame::{Frame, FrameView};

verus! {

/// The identifier date and time frames come from.
pub const DATETIME_ID: u32 = 0x350;

/// The payload length of a date and time frame.
pub const DATETIME_LEN: usize = 8;

/// Detail of the error for a date that does not exist.
pub const INVALID_DATE: &'static str = "invalid date";

/// Detail of the error for a time of day that does not exist.
pub const INVALID_TIME: &'static str = "invalid time";

/// Whether `y` is a leap year of the proleptic Gregorian calendar.
pub open spec fn is_leap_year(y: int) -> bool {
    y % 4 == 0 && (y % 100 != 0 || y % 400 == 0)
}

/// The number of days in month `m` (1 to 12) of year `y`.
pub open spec fn days_in_month(y: int, m: int) -> int {
    if m == 2 {
        if is_leap_year(y) {
            29
        } else {
            28
        }
    } else if m == 4 || m == 6 || m == 9 || m == 11 {
        30
    } else {
        31
    }
}

/// Whether year `y`, month `m` and day `d` name a day of the proleptic
/// Gregorian calendar within the years chrono represents.
pub open spec fn is_calendar_date(y: int, m: int, d: int) -> bool {
    -262143 <= y <= 262142 && 1 <= m <= 12 && 1 <= d <= days_in_month(y, m)
}

/// Whether hour `h`, minute `mi` and second `s` name a time of day (no leap
/// second).
pub open spec fn is_time_of_day(h: int, mi: int, s: int) -> bool {
    0 <= h < 24 && 0 <= mi < 60 && 0 <= s < 60
}

#[verifier::external_type_specification]
#[verifier::external_body]
pub struct ExNaiveDate(chrono::NaiveDate);

#[verifier::external_type_specification]
#[verifier::external_body]
pub struct ExNaiveDateTime(chrono::NaiveDateTime);

/// Relies on chrono's `NaiveDate::from_ymd_opt`: `None` exactly when the
/// calendar day does not exist, the month or day is invalid, or the year is
/// out of chrono's range (-262143 to 262142).
pub assume_specification[ chrono::NaiveDate::from_ymd_opt ](year: i32, month: u32, day: u32) -> (r:
    Option<chrono::NaiveDate>)
    ensures
        r is Some <==> is_calendar_date(year as int, month as int, day as int),
;

/// Relies on chrono's `NaiveDate::and_hms_opt`: `None` exactly on an invalid
/// hour, minute or second (no leap second is accepted here).
pub assume_specification[ chrono::NaiveDate::and_hms_opt ](
    date: &chrono::NaiveDate,
    hour: u32,
    min: u32,
    sec: u32,
) -> (r: Option<chrono::NaiveDateTime>)
    ensures
        r is Some <==> is_time_of_day(hour as int, min as int, sec as int),
;

/// A date and time as the vehicle reports it. It is always a day of the
/// calendar and a valid time of day.
#[derive(Debug, Clone, Copy, PartialEq, Eq, Structural)]
pub struct DateTime {
    pub(crate) year: u16,
    pub(crate) month: u8,
    pub(crate) day: u8,
    pub(crate) hour: u8,
    pub(crate) minute: u8,
    pub(crate) second: u8,
}

/// A date and time as plain numbers, for contracts.
pub ghost struct DateTimeView {
    pub year: int,
    pub month: int,
    pub day: int,
    pub hour: int,
    pub minute: int,
    pub second: int,
}

impl View for DateTime {
    type V = DateTimeView;

    open spec fn view(&self) -> DateTimeView {
        self.spec_view()
    }
}

impl DateTime {
    #[verifier::type_invariant]
    spec fn exists_in_calendar(self) -> bool {
        is_calendar_date(self.year as int, self.month as int, self.day as int) && is_time_of_day(
            self.hour as int,
            self.minute as int,
            self.second as int,
        )
    }

    /// The fields as numbers.
    pub open(crate) spec fn spec_view(self) -> DateTimeView {
        DateTimeView {
            year: self.year as int,
            month: self.month as int,
            day: self.day as int,
            hour: self.hour as int,
            minute: self.minute as int,
            second: self.second as int,
        }
    }

    /// The date and time of these fields.
    pub open(crate) spec fn spec_new(
        year: u16,
        month: u8,
        day: u8,
        hour: u8,
        minute: u8,
        second: u8,
    ) -> DateTime {
        DateTime { year, month, day, hour, minute, second }
    }

    /// The year.
    pub fn year(&self) -> (r: i32)
        ensures
            r == self@.year,
    {
        self.year as i32
    }

    /// The month, 1 to 12.
    pub fn month(&self) -> (r: u32)
        ensures
            r == self@.month,
    {
        self.month as u32
    }

    /// The day of the month, from 1.
    pub fn day(&self) -> (r: u32)
        ensures
            r == self@.day,
    {
        self.day as u32
    }

    /// The hour, 0 to 23.
    pub fn hour(&self) -> (r: u32)
        ensures
            r == self@.hour,
    {
        self.hour as u32
    }

    /// The minute, 0 to 59.
    pub fn minute(&self) -> (r: u32)
        ensures
            r == self@.minute,
    {
        self.minute as u32
    }

    /// The second, 0 to 59.
    pub fn second(&self) -> (r: u32)
        ensures
            r == self@.second,
    {
        self.second as u32
    }

    /// What a frame decodes to as a date and time: byte 0 the seconds, 1 the
    /// minutes, 2 the hours, 3 and 4 the year (big-endian), 5 the month and
    /// 6 the day. The date is checked before the time.
    pub open spec fn decode(f: FrameView) -> Decoded<DateTime> {
        let p = f.payload;
        let year = be2(p.subrange(3, 5));
        checked(
            f,
            DATETIME_ID,
            DATETIME_LEN,
            if !is_calendar_date(year, p[5] as int, p[6] as int) {
                Decoded::Invalid(INVALID_DATE@)
            } else if !is_time_of_day(p[2] as int, p[1] as int, p[0] as int) {
                Decoded::Invalid(INVALID_TIME@)
            } else {
                Decoded::Value(DateTime::spec_new(year as u16, p[5], p[6], p[2], p[1], p[0]))
            },
        )
    }

    /// Decodes a date and time frame.
    pub fn try_from(frame: Frame) -> (r: Result<DateTime, ParseError>)
        ensures
            outcome(r, frame, Self::decode(frame@)),
    {
        if frame.id() != DATETIME_ID {
            return Err(ParseError::Id { frame });
        }
        let data = frame.data();
        if data.len() != DATETIME_LEN {
            return Err(ParseError::Len { frame, expected: DATETIME_LEN });
        }
        let second = data[0];
        let minute = data[1];
        let hour = data[2];
        let year = read_be_u16(data, 3);
        let month = data[5];
        let day = data[6];
        let date = match chrono::NaiveDate::from_ymd_opt(year as i32, month as u32, day as u32) {
            Some(date) => date,
            None => return Err(ParseError::Data { frame, detail: INVALID_DATE.to_owned() }),
        };
        match date.and_hms_opt(hour as u32, minute as u32, second as u32) {
            Some(_) => Ok(DateTime { year, month, day, hour, minute, second }),
            None => Err(ParseError::Data { frame, detail: INVALID_TIME.to_owned() }),
        }
    }
}


/// [`DateTime::spec_new`] makes the date and time of its fields.
pub broadcast proof fn lemma_datetime_view(
    year: u16,
    month: u8,
    day: u8,
    hour: u8,
    minute: u8,
    second: u8,
)
    ensures
        #[trigger] DateTime::spec_new(year, month, day, hour, minute, second)@ == (DateTimeView {
            year: year as int,
            month: month as int,
            day: day as int,
            hour: hour as int,
            minute: minute as int,
            second: second as int,
        }),
{
}

} // verus!
