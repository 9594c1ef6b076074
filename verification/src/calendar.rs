use chrono::{Datelike, Timelike};
use vstd::prelude::*;
use vstd::string::StringSliceAdditionalSpecFns;

verus! {

/// A calendar date in the proleptic Gregorian calendar.
#[derive(Clone, Copy, Debug, PartialEq, Eq, Structural)]
pub struct Date {
    pub year: i32,
    pub month: u32,
    pub day: u32,
}

/// A local date and time together with the UTC offset it was written in.
#[derive(Clone, Copy, Debug, PartialEq, Eq, Structural)]
pub struct OffsetDateTime {
    /// The local calendar date.
    pub date: Date,
    pub hour: u32,
    pub minute: u32,
    pub second: u32,
    /// Nanoseconds past the second; values of a billion and more mark a leap second.
    pub nanosecond: u32,
    /// Local time minus UTC, in seconds.
    pub offset_seconds: i32,
}

#[verifier::external_type_specification]
#[verifier::external_body]
pub struct ExParseError(chrono::ParseError);

/// What chrono's RFC 3339 parser makes of a text: `None` where it rejects it.
pub uninterp spec fn rfc3339_parse(text: Seq<char>) -> Option<OffsetDateTime>;

/// The value of an ASCII digit byte.
pub open spec fn digit_value(b: u8) -> int {
    b as int - 48
}

pub open spec fn is_ascii_digit(b: u8) -> bool {
    48 <= b <= 57
}

/// The bytes start with `YYYY-MM-DD`.
pub open spec fn has_date_prefix(bytes: Seq<u8>) -> bool {
    &&& bytes.len() >= 10
    &&& is_ascii_digit(bytes[0])
    &&& is_ascii_digit(bytes[1])
    &&& is_ascii_digit(bytes[2])
    &&& is_ascii_digit(bytes[3])
    &&& bytes[4] == 45u8
    &&& is_ascii_digit(bytes[5])
    &&& is_ascii_digit(bytes[6])
    &&& bytes[7] == 45u8
    &&& is_ascii_digit(bytes[8])
    &&& is_ascii_digit(bytes[9])
}

/// The date written as `YYYY-MM-DD` at the start of the bytes.
pub open spec fn leading_date(bytes: Seq<u8>) -> Date {
    Date {
        year: (1000 * digit_value(bytes[0]) + 100 * digit_value(bytes[1]) + 10 * digit_value(bytes[2])
            + digit_value(bytes[3])) as i32,
        month: (10 * digit_value(bytes[5]) + digit_value(bytes[6])) as u32,
        day: (10 * digit_value(bytes[8]) + digit_value(bytes[9])) as u32,
    }
}

/// Parses an RFC 3339 timestamp with `chrono::DateTime::parse_from_rfc3339` and
/// hands back its local date, time and offset.
///
/// Trusted: the result is the one `rfc3339_parse` names for the text, and an
/// accepted text is at least 19 bytes long and starts with `YYYY-MM-DD`, which
/// is the local date of the result (chrono reads the date from those bytes).
#[verifier::external_body]
pub(crate) fn parse_rfc3339(text: &str) -> (res: Result<OffsetDateTime, chrono::ParseError>)
    ensures
        match res {
            Ok(dt) => rfc3339_parse(text@) == Some(dt),
            Err(_) => rfc3339_parse(text@) is None,
        },
        res is Ok ==> text.spec_bytes().len() >= 19 && has_date_prefix(text.spec_bytes())
            && res->Ok_0.date == leading_date(text.spec_bytes()),
{
    match chrono::DateTime::parse_from_rfc3339(text) {
        Ok(dt) => Ok(OffsetDateTime {
            date: Date { year: dt.year(), month: dt.month(), day: dt.day() },
            hour: dt.hour(),
            minute: dt.minute(),
            second: dt.second(),
            nanosecond: dt.nanosecond(),
            offset_seconds: dt.offset().local_minus_utc(),
        }),
        Err(e) => Err(e),
    }
}

} // verus!
