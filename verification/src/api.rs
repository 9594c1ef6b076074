use vstd::prelude::*;
use vstd::utf8::encode_utf8;

use crate::calendar::{
    has_date_prefix, leading_date, parse_rfc3339, rfc3339_parse, Date, OffsetDateTime,
};
use crate::state::PresenceStatus;

verus! {

/// Errors of the API layer that the library decides.
#[derive(Debug)]
pub enum Error {
    /// The start date of a presence record is not an RFC 3339 timestamp.
    ParseDate { source: chrono::ParseError, value: String },
    /// The API answered with `success: false`.
    ApiUnsuccessful,
    /// The API answer has no `data` field.
    MissingData,
    /// The account has no kids.
    NoKids,
    /// The login answer carried no session cookie.
    NoSessionCookie,
    /// The session expired (HTTP 401).
    SessionExpired,
    /// The API answered with an unexpected HTTP status.
    UnexpectedStatus { status: u16 },
}

/// Wrapper for all API responses.
#[derive(Debug)]
pub struct ApiResponse<T> {
    pub success: bool,
    pub data: Option<T>,
}

/// User data returned from the login endpoint.
#[derive(Debug)]
pub struct LoginData {
    pub firstname: String,
    pub lastname: String,
}

/// A child record from the kids endpoint.
#[derive(Debug)]
pub struct Kid {
    pub id: String,
    pub firstname: String,
    pub kid_group: Option<String>,
}

/// Paginated presences wrapper.
#[derive(Debug)]
pub struct PresencesData {
    pub rows: Vec<PresenceRecord>,
}

/// A single presence (check-in/check-out) record.
#[derive(Debug)]
pub struct PresenceRecord {
    pub date_start: String,
    pub date_end: Option<String>,
}

/// Accepts a login answer: it must report success and carry data.
pub fn login_data(response: ApiResponse<LoginData>) -> (res: Result<LoginData, Error>)
    ensures
        !response.success ==> res matches Err(Error::ApiUnsuccessful),
        response.success && response.data is None ==> res matches Err(Error::MissingData),
        response.success && response.data is Some ==> res == Ok::<LoginData, Error>(
            response.data->Some_0,
        ),
{
    if !response.success {
        return Err(Error::ApiUnsuccessful);
    }
    match response.data {
        Some(data) => Ok(data),
        None => Err(Error::MissingData),
    }
}

/// Takes the first kid out of a kids answer.
pub fn first_kid(response: ApiResponse<Vec<Kid>>) -> (res: Result<Kid, Error>)
    ensures
        response.data is None ==> res matches Err(Error::MissingData),
        response.data is Some && response.data->Some_0@.len() == 0 ==> res matches Err(
            Error::NoKids,
        ),
        response.data is Some && response.data->Some_0@.len() > 0 ==> res == Ok::<Kid, Error>(
            response.data->Some_0@[0],
        ),
{
    match response.data {
        None => Err(Error::MissingData),
        Some(kids) => {
            let mut kids = kids;
            if kids.len() == 0 {
                Err(Error::NoKids)
            } else {
                Ok(kids.remove(0))
            }
        },
    }
}

/// Takes the presences out of a presences answer.
pub fn presences_data(response: ApiResponse<PresencesData>) -> (res: Result<PresencesData, Error>)
    ensures
        response.data is None ==> res matches Err(Error::MissingData),
        response.data is Some ==> res == Ok::<PresencesData, Error>(response.data->Some_0),
{
    match response.data {
        Some(data) => Ok(data),
        None => Err(Error::MissingData),
    }
}

/// Checked in when the start of an open record falls on `today`.
pub open spec fn status_on(start: Date, today: Date) -> PresenceStatus {
    if start == today {
        PresenceStatus::CheckedIn
    } else {
        PresenceStatus::CheckedOut
    }
}

/// The status that the newest presence record gives for `today`; `None` where
/// its start date cannot be parsed.
pub open spec fn expected_status(records: Seq<PresenceRecord>, today: Date) -> Option<
    PresenceStatus,
> {
    if records.len() == 0 {
        Some(PresenceStatus::CheckedOut)
    } else if records[0].date_end is Some {
        Some(PresenceStatus::CheckedOut)
    } else {
        match rfc3339_parse(records[0].date_start@) {
            None => None,
            Some(start) => Some(status_on(start.date, today)),
        }
    }
}

/// Turns the parsed start of an open record into the status for `today`, or
/// the start text's parse error into `ParseDate`.
pub fn status_from_start(
    parsed: Result<OffsetDateTime, chrono::ParseError>,
    date_start: &str,
    today: Date,
) -> (res: Result<PresenceStatus, Error>)
    ensures
        match parsed {
            Ok(start) => res == Ok::<PresenceStatus, Error>(status_on(start.date, today)) && (start.date
                == today ==> res == Ok::<PresenceStatus, Error>(PresenceStatus::CheckedIn)) && (
            start.date != today ==> res == Ok::<PresenceStatus, Error>(PresenceStatus::CheckedOut)),
            Err(e) => res matches Err(Error::ParseDate { source, value }) && source == e
                && value@ == date_start@,
        },
{
    match parsed {
        Ok(start) => {
            if start.date == today {
                Ok(PresenceStatus::CheckedIn)
            } else {
                Ok(PresenceStatus::CheckedOut)
            }
        },
        Err(e) => Err(Error::ParseDate { source: e, value: date_start.to_owned() }),
    }
}

/// Determines the current presence status from the most recent presence record.
///
/// Returns `CheckedIn` if the newest record has no `date_end` and `date_start` is today.
/// Returns `CheckedOut` in all other cases (ended record, wrong date, no records).
pub fn determine_status(records: &[PresenceRecord], today: Date) -> (res: Result<
    PresenceStatus,
    Error,
>)
    ensures
        res is Ok <==> expected_status(records@, today) is Some,
        res matches Ok(status) ==> expected_status(records@, today) == Some(status),
        res matches Err(e) ==> e matches Error::ParseDate { value, .. } && value@
            == records@[0].date_start@,
        records@.len() == 0 ==> res == Ok::<PresenceStatus, Error>(PresenceStatus::CheckedOut),
        records@.len() > 0 && records@[0].date_end is Some ==> res == Ok::<PresenceStatus, Error>(
            PresenceStatus::CheckedOut,
        ),
        records@.len() > 0 && records@[0].date_end is None && rfc3339_parse(records@[0].date_start@)
            is Some && rfc3339_parse(records@[0].date_start@)->Some_0.date == today ==> res == Ok::<
            PresenceStatus,
            Error,
        >(PresenceStatus::CheckedIn),
        records@.len() > 0 && records@[0].date_end is None && rfc3339_parse(records@[0].date_start@)
            is Some && rfc3339_parse(records@[0].date_start@)->Some_0.date != today ==> res == Ok::<
            PresenceStatus,
            Error,
        >(PresenceStatus::CheckedOut),
        res == Ok::<PresenceStatus, Error>(PresenceStatus::CheckedIn) ==> records@.len() > 0
            && records@[0].date_end is None && has_date_prefix(encode_utf8(records@[0].date_start@))
            && leading_date(encode_utf8(records@[0].date_start@)) == today,
{
    if records.len() == 0 {
        return Ok(PresenceStatus::CheckedOut);
    }
    let record = &records[0];
    if record.date_end.is_some() {
        return Ok(PresenceStatus::CheckedOut);
    }
    let parsed = parse_rfc3339(record.date_start.as_str());
    status_from_start(parsed, record.date_start.as_str(), today)
}

/// An open record counts as checked in exactly on the local day it started.
pub proof fn lemma_checked_in_exactly_on_start_day(start: Date, today: Date)
    ensures
        (status_on(start, today) == PresenceStatus::CheckedIn) <==> start == today,
        (status_on(start, today) == PresenceStatus::CheckedOut) <==> start != today,
{
}

/// Only the newest record decides: two lists with the same newest record give
/// the same status, whatever the older records hold.
pub proof fn lemma_status_depends_on_newest_only(
    records: Seq<PresenceRecord>,
    other: Seq<PresenceRecord>,
    today: Date,
)
    requires
        records.len() > 0,
        other.len() > 0,
        records[0] == other[0],
    ensures
        expected_status(records, today) == expected_status(other, today),
{
}

/// The status for the possible shapes of the newest record: no record or an
/// ended one is checked out; an open one whose start parses is checked in
/// exactly when its local start date is today; an open one whose start does not
/// parse has no status.
pub proof fn lemma_status_of_newest_record(records: Seq<PresenceRecord>, today: Date)
    ensures
        records.len() == 0 ==> expected_status(records, today) == Some(PresenceStatus::CheckedOut),
        records.len() > 0 && records[0].date_end is Some ==> expected_status(records, today) == Some(
            PresenceStatus::CheckedOut,
        ),
        records.len() > 0 && records[0].date_end is None && rfc3339_parse(records[0].date_start@)
            is None ==> expected_status(records, today) is None,
        forall|start: OffsetDateTime|
            records.len() > 0 && records[0].date_end is None && rfc3339_parse(records[0].date_start@)
                == Some(start) ==> (expected_status(records, today) == Some(
                PresenceStatus::CheckedIn,
            ) <==> start.date == today) && (expected_status(records, today) == Some(
                PresenceStatus::CheckedOut,
            ) <==> start.date != today),
{
}

} // verus!
