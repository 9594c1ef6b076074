use base64::Engine;
use vstd::prelude::*;
use vstd::string::StringSliceAdditionalSpecFns;

use crate::calendar::{Date, OffsetDateTime};

verus! {

/// Errors of the state operations that the library decides.
#[derive(Debug)]
pub enum Error {
    /// The photo payload is not valid base64.
    DecodePhoto { source: base64::DecodeError },
    /// The photo data URI has no `,` and so no base64 payload.
    PhotoNoPayload,
}

#[verifier::external_type_specification]
#[verifier::external_body]
pub struct ExDecodeError(base64::DecodeError);

/// Whether the child is currently at daycare.
#[derive(Clone, Copy, Debug, PartialEq, Eq, Structural)]
pub enum PresenceStatus {
    CheckedIn,
    CheckedOut,
}

/// The type of status change detected between two checks.
#[derive(Clone, Copy, Debug, PartialEq, Eq, Structural)]
pub enum Transition {
    Arrived,
    Left,
    /// No change worth a notification.
    NoChange,
}

/// Persisted application state, kept between runs.
#[derive(Clone, Debug, PartialEq)]
pub struct AppState {
    pub session_cookie: String,
    pub kid_id: String,
    pub kid_name: String,
    pub last_status: Option<PresenceStatus>,
    pub last_status_date: Option<Date>,
    pub last_check_at: Option<OffsetDateTime>,
}

/// The last status counts only on the day it was recorded.
pub open spec fn effective_status(
    last_status: Option<PresenceStatus>,
    last_status_date: Option<Date>,
    today: Date,
) -> Option<PresenceStatus> {
    if last_status_date == Some(today) {
        last_status
    } else {
        None
    }
}

impl AppState {
    /// Returns the last status if it was recorded today, otherwise None.
    pub fn effective_last_status(&self, today: Date) -> (res: Option<PresenceStatus>)
        ensures
            res == effective_status(self.last_status, self.last_status_date, today),
            self.last_status_date == Some(today) ==> res == self.last_status,
            self.last_status_date != Some(today) ==> res is None,
    {
        match self.last_status_date {
            Some(date) => {
                if date == today {
                    self.last_status
                } else {
                    None
                }
            },
            None => None,
        }
    }
}

/// The notification table: which change a check reports.
pub open spec fn transition_between(
    previous: Option<PresenceStatus>,
    current: PresenceStatus,
) -> Transition {
    match (previous, current) {
        (None, PresenceStatus::CheckedIn) => Transition::Arrived,
        (Some(PresenceStatus::CheckedOut), PresenceStatus::CheckedIn) => Transition::Arrived,
        (Some(PresenceStatus::CheckedIn), PresenceStatus::CheckedOut) => Transition::Left,
        _ => Transition::NoChange,
    }
}

/// Determines the notification transition between two statuses.
pub fn detect_transition(
    effective_previous: Option<PresenceStatus>,
    current: PresenceStatus,
) -> (res: Transition)
    ensures
        res == transition_between(effective_previous, current),
{
    match (effective_previous, current) {
        (None, PresenceStatus::CheckedIn) => Transition::Arrived,
        (Some(PresenceStatus::CheckedOut), PresenceStatus::CheckedIn) => Transition::Arrived,
        (Some(PresenceStatus::CheckedIn), PresenceStatus::CheckedOut) => Transition::Left,
        _ => Transition::NoChange,
    }
}

/// A status seen in two checks in a row never notifies.
pub proof fn lemma_repeated_status_is_silent(status: PresenceStatus)
    ensures
        transition_between(Some(status), status) == Transition::NoChange,
{
}

/// A check reports `Arrived` exactly when the child is checked in now and was
/// not known to be checked in before, and `Left` exactly when the child was
/// checked in before and is checked out now.
pub proof fn lemma_transition_cases(previous: Option<PresenceStatus>, current: PresenceStatus)
    ensures
        (transition_between(previous, current) == Transition::Arrived) <==> (current
            == PresenceStatus::CheckedIn && previous != Some(PresenceStatus::CheckedIn)),
        (transition_between(previous, current) == Transition::Left) <==> (previous == Some(
            PresenceStatus::CheckedIn,
        ) && current == PresenceStatus::CheckedOut),
{
}

/// On a day other than the one the last status was recorded on, that status is
/// forgotten: a checked-out child raises no notification, a checked-in child
/// is reported as arrived.
pub proof fn lemma_day_boundary(state: AppState, today: Date)
    requires
        state.last_status_date != Some(today),
    ensures
        effective_status(state.last_status, state.last_status_date, today) is None,
        transition_between(
            effective_status(state.last_status, state.last_status_date, today),
            PresenceStatus::CheckedOut,
        ) == Transition::NoChange,
        transition_between(
            effective_status(state.last_status, state.last_status_date, today),
            PresenceStatus::CheckedIn,
        ) == Transition::Arrived,
{
}

/// On the day it was recorded, the last status is the effective one, whatever it is.
pub proof fn lemma_same_day_keeps_status(
    last_status: Option<PresenceStatus>,
    last_status_date: Option<Date>,
    today: Date,
)
    requires
        last_status_date == Some(today),
    ensures
        effective_status(last_status, last_status_date, today) == last_status,
{
}

/// `i` is the position of the first `,` byte.
pub open spec fn is_first_comma(bytes: Seq<u8>, i: int) -> bool {
    &&& 0 <= i < bytes.len()
    &&& bytes[i] == 44u8
    &&& forall|j: int| 0 <= j < i ==> bytes[j] != 44u8
}

/// The bytes after the first `,` of a data URI; `None` where it has no `,`.
pub open spec fn photo_payload(bytes: Seq<u8>) -> Option<Seq<u8>> {
    if exists|i: int| is_first_comma(bytes, i) {
        let i = choose|i: int| is_first_comma(bytes, i);
        Some(bytes.subrange(i + 1, bytes.len() as int))
    } else {
        None
    }
}

/// The payload is everything after the first `,`: for the first comma at `i`
/// it is the bytes from `i + 1` to the end, `len - i - 1` of them.
pub proof fn lemma_payload_is_whole_rest(bytes: Seq<u8>, i: int)
    requires
        0 <= i < bytes.len(),
        bytes[i] == 44u8,
        forall|j: int| 0 <= j < i ==> bytes[j] != 44u8,
    ensures
        photo_payload(bytes) == Some(bytes.subrange(i + 1, bytes.len() as int)),
        photo_payload(bytes)->Some_0.len() == bytes.len() - i - 1,
{
    assert(is_first_comma(bytes, i));
    let c = choose|k: int| is_first_comma(bytes, k);
    assert(c == i) by {
        if c < i {
            assert(bytes[c] != 44u8);
        } else if c > i {
            assert(bytes[i] != 44u8);
        }
    }
}

/// A payload is a suffix of the URI that directly follows a `,`, with no `,`
/// before that one; there is no payload exactly when the URI has no `,`.
pub proof fn lemma_payload_shape(bytes: Seq<u8>)
    ensures
        photo_payload(bytes) is None <==> forall|j: int| 0 <= j < bytes.len() ==> bytes[j] != 44u8,
        photo_payload(bytes) is Some ==> {
            let p = photo_payload(bytes)->Some_0;
            let k = bytes.len() - p.len() - 1;
            &&& 0 <= k < bytes.len()
            &&& bytes[k] == 44u8
            &&& forall|j: int| 0 <= j < k ==> bytes[j] != 44u8
            &&& p =~= bytes.subrange(k + 1, bytes.len() as int)
        },
{
    if exists|i: int| is_first_comma(bytes, i) {
        let i = choose|i: int| is_first_comma(bytes, i);
        lemma_payload_is_whole_rest(bytes, i);
    } else {
        if !(forall|j: int| 0 <= j < bytes.len() ==> bytes[j] != 44u8) {
            let j0 = choose|j: int| 0 <= j < bytes.len() && bytes[j] == 44u8;
            lemma_first_comma_exists(bytes, j0);
        }
    }
}

/// Where some byte is a `,`, there is a first one.
proof fn lemma_first_comma_exists(bytes: Seq<u8>, j: int)
    requires
        0 <= j < bytes.len(),
        bytes[j] == 44u8,
    ensures
        exists|i: int| is_first_comma(bytes, i),
    decreases j,
{
    if forall|k: int| 0 <= k < j ==> bytes[k] != 44u8 {
        assert(is_first_comma(bytes, j));
    } else {
        let k = choose|k: int| 0 <= k < j && bytes[k] == 44u8;
        lemma_first_comma_exists(bytes, k);
    }
}

/// What the standard base64 engine (with padding) decodes the bytes to; `None`
/// where it rejects them.
pub uninterp spec fn base64_standard_decode(input: Seq<u8>) -> Option<Seq<u8>>;

/// Decodes bytes with `base64::engine::general_purpose::STANDARD.decode`.
///
/// Trusted: the result is the one `base64_standard_decode` names for the input.
#[verifier::external_body]
fn decode_base64(input: &[u8]) -> (res: Result<Vec<u8>, base64::DecodeError>)
    ensures
        match res {
            Ok(out) => base64_standard_decode(input@) == Some(out@),
            Err(_) => base64_standard_decode(input@) is None,
        },
{
    base64::engine::general_purpose::STANDARD.decode(input)
}

/// The payload of a `data:...;base64,<payload>` URI: the bytes after its first `,`.
pub fn data_uri_payload(data_uri: &str) -> (res: Option<&[u8]>)
    ensures
        match res {
            Some(p) => photo_payload(data_uri.spec_bytes()) == Some(p@),
            None => photo_payload(data_uri.spec_bytes()) is None,
        },
        res is None <==> forall|j: int|
            0 <= j < data_uri.spec_bytes().len() ==> data_uri.spec_bytes()[j] != 44u8,
        res matches Some(p) ==> {
            let k = data_uri.spec_bytes().len() - p@.len() - 1;
            &&& 0 <= k
            &&& data_uri.spec_bytes()[k] == 44u8
            &&& forall|j: int| 0 <= j < k ==> data_uri.spec_bytes()[j] != 44u8
            &&& p@ == data_uri.spec_bytes().subrange(k + 1, data_uri.spec_bytes().len() as int)
        },
{
    let bytes = data_uri.as_bytes();
    let n = bytes.len();
    let mut i: usize = 0;
    while i < n
        invariant
            n == bytes@.len(),
            bytes@ == data_uri.spec_bytes(),
            i <= n,
            forall|j: int| 0 <= j < i ==> bytes@[j] != 44u8,
        decreases n - i,
    {
        if bytes[i] == 44u8 {
            proof {
                let ghost b = bytes@;
                assert(is_first_comma(b, i as int));
                let c = choose|k: int| is_first_comma(b, k);
                assert(c == i as int) by {
                    if c < i as int {
                        assert(b[c] != 44u8);
                    } else if c > i as int {
                        assert(b[i as int] != 44u8);
                    }
                }
            }
            proof {
                lemma_payload_is_whole_rest(bytes@, i as int);
            }
            return Some(vstd::slice::slice_subrange(bytes, i + 1, n));
        }
        i = i + 1;
    }
    proof {
        assert(!exists|k: int| is_first_comma(bytes@, k));
    }
    None
}

/// Turns the outcome of base64 decoding into the photo bytes or the decode error.
pub fn photo_from_decoded(decoded: Result<Vec<u8>, base64::DecodeError>) -> (res: Result<
    Vec<u8>,
    Error,
>)
    ensures
        match decoded {
            Ok(bytes) => res matches Ok(out) && out@ == bytes@,
            Err(e) => res matches Err(Error::DecodePhoto { source }) && source == e,
        },
{
    match decoded {
        Ok(bytes) => Ok(bytes),
        Err(e) => Err(Error::DecodePhoto { source: e }),
    }
}

/// Decodes a `data:image/jpeg;base64,...` URI into the image bytes.
pub fn decode_photo(data_uri: &str) -> (res: Result<Vec<u8>, Error>)
    ensures
        match photo_payload(data_uri.spec_bytes()) {
            None => res matches Err(Error::PhotoNoPayload),
            Some(payload) => match base64_standard_decode(payload) {
                None => res matches Err(Error::DecodePhoto { .. }),
                Some(image) => res matches Ok(out) && out@ == image,
            },
        },
{
    match data_uri_payload(data_uri) {
        None => Err(Error::PhotoNoPayload),
        Some(payload) => photo_from_decoded(decode_base64(payload)),
    }
}

} // verus!
