use hortpro_checker::calendar::Date;
use hortpro_checker::state::{
    decode_photo, detect_transition, AppState, Error, PresenceStatus, Transition,
};

fn date(y: i32, m: u32, d: u32) -> Date {
    Date { year: y, month: m, day: d }
}

fn state_with(last_status: Option<PresenceStatus>, last_status_date: Option<Date>) -> AppState {
    AppState {
        session_cookie: String::new(),
        kid_id: String::new(),
        kid_name: String::new(),
        last_status,
        last_status_date,
        last_check_at: None,
    }
}

#[test]
fn test_unknown_to_checked_in_is_arrived() {
    assert_eq!(
        detect_transition(None, PresenceStatus::CheckedIn),
        Transition::Arrived,
    );
}

#[test]
fn test_unknown_to_checked_out_is_no_transition() {
    assert_eq!(
        detect_transition(None, PresenceStatus::CheckedOut),
        Transition::NoChange,
    );
}

#[test]
fn test_checked_in_to_checked_out_is_left() {
    assert_eq!(
        detect_transition(Some(PresenceStatus::CheckedIn), PresenceStatus::CheckedOut),
        Transition::Left,
    );
}

#[test]
fn test_checked_out_to_checked_in_is_arrived() {
    assert_eq!(
        detect_transition(Some(PresenceStatus::CheckedOut), PresenceStatus::CheckedIn),
        Transition::Arrived,
    );
}

#[test]
fn test_same_status_is_no_transition() {
    assert_eq!(
        detect_transition(Some(PresenceStatus::CheckedIn), PresenceStatus::CheckedIn),
        Transition::NoChange,
    );
    assert_eq!(
        detect_transition(Some(PresenceStatus::CheckedOut), PresenceStatus::CheckedOut),
        Transition::NoChange,
    );
}

#[test]
fn test_effective_status_same_day() {
    let today = date(2026, 4, 20);
    let state = state_with(Some(PresenceStatus::CheckedIn), Some(today));
    assert_eq!(
        state.effective_last_status(today),
        Some(PresenceStatus::CheckedIn)
    );
}

#[test]
fn test_effective_status_different_day_resets_to_none() {
    let yesterday = date(2026, 4, 19);
    let today = date(2026, 4, 20);
    let state = state_with(Some(PresenceStatus::CheckedIn), Some(yesterday));
    assert_eq!(state.effective_last_status(today), None);
}

#[test]
fn test_effective_status_no_date_resets_to_none() {
    let today = date(2026, 4, 20);
    let state = state_with(Some(PresenceStatus::CheckedIn), None);
    assert_eq!(state.effective_last_status(today), None);
}

#[test]
fn stale_day_checked_out_raises_no_notification() {
    let today = date(2026, 4, 21);
    let state = state_with(Some(PresenceStatus::CheckedIn), Some(date(2026, 4, 20)));
    let previous = state.effective_last_status(today);
    assert_eq!(detect_transition(previous, PresenceStatus::CheckedOut), Transition::NoChange);
    assert_eq!(detect_transition(previous, PresenceStatus::CheckedIn), Transition::Arrived);
}

#[test]
fn same_day_checked_out_after_checked_in_is_left() {
    let today = date(2026, 4, 20);
    let state = state_with(Some(PresenceStatus::CheckedIn), Some(today));
    let previous = state.effective_last_status(today);
    assert_eq!(detect_transition(previous, PresenceStatus::CheckedOut), Transition::Left);
}

#[test]
fn effective_status_same_day_without_status_is_none() {
    let today = date(2026, 4, 20);
    let state = state_with(None, Some(today));
    assert_eq!(state.effective_last_status(today), None);
}

#[test]
fn decode_photo_returns_image_bytes() {
    let bytes = decode_photo("data:image/jpeg;base64,aGVsbG8=");
    assert!(matches!(bytes, Ok(ref b) if b.as_slice() == b"hello"));
}

#[test]
fn decode_photo_uses_text_after_first_comma() {
    // the payload after the first comma holds a comma, which is not base64
    let bytes = decode_photo("data:x,aGk=,aGk=");
    assert!(matches!(bytes, Err(Error::DecodePhoto { .. })));
    let bytes = decode_photo(",aGk=");
    assert!(matches!(bytes, Ok(ref b) if b.as_slice() == b"hi"));
}

#[test]
fn decode_photo_empty_payload_is_empty_image() {
    let bytes = decode_photo("data:image/jpeg;base64,");
    assert!(matches!(bytes, Ok(ref b) if b.is_empty()));
}

#[test]
fn decode_photo_without_comma_has_no_payload() {
    let bytes = decode_photo("data:image/jpeg;base64");
    assert!(matches!(bytes, Err(Error::PhotoNoPayload)));
}

#[test]
fn decode_photo_rejects_bad_base64() {
    let bytes = decode_photo("data:image/jpeg;base64,@@@@");
    assert!(matches!(bytes, Err(Error::DecodePhoto { .. })));
}
