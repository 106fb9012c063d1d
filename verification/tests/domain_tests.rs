use pasori::domain::{Card, ErrorCode, RoomEntryStatus, TouchCardRequest, TouchCardResponse};

#[test]
fn success_entry_builds_entry_response() {
    let r = TouchCardResponse::success_entry(3);
    assert_eq!(
        r,
        TouchCardResponse::Success { status: RoomEntryStatus::Entry, entries: 3 }
    );
}

#[test]
fn success_exit_builds_exit_response() {
    let r = TouchCardResponse::success_exit(0);
    assert_eq!(
        r,
        TouchCardResponse::Success { status: RoomEntryStatus::Exit, entries: 0 }
    );
}

#[test]
fn error_builds_error_response() {
    let r = TouchCardResponse::error(
        ErrorCode::StudentCardNotRegistered,
        String::from("not registered"),
    );
    assert_eq!(
        r,
        TouchCardResponse::Error {
            error: String::from("not registered"),
            error_code: ErrorCode::StudentCardNotRegistered,
        }
    );
}

#[test]
fn request_carries_idm_and_student_id() {
    let card = Card {
        idm: String::from("0123456789abcdef"),
        student_id: Some(12345678),
        balance: None,
    };
    let req = TouchCardRequest::from(card);
    assert_eq!(req.idm, "0123456789abcdef");
    assert_eq!(req.student_id, Some(12345678));
}
