//! The identities and responses the scanning loop exchanges with the
//! admission service around it: the card identity it emits, the request
//! built from it, and the response and sound events acted on outside
//! this library.

use vstd::prelude::*;

verus! {

/// A scanned card identity as the scanning loop emits it: the card's id
/// rendered in hex, and, depending on the card type, the student id read
/// from it or the balance that triggered the read.
#[derive(Debug, Clone, PartialEq, Eq)]
pub struct Card {
    pub idm: String,
    pub student_id: Option<u32>,
    pub balance: Option<u32>,
}

/// Whether a touch was counted as entering or leaving the room.
#[derive(Debug, Clone, Copy, PartialEq, Eq)]
pub enum RoomEntryStatus {
    Entry,
    Exit,
}

/// Error codes the admission service answers with.
#[derive(Debug, Clone, Copy, PartialEq, Eq)]
pub enum ErrorCode {
    StudentCardAlreadyRegistered,
    NfcCardAlreadyRegistered,
    StudentCardNotRegistered,
    NfcCardNotRegistered,
    Unknown,
}

/// The request sent to the admission service for one touch.
#[derive(Debug, Clone, PartialEq, Eq)]
pub struct TouchCardRequest {
    pub idm: String,
    pub student_id: Option<u32>,
}

/// The admission service's answer to one touch.
#[derive(Debug, Clone, PartialEq, Eq)]
pub enum TouchCardResponse {
    Success { status: RoomEntryStatus, entries: u32 },
    Error { error: String, error_code: ErrorCode },
}

/// Audio feedback events chosen from a response.
#[derive(Debug, Clone, Copy, PartialEq, Eq)]
pub enum SoundEvent {
    GoodMorning,
    Hello,
    GoodEvening,
    GoodBye,
    Last,
    Error,
    RegisterStudentCard,
    RegisterNfcCard,
}

impl TouchCardResponse {
    /// A successful entry with the given resulting room count.
    pub fn success_entry(entries: u32) -> (r: Self)
        ensures
            r == (TouchCardResponse::Success { status: RoomEntryStatus::Entry, entries }),
    {
        TouchCardResponse::Success { status: RoomEntryStatus::Entry, entries }
    }

    /// A successful exit with the given resulting room count.
    pub fn success_exit(entries: u32) -> (r: Self)
        ensures
            r == (TouchCardResponse::Success { status: RoomEntryStatus::Exit, entries }),
    {
        TouchCardResponse::Success { status: RoomEntryStatus::Exit, entries }
    }

    /// An error response with the given code and message.
    pub fn error(code: ErrorCode, message: String) -> (r: Self)
        ensures
            r == (TouchCardResponse::Error { error: message, error_code: code }),
    {
        TouchCardResponse::Error { error: message, error_code: code }
    }
}

impl From<Card> for TouchCardRequest {
    /// The request for a touch carries the card's id and its student id.
    fn from(card: Card) -> (r: TouchCardRequest) {
        TouchCardRequest { idm: card.idm, student_id: card.student_id }
    }
}

impl vstd::std_specs::convert::FromSpecImpl<Card> for TouchCardRequest {
    open spec fn obeys_from_spec() -> bool {
        true
    }

    open spec fn from_spec(card: Card) -> TouchCardRequest {
        TouchCardRequest { idm: card.idm, student_id: card.student_id }
    }
}

} // verus!
