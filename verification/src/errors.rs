//! Error taxonomy of the reader library.
//!
//! Transport failures are fatal per call; frame errors abort the current
//! exchange; protocol errors are surfaced to the command-layer caller; card
//! read errors are surfaced per card without stopping the scanning loop.

use vstd::prelude::*;

verus! {

/// Failure of the byte-level USB transport.
#[derive(Debug, Clone, Copy, PartialEq, Eq)]
pub enum TransportError {
    /// No device with the requested vendor/product id was found.
    NoDevice,
    /// The device exposes no usable pair of bulk endpoints.
    NoEndpoints,
    /// The transfer did not complete within its timeout.
    Timeout,
    /// Any other I/O failure.
    IoFailure,
}

/// A received buffer could not be accepted as a frame. Never partially
/// accepted: any mismatch rejects the whole buffer.
#[derive(Debug, Clone, Copy, PartialEq, Eq)]
pub enum FrameError {
    /// The buffer does not start with a known preamble, or is too short.
    MalformedPreamble,
    /// The length or body checksum does not match the received bytes.
    ChecksumMismatch,
    /// The frame is well-formed but not of the kind expected here.
    UnexpectedFrameType,
}

/// The device answered with well-formed frames that violate the exchange
/// protocol, or reported an error itself.
#[derive(Debug, Clone, Copy, PartialEq, Eq)]
pub enum ProtocolError {
    /// The frame read before the response was not an Ack frame.
    AckMismatch,
    /// The response command code was not the request code plus one.
    ResponseCodeMismatch,
    /// A response carried a nonzero status where zero status is required.
    NonZeroStatus,
    /// The device reported an error, or answered in a shape the protocol
    /// does not allow; kept generic since the full status-code table is
    /// not decoded.
    DeviceReportedError,
}

/// An identifying field read from a card was malformed.
#[derive(Debug, Clone, Copy, PartialEq, Eq)]
pub enum CardReadError {
    /// The identifying field of a card block was not in the expected format.
    MalformedIdField,
}

/// Any failure of a command exchange, from the transport up to the card.
#[derive(Debug, Clone, Copy, PartialEq, Eq)]
pub enum Error {
    Transport(TransportError),
    Frame(FrameError),
    Protocol(ProtocolError),
    CardRead(CardReadError),
}

} // verus!
