//! Driver library for a USB NFC reader chipset speaking the FeliCa card
//! protocol: byte-level packet framing with checksums, a command/response
//! exchange protocol, card discovery polling and unencrypted block reads,
//! and the decision logic of a card scanning loop.
//!
//! All byte-level encoding, parsing and decision logic is verified; the
//! physical USB transport is abstracted behind the [`transport::Transport`]
//! trait, which callers implement outside the library.

pub mod chipset;
pub mod codec;
pub mod device;
pub mod domain;
pub mod errors;
pub mod felica;
pub mod protocol;
pub mod scan;
pub mod text;
pub mod transport;
