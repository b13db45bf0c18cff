//! Verified core of a hardware wallet for Ethereum and its host-side terminal client.
//!
//! The library holds the message types exchanged between host and device, the device's
//! wallet state machine (seeding, PIN protection, unlocking, signing, receiving), the
//! mnemonic and address encodings, serial framing, and the client's screen state machine.

pub mod errors;
pub mod protocol;
pub mod hashing;
pub mod mnemonic;
pub mod text;
pub mod hexcodec;
pub mod address;
pub mod rlp_encoding;
pub mod crypto;
pub mod display;
pub mod wallet;
pub mod framing;
pub mod device;
pub mod form;
pub mod messages;
pub mod client;
pub mod screen;
