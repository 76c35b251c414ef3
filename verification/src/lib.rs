//! A verified codec for the Network Time Protocol (NTP) v4 packet header.
//!
//! The crate models the typed header fields of RFC 5905, converts a `Packet`
//! to and from its exact 48-byte network-endian wire form, and converts
//! between NTP's fixed-point time formats and a signed Unix-epoch instant.

pub mod codec;
pub mod errors;
pub mod packet;
pub mod protocol;
pub mod unix_time;
