//! The 48-byte NTP packet header.

use vstd::prelude::*;
use crate::protocol::{
    LeapIndicator, Mode, PrimarySource, ReferenceIdentifier, ShortFormat, Stratum,
    TimestampFormat, Version,
};
use crate::unix_time::Instant;

verus! {

/// Types that have a constant size when written to or read from bytes.
pub trait ConstPackedSizeBytes {
    const PACKED_SIZE_BYTES: usize;
}

impl ConstPackedSizeBytes for ShortFormat {
    const PACKED_SIZE_BYTES: usize = 4;
}

impl ConstPackedSizeBytes for TimestampFormat {
    const PACKED_SIZE_BYTES: usize = 8;
}

impl ConstPackedSizeBytes for crate::protocol::DateFormat {
    const PACKED_SIZE_BYTES: usize = 16;
}

impl ConstPackedSizeBytes for Stratum {
    const PACKED_SIZE_BYTES: usize = 1;
}

impl ConstPackedSizeBytes for ReferenceIdentifier {
    const PACKED_SIZE_BYTES: usize = 4;
}

impl ConstPackedSizeBytes for Packet {
    const PACKED_SIZE_BYTES: usize = PACKED_SIZE_BYTES;
}

/// The exact number of bytes of an encoded packet header: the packed first
/// byte, the stratum, poll and precision bytes, two short-format fields, the
/// reference identifier word, and four timestamp-format fields.
pub const PACKED_SIZE_BYTES: usize = 1 + 1 + 1 + 1 + 4 + 4 + 4 + 8 * 4;

/// **Packet Header** - the NTP v4 header of RFC 5905, without extension
/// fields and without the optional message authentication code.
///
/// ```ignore
///  0                   1                   2                   3
///  0 1 2 3 4 5 6 7 8 9 0 1 2 3 4 5 6 7 8 9 0 1 2 3 4 5 6 7 8 9 0 1
/// +-+-+-+-+-+-+-+-+-+-+-+-+-+-+-+-+-+-+-+-+-+-+-+-+-+-+-+-+-+-+-+-+
/// |LI | VN  |Mode |    Stratum     |     Poll      |  Precision   |
/// +-+-+-+-+-+-+-+-+-+-+-+-+-+-+-+-+-+-+-+-+-+-+-+-+-+-+-+-+-+-+-+-+
/// |                         Root Delay                            |
/// +-+-+-+-+-+-+-+-+-+-+-+-+-+-+-+-+-+-+-+-+-+-+-+-+-+-+-+-+-+-+-+-+
/// |                         Root Dispersion                       |
/// +-+-+-+-+-+-+-+-+-+-+-+-+-+-+-+-+-+-+-+-+-+-+-+-+-+-+-+-+-+-+-+-+
/// |                          Reference ID                         |
/// +-+-+-+-+-+-+-+-+-+-+-+-+-+-+-+-+-+-+-+-+-+-+-+-+-+-+-+-+-+-+-+-+
/// |                     Reference Timestamp (64)                  |
/// +-+-+-+-+-+-+-+-+-+-+-+-+-+-+-+-+-+-+-+-+-+-+-+-+-+-+-+-+-+-+-+-+
/// |                      Origin Timestamp (64)                    |
/// +-+-+-+-+-+-+-+-+-+-+-+-+-+-+-+-+-+-+-+-+-+-+-+-+-+-+-+-+-+-+-+-+
/// |                      Receive Timestamp (64)                   |
/// +-+-+-+-+-+-+-+-+-+-+-+-+-+-+-+-+-+-+-+-+-+-+-+-+-+-+-+-+-+-+-+-+
/// |                      Transmit Timestamp (64)                  |
/// +-+-+-+-+-+-+-+-+-+-+-+-+-+-+-+-+-+-+-+-+-+-+-+-+-+-+-+-+-+-+-+-+
/// ```
#[derive(Clone, Copy, Debug, PartialEq, Eq)]
pub struct Packet {
    pub leap_indicator: LeapIndicator,
    pub version: Version,
    pub mode: Mode,
    pub stratum: Stratum,
    /// 8-bit signed integer representing the maximum interval between
    /// successive messages, in log2 seconds.
    pub poll: i8,
    /// 8-bit signed integer representing the precision of the system clock,
    /// in log2 seconds.
    pub precision: i8,
    /// Total round-trip delay to the reference clock, in NTP short format.
    pub root_delay: ShortFormat,
    /// Total dispersion to the reference clock, in NTP short format.
    pub root_dispersion: ShortFormat,
    pub reference_id: ReferenceIdentifier,
    /// Time when the system clock was last set or corrected.
    pub reference_timestamp: TimestampFormat,
    /// Time at the client when the request departed for the server.
    pub origin_timestamp: TimestampFormat,
    /// Time at the server when the request arrived from the client.
    pub receive_timestamp: TimestampFormat,
    /// Time at the server when the response left for the client.
    pub transmit_timestamp: TimestampFormat,
}

impl Packet {
    /// A client-request packet with the given transmit timestamp: client
    /// mode, version 4, every other field zero or its default.
    pub fn new_client_with_transmit(transmit_timestamp: TimestampFormat) -> (r: Packet)
        ensures
            r.leap_indicator == LeapIndicator::NoWarning,
            r.version@ == 4,
            r.mode == Mode::Client,
            r.stratum@ == 0,
            r.poll == 0,
            r.precision == 0,
            r.root_delay == (ShortFormat { seconds: 0, fraction: 0 }),
            r.root_dispersion == (ShortFormat { seconds: 0, fraction: 0 }),
            r.reference_id == ReferenceIdentifier::PrimarySource(PrimarySource::Null),
            r.reference_timestamp == (TimestampFormat { seconds: 0, fraction: 0 }),
            r.origin_timestamp == (TimestampFormat { seconds: 0, fraction: 0 }),
            r.receive_timestamp == (TimestampFormat { seconds: 0, fraction: 0 }),
            r.transmit_timestamp == transmit_timestamp,
    {
        Packet {
            leap_indicator: LeapIndicator::NoWarning,
            version: Version::new(4),
            mode: Mode::Client,
            stratum: Stratum::new(0),
            poll: 0,
            precision: 0,
            root_delay: ShortFormat { seconds: 0, fraction: 0 },
            root_dispersion: ShortFormat { seconds: 0, fraction: 0 },
            reference_id: ReferenceIdentifier::PrimarySource(PrimarySource::Null),
            reference_timestamp: TimestampFormat { seconds: 0, fraction: 0 },
            origin_timestamp: TimestampFormat { seconds: 0, fraction: 0 },
            receive_timestamp: TimestampFormat { seconds: 0, fraction: 0 },
            transmit_timestamp,
        }
    }

    /// A client-request packet whose transmit timestamp is the current
    /// instant, converted to timestamp format.
    pub fn new_client() -> (r: Packet)
        ensures
            r.leap_indicator == LeapIndicator::NoWarning,
            r.version@ == 4,
            r.mode == Mode::Client,
            r.stratum@ == 0,
            r.poll == 0,
            r.precision == 0,
            r.root_delay == (ShortFormat { seconds: 0, fraction: 0 }),
            r.root_dispersion == (ShortFormat { seconds: 0, fraction: 0 }),
            r.reference_id == ReferenceIdentifier::PrimarySource(PrimarySource::Null),
            r.reference_timestamp == (TimestampFormat { seconds: 0, fraction: 0 }),
            r.origin_timestamp == (TimestampFormat { seconds: 0, fraction: 0 }),
            r.receive_timestamp == (TimestampFormat { seconds: 0, fraction: 0 }),
    {
        let now = Instant::now();
        Self::new_client_with_transmit(TimestampFormat::from_instant(&now))
    }
}

/// The cross-field validity rule that decoding enforces: a primary stratum
/// carries a primary-source or kiss-of-death identifier, a secondary stratum
/// carries raw identifier bytes, and no other stratum is decodable.
///
/// Encoding deliberately does not check this rule, so a packet built by hand
/// can be encoded even when it breaks it; decoding its bytes then fails or
/// yields a different packet.
pub open spec fn wire_consistent(p: Packet) -> bool {
    if p.stratum@ == 1 {
        p.reference_id is PrimarySource || p.reference_id is KissOfDeath
    } else if 2 <= p.stratum@ <= 15 {
        p.reference_id is SecondaryOrClient
    } else {
        false
    }
}

} // verus!
