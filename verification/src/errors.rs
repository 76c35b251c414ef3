//! Error type for packet decoding.

use vstd::prelude::*;

verus! {

/// The ways in which decoding a 48-byte NTP header can fail.
#[derive(Clone, Copy, Debug, PartialEq, Eq)]
pub enum DecodeError {
    /// Fewer than 48 bytes were available.
    Truncated,
    /// The 2-bit leap indicator code matched no defined value (kept for
    /// forward compatibility; the 2-bit space is fully covered today).
    UnknownLeapIndicator,
    /// The 3-bit mode code matched no defined value (kept for forward
    /// compatibility; the 3-bit space is fully covered today).
    UnknownMode,
    /// The stratum was primary but the 32-bit reference identifier matched
    /// neither a known primary source nor a known kiss code.
    UnknownReferenceId,
    /// The stratum admits no reference-identifier interpretation (0, 16, or
    /// the reserved range above 16).
    UnsupportedStratum,
}

} // verus!
