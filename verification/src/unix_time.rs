//! Signed Unix-epoch instants, and their conversions to and from the NTP
//! fixed-point time formats.

use vstd::prelude::*;
use vstd::arithmetic::div_mod::{
    lemma_fundamental_div_mod, lemma_fundamental_div_mod_converse, lemma_small_mod,
};
use crate::protocol::{ShortFormat, TimestampFormat};

verus! {

/// The number of seconds from 1st January 1900 UTC (the NTP prime epoch) to
/// the start of the Unix epoch.
pub const EPOCH_DELTA: i64 = 2_208_988_800;

/// The fixed-point fraction scale: one second is 2^32 fraction units.
///
/// The short format's 16-bit fraction is deliberately converted with the
/// same 2^32 scale as the 32-bit timestamp fraction, not with 2^16.
pub const NTP_SCALE: u64 = 0x1_0000_0000;

/// Whether a seconds count and a sub-second nanosecond count point to the
/// same side of the Unix epoch: no mixed signs, zero goes with anything.
pub open spec fn same_sign_spec(secs: int, subsec_nanos: int) -> bool {
    !(secs > 0 && subsec_nanos < 0) && !(secs < 0 && subsec_nanos > 0)
}

/// A zero seconds component permits any sign of the nanosecond component.
pub proof fn lemma_zero_secs_any_sign(subsec_nanos: int)
    ensures
        same_sign_spec(0, subsec_nanos),
{
}

/// The nanoseconds denoted by an NTP fraction at the 2^32 scale, rounded to
/// nearest: round(frac / 2^32 * 1e9).
pub open spec fn fraction_nanos_spec(frac: int) -> int {
    (frac * 1_000_000_000 + 0x8000_0000) / 0x1_0000_0000
}

/// The unclamped NTP fraction (2^32 scale) denoted by a nanosecond count,
/// rounded to nearest: round(nanos * 2^32 / 1e9); nonpositive counts give
/// zero.
pub open spec fn nanos_fraction_wide_spec(nanos: int) -> int {
    if nanos <= 0 {
        0
    } else {
        (nanos * 0x1_0000_0000 + 500_000_000) / 1_000_000_000
    }
}

/// The 32-bit fraction field written for a nanosecond count: the 2^32-scale
/// fraction, clamped to the field's width.
pub open spec fn timestamp_fraction_spec(nanos: int) -> int {
    let w = nanos_fraction_wide_spec(nanos);
    if w > 0xFFFF_FFFF {
        0xFFFF_FFFF
    } else {
        w
    }
}

/// The 16-bit fraction field written for a nanosecond count: the 2^32-scale
/// fraction, clamped to the field's width.
pub open spec fn short_fraction_spec(nanos: int) -> int {
    let w = nanos_fraction_wide_spec(nanos);
    if w > 0xFFFF {
        0xFFFF
    } else {
        w
    }
}

/// The seconds field written for a Unix seconds count: the NTP-era seconds,
/// reduced to the field's width (`m` is 2^32 or 2^16).
pub open spec fn ntp_seconds_spec(secs: int, m: int) -> int {
    (secs + EPOCH_DELTA) % m
}

/// Describes an instant relative to the Unix epoch - 00:00:00 Coordinated
/// Universal Time (UTC), Thursday, 1 January 1970 - in seconds with the
/// fractional part in nanoseconds.
///
/// If the instant describes some moment prior to the Unix epoch, both the
/// `secs` and `subsec_nanos` components are nonpositive.
#[derive(Clone, Copy, Debug)]
pub struct Instant {
    secs: i64,
    subsec_nanos: i32,
}

impl View for Instant {
    type V = (i64, i32);

    closed spec fn view(&self) -> (i64, i32) {
        (self.secs, self.subsec_nanos)
    }
}

impl Instant {
    #[verifier::type_invariant]
    spec fn sign_invariant(self) -> bool {
        same_sign_spec(self.secs as int, self.subsec_nanos as int)
    }

    /// Whether the two components may form an instant: a positive-seconds
    /// instant must not carry negative nanoseconds, nor the reverse.
    pub fn same_sign(secs: i64, subsec_nanos: i32) -> (r: bool)
        ensures
            r == same_sign_spec(secs as int, subsec_nanos as int),
    {
        !(secs > 0 && subsec_nanos < 0) && !(secs < 0 && subsec_nanos > 0)
    }

    /// Create a new instant given its `secs` and `subsec_nanos` components.
    ///
    /// To indicate a time following the Unix epoch, both components must be
    /// nonnegative; to indicate a time prior to it, both must be
    /// nonpositive. The precondition rejects mixed signs.
    pub fn new(secs: i64, subsec_nanos: i32) -> (r: Instant)
        requires
            same_sign_spec(secs as int, subsec_nanos as int),
        ensures
            r@ == (secs, subsec_nanos),
    {
        Instant { secs, subsec_nanos }
    }

    /// Relies on `std::time::SystemTime::now` and
    /// `SystemTime::duration_since(UNIX_EPOCH)`: the current moment comes
    /// back as a duration on one side of the Unix epoch - through `Ok` on
    /// or after it, through the error's duration before it - whose
    /// sub-second nanoseconds `Duration::subsec_nanos` documents to be
    /// below one second. The flag says which side.
    #[verifier::external_body]
    fn now_parts() -> (r: (bool, u64, u32))
        ensures
            r.2 < 1_000_000_000,
    {
        match std::time::SystemTime::now().duration_since(std::time::UNIX_EPOCH) {
            Ok(duration) => (false, duration.as_secs(), duration.subsec_nanos()),
            Err(sys_time_err) => {
                let duration = sys_time_err.duration();
                (true, duration.as_secs(), duration.subsec_nanos())
            },
        }
    }

    /// The current instant, from the system clock. Whatever moment the
    /// clock reports, the components agree in sign; a moment before the
    /// Unix epoch gives nonpositive components.
    pub fn now() -> (r: Instant)
        ensures
            same_sign_spec(r@.0 as int, r@.1 as int),
            -1_000_000_000 < r@.1 < 1_000_000_000,
    {
        let (before_epoch, secs_magnitude, nanos_magnitude) = Self::now_parts();
        let secs: i64 = if secs_magnitude > 0x7FFF_FFFF_FFFF_FFFF {
            0x7FFF_FFFF_FFFF_FFFF
        } else {
            secs_magnitude as i64
        };
        let subsec_nanos: i32 = nanos_magnitude as i32;
        if before_epoch {
            Instant::new(-secs, -subsec_nanos)
        } else {
            Instant::new(secs, subsec_nanos)
        }
    }

    /// The "seconds" component of the instant.
    pub fn secs(&self) -> (r: i64)
        ensures
            r == self@.0,
    {
        self.secs
    }

    /// The fractional component of the instant in nanoseconds.
    pub fn subsec_nanos(&self) -> (r: i32)
        ensures
            r == self@.1,
    {
        self.subsec_nanos
    }

    /// The instant denoted by a timestamp-format value: seconds rebased
    /// from the NTP prime epoch to the Unix epoch, fraction scaled to
    /// nanoseconds.
    ///
    /// A timestamp before the Unix epoch whose fraction scales to a
    /// positive nanosecond count would mix signs, which an instant cannot
    /// hold; the precondition excludes exactly those values.
    pub fn from_timestamp_format(t: TimestampFormat) -> (r: Instant)
        requires
            t.seconds >= EPOCH_DELTA || fraction_nanos_spec(t.fraction as int) == 0,
        ensures
            r@.0 == t.seconds - EPOCH_DELTA,
            r@.1 == fraction_nanos_spec(t.fraction as int),
    {
        let secs: i64 = (t.seconds as i64) - EPOCH_DELTA;
        let subsec_nanos: i32 = fraction_to_nanos(t.fraction);
        Instant::new(secs, subsec_nanos)
    }

    /// The instant denoted by a short-format value, with the same rebasing
    /// and the same 2^32 fraction scale as the timestamp format.
    ///
    /// A 16-bit seconds field always lies before the Unix epoch once
    /// rebased, so the precondition admits only fractions that scale to
    /// zero nanoseconds.
    pub fn from_short_format(t: ShortFormat) -> (r: Instant)
        requires
            t.seconds >= EPOCH_DELTA || fraction_nanos_spec(t.fraction as int) == 0,
        ensures
            r@.0 == t.seconds - EPOCH_DELTA,
            r@.1 == fraction_nanos_spec(t.fraction as int),
    {
        let secs: i64 = (t.seconds as i64) - EPOCH_DELTA;
        let subsec_nanos: i32 = fraction_to_nanos(t.fraction as u32);
        Instant::new(secs, subsec_nanos)
    }
}

/// Scale a 2^32-scale fraction to nanoseconds, rounding to nearest.
///
/// A fraction at the very top of its range rounds up to a full second of
/// nanoseconds, hence the inclusive upper bound.
fn fraction_to_nanos(frac: u32) -> (r: i32)
    ensures
        r == fraction_nanos_spec(frac as int),
        0 <= r <= 1_000_000_000,
{
    let x: u64 = (frac as u64) * 1_000_000_000 + 0x8000_0000;
    let w: u64 = x / 0x1_0000_0000;
    proof {
        lemma_fundamental_div_mod(x as int, 0x1_0000_0000);
        assert(0x1_0000_0000 * (x as int / 0x1_0000_0000) <= x);
        let fx = (frac as u64) as int;
        assert(fx * 1_000_000_000 <= 4_294_967_295_000_000_000int) by (nonlinear_arith)
            requires fx <= 0xFFFF_FFFFint;
        assert(x == fx * 1_000_000_000 + 0x8000_0000);
        assert(0x1_0000_0000int * 1_000_000_001int == 4_294_967_300_294_967_296int)
            by (nonlinear_arith);
        assert(x < 0x1_0000_0000int * 1_000_000_001int);
    }
    w as i32
}

/// Scale a nanosecond count to a 2^32-scale fraction, rounding to nearest;
/// nonpositive counts scale to zero.
fn nanos_to_fraction_wide(nanos: i32) -> (r: u64)
    ensures
        r == nanos_fraction_wide_spec(nanos as int),
{
    if nanos <= 0 {
        0
    } else {
        ((nanos as u64) * 0x1_0000_0000 + 500_000_000) / 1_000_000_000
    }
}

/// Rebase a Unix seconds count to the NTP prime epoch and reduce it to a
/// field width (`m` is 2^32 or 2^16); out-of-range values wrap.
fn epoch_seconds_mod(secs: i64, m: u64) -> (r: u64)
    requires
        m == 0x1_0000_0000 || m == 0x1_0000,
    ensures
        r == ntp_seconds_spec(secs as int, m as int),
        r < m,
{
    if secs >= 0 {
        let u: u64 = (secs as u64) + 2_208_988_800;
        u % m
    } else {
        let s2: i64 = secs + EPOCH_DELTA;
        if s2 >= 0 {
            (s2 as u64) % m
        } else {
            let neg: u64 = ((-(s2 + 1)) as u64) + 1;
            let rem: u64 = neg % m;
            proof {
                lemma_fundamental_div_mod(neg as int, m as int);
                let q = neg as int / m as int;
                if rem == 0 {
                    lemma_fundamental_div_mod_converse(-(neg as int), m as int, -q, 0);
                } else {
                    lemma_fundamental_div_mod_converse(
                        -(neg as int),
                        m as int,
                        -q - 1,
                        m - rem,
                    );
                }
            }
            if rem == 0 {
                0
            } else {
                m - rem
            }
        }
    }
}

impl TimestampFormat {
    /// The timestamp-format value written for an instant: seconds rebased
    /// to the NTP prime epoch modulo 2^32, nanoseconds scaled to a 2^32
    /// fraction and clamped to 32 bits. The reduction is an accepted lossy
    /// boundary, not an error.
    pub fn from_instant(t: &Instant) -> (r: TimestampFormat)
        ensures
            r.seconds == ntp_seconds_spec(t@.0 as int, 0x1_0000_0000),
            r.fraction == timestamp_fraction_spec(t@.1 as int),
    {
        let seconds = epoch_seconds_mod(t.secs(), 0x1_0000_0000);
        let w = nanos_to_fraction_wide(t.subsec_nanos());
        let fraction: u32 = if w > 0xFFFF_FFFF {
            0xFFFF_FFFF
        } else {
            w as u32
        };
        TimestampFormat { seconds: seconds as u32, fraction }
    }
}

impl ShortFormat {
    /// The short-format value written for an instant: seconds rebased to
    /// the NTP prime epoch modulo 2^16, nanoseconds scaled with the same
    /// 2^32 fraction scale as the timestamp format and clamped to 16 bits.
    pub fn from_instant(t: &Instant) -> (r: ShortFormat)
        ensures
            r.seconds == ntp_seconds_spec(t@.0 as int, 0x1_0000),
            r.fraction == short_fraction_spec(t@.1 as int),
    {
        let seconds = epoch_seconds_mod(t.secs(), 0x1_0000);
        let w = nanos_to_fraction_wide(t.subsec_nanos());
        let fraction: u16 = if w > 0xFFFF {
            0xFFFF
        } else {
            w as u16
        };
        ShortFormat { seconds: seconds as u16, fraction }
    }
}

/// Converting an instant that lies in the NTP timestamp era, with a
/// sub-second nanosecond component, to timestamp format and back returns it
/// exactly: the seconds agree, and the nanoseconds agree - well within the
/// microsecond tolerance of the 2^32 fixed-point scale.
pub proof fn lemma_time_conversion_round_trip(secs: int, nanos: int)
    requires
        0 <= secs + EPOCH_DELTA < 0x1_0000_0000,
        0 <= nanos < 1_000_000_000,
    ensures
        ntp_seconds_spec(secs, 0x1_0000_0000) - EPOCH_DELTA == secs,
        fraction_nanos_spec(timestamp_fraction_spec(nanos)) == nanos,
{
    lemma_small_mod((secs + EPOCH_DELTA) as nat, 0x1_0000_0000 as nat);
    if nanos == 0 {
        assert(fraction_nanos_spec(0) == 0x8000_0000int / 0x1_0000_0000int);
    } else {
        let x = nanos * 0x1_0000_0000 + 500_000_000;
        lemma_fundamental_div_mod(x, 1_000_000_000);
        let w = x / 1_000_000_000;
        let r = x % 1_000_000_000;
        assert(x < 1_000_000_000 * 0x1_0000_0000);
        assert(w < 0x1_0000_0000);
        assert(timestamp_fraction_spec(nanos) == w);
        let y = w * 1_000_000_000 + 0x8000_0000;
        let off = 0x8000_0000 + 500_000_000 - r;
        assert(y == nanos * 0x1_0000_0000 + off);
        lemma_fundamental_div_mod_converse(y, 0x1_0000_0000, nanos, off);
    }
}

} // verus!
