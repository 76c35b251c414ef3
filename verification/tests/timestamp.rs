use ntp::protocol::{ShortFormat, TimestampFormat};
use ntp::unix_time::Instant;
use ntp::unix_time::EPOCH_DELTA;

#[test]
fn timestamp_conversions() {
    // A sampled instant survives the trip through the timestamp format:
    // the seconds come back exactly, the nanoseconds within a microsecond.
    let instant = Instant::new(1_600_000_000, 123_456_789);
    let timestamp = TimestampFormat::from_instant(&instant);
    assert_eq!(timestamp.seconds as i64, 1_600_000_000 + EPOCH_DELTA);
    let back = Instant::from_timestamp_format(timestamp);
    assert_eq!(back.secs(), 1_600_000_000);
    assert!((back.subsec_nanos() - 123_456_789).abs() <= 1_000);
}

#[test]
fn timestamp_round_trip_now() {
    let instant = Instant::now();
    if instant.secs() >= 0 && instant.subsec_nanos() >= 0 {
        let timestamp = TimestampFormat::from_instant(&instant);
        let back = Instant::from_timestamp_format(timestamp);
        assert_eq!(back.secs(), instant.secs());
        assert!((back.subsec_nanos() - instant.subsec_nanos()).abs() <= 1_000);
    }
}

#[test]
fn timestamp_fraction_exact_values() {
    // Half a second is exactly half of the 2^32 fraction scale.
    let half = Instant::new(0, 500_000_000);
    let timestamp = TimestampFormat::from_instant(&half);
    assert_eq!(timestamp.seconds, 2_208_988_800);
    assert_eq!(timestamp.fraction, 0x8000_0000);

    let back = Instant::from_timestamp_format(timestamp);
    assert_eq!(back.secs(), 0);
    assert_eq!(back.subsec_nanos(), 500_000_000);
}

#[test]
fn short_format_uses_timestamp_scale() {
    // The short format deliberately reuses the 2^32 scale: half a second
    // scales to 2^31, far over the 16-bit field, so the fraction clamps.
    let half = Instant::new(0, 500_000_000);
    let short = ShortFormat::from_instant(&half);
    assert_eq!(short.seconds, (2_208_988_800u64 % 65_536) as u16);
    assert_eq!(short.fraction, 0xFFFF);
}

#[test]
fn short_format_small_fraction_to_instant() {
    // A fraction of at most 2 scales to zero nanoseconds at the 2^32
    // scale, which is the only short-format fraction an instant can hold.
    let short = ShortFormat { seconds: 5, fraction: 2 };
    let instant = Instant::from_short_format(short);
    assert_eq!(instant.secs(), 5 - EPOCH_DELTA);
    assert_eq!(instant.subsec_nanos(), 0);
}

#[test]
fn instant_sign_invariant() {
    // Mixed signs are rejected; a zero seconds component permits any sign.
    assert!(!Instant::same_sign(1, -1));
    assert!(!Instant::same_sign(-1, 1));
    assert!(Instant::same_sign(0, -5));
    assert!(Instant::same_sign(0, 5));
    assert!(Instant::same_sign(7, 0));
    assert!(Instant::same_sign(-7, 0));
    assert!(Instant::same_sign(3, 4));
    assert!(Instant::same_sign(-3, -4));

    let before_epoch = Instant::new(-3, -4);
    assert_eq!(before_epoch.secs(), -3);
    assert_eq!(before_epoch.subsec_nanos(), -4);
    let zero_secs = Instant::new(0, -987);
    assert_eq!(zero_secs.subsec_nanos(), -987);
}

#[test]
fn now_is_well_formed() {
    let now = Instant::now();
    assert!(now.subsec_nanos() > -1_000_000_000);
    assert!(now.subsec_nanos() < 1_000_000_000);
    assert!(Instant::same_sign(now.secs(), now.subsec_nanos()));
}
