use ntp::errors::DecodeError;
use ntp::packet::{ConstPackedSizeBytes, Packet, PACKED_SIZE_BYTES};
use ntp::protocol::{
    KissOfDeath, LeapIndicator, Mode, PrimarySource, ReferenceIdentifier, Stratum, Version,
    MAXSTRAT, MINPOLL, PORT,
};

fn bytes_with(first: u8, stratum: u8, ref_id: [u8; 4]) -> Vec<u8> {
    let mut bytes = vec![first, stratum, 3, 240];
    bytes.extend_from_slice(&[0; 8]);
    bytes.extend_from_slice(&ref_id);
    bytes.extend_from_slice(&[0; 32]);
    bytes
}

#[test]
fn stratum_classification() {
    assert!(Stratum::new(0).unspecified());
    assert!(Stratum::new(0).invalid());
    assert!(!Stratum::new(1).unspecified());
    assert!(Stratum::new(1).primary());
    assert!(Stratum::new(2).secondary());
    assert!(Stratum::new(15).secondary());
    assert!(!Stratum::new(16).secondary());
    assert!(Stratum::new(2).is_secondary());
    assert!(Stratum::new(16).unsynchronized());
    assert!(Stratum::new(17).reserved());
    assert!(Stratum::new(255).reserved());
    assert!(!Stratum::new(16).reserved());
    assert!(Stratum::new(17).is_reserved());
    assert!(!Stratum::new(16).is_reserved());
    assert_eq!(Stratum::new(42).get_value(), 42);
}

#[test]
fn version_is_known_only_for_one_through_four() {
    for raw in 0u8..=7 {
        let version = Version::new(raw);
        assert_eq!(version.raw(), raw);
        assert_eq!(version.is_known(), (1..=4).contains(&raw));
    }
}

#[test]
fn every_version_code_decodes() {
    for raw in 0u8..=7 {
        let first = (raw << 3) | 4;
        let input = bytes_with(first, 1, [67, 68, 77, 65]);
        let packet = Packet::read_from_bytes(&input).unwrap();
        assert_eq!(packet.version.raw(), raw);
    }
}

#[test]
fn every_leap_indicator_and_mode_decodes() {
    let leaps = [
        LeapIndicator::NoWarning,
        LeapIndicator::AddOne,
        LeapIndicator::SubOne,
        LeapIndicator::Unknown,
    ];
    for (li, expected_li) in leaps.iter().enumerate() {
        for mode in 0u8..=7 {
            let first = ((li as u8) << 6) | (2 << 3) | mode;
            let input = bytes_with(first, 2, [0, 0, 0, 0]);
            let packet = Packet::read_from_bytes(&input).unwrap();
            assert_eq!(packet.leap_indicator, *expected_li);
            assert_eq!(packet.mode.code(), mode);
        }
    }
    assert_eq!(Mode::from_code(4), Some(Mode::Server));
    assert_eq!(Mode::from_code(8), None);
    assert_eq!(LeapIndicator::from_code(3), Some(LeapIndicator::Unknown));
    assert_eq!(LeapIndicator::from_code(4), None);
}

#[test]
fn stratum_boundary_decoding() {
    // Stratum 1 with a known source code: a primary-source identifier.
    let primary = Packet::read_from_bytes(&bytes_with(20, 1, [67, 68, 77, 65])).unwrap();
    assert_eq!(
        primary.reference_id,
        ReferenceIdentifier::PrimarySource(PrimarySource::Cdma)
    );

    // Stratum 1 with a kiss code: a kiss-of-death identifier.
    let deny = Packet::read_from_bytes(&bytes_with(20, 1, *b"DENY")).unwrap();
    assert_eq!(deny.reference_id, ReferenceIdentifier::KissOfDeath(KissOfDeath::Deny));
    let rstr = Packet::read_from_bytes(&bytes_with(20, 1, *b"RSTR")).unwrap();
    assert_eq!(rstr.reference_id, ReferenceIdentifier::KissOfDeath(KissOfDeath::Rstr));
    let rate = Packet::read_from_bytes(&bytes_with(20, 1, *b"RATE")).unwrap();
    assert_eq!(rate.reference_id, ReferenceIdentifier::KissOfDeath(KissOfDeath::Rate));

    // Every secondary stratum keeps the raw identifier bytes.
    for stratum in 2u8..=15 {
        let packet = Packet::read_from_bytes(&bytes_with(20, stratum, [10, 0, 0, 1])).unwrap();
        assert_eq!(
            packet.reference_id,
            ReferenceIdentifier::SecondaryOrClient([10, 0, 0, 1])
        );
        assert_eq!(packet.stratum.get_value(), stratum);
    }

    // Stratum 0, 16 and the reserved range never decode.
    for stratum in [0u8, 16, 17, 255] {
        let result = Packet::read_from_bytes(&bytes_with(20, stratum, [67, 68, 77, 65]));
        assert_eq!(result, Err(DecodeError::UnsupportedStratum));
    }
}

#[test]
fn unknown_reference_id_fails() {
    let result = Packet::read_from_bytes(&bytes_with(20, 1, *b"XXXX"));
    assert_eq!(result, Err(DecodeError::UnknownReferenceId));
}

#[test]
fn truncated_input_fails() {
    let short = vec![0u8; 47];
    assert_eq!(Packet::read_from_bytes(&short), Err(DecodeError::Truncated));
    assert_eq!(Packet::read_from_bytes(&[]), Err(DecodeError::Truncated));
}

#[test]
fn extra_bytes_are_ignored() {
    let mut input = bytes_with(20, 3, [1, 2, 3, 4]);
    input.extend_from_slice(&[0xAA; 20]);
    let packet = Packet::read_from_bytes(&input).unwrap();
    assert_eq!(packet.to_bytes().as_slice(), &input[..48]);
}

#[test]
fn packed_size_is_48() {
    assert_eq!(PACKED_SIZE_BYTES, 48);
    assert_eq!(<Packet as ConstPackedSizeBytes>::PACKED_SIZE_BYTES, 48);
    assert_eq!(<Stratum as ConstPackedSizeBytes>::PACKED_SIZE_BYTES, 1);
    let packet = Packet::read_from_bytes(&bytes_with(20, 2, [0, 0, 0, 0])).unwrap();
    assert_eq!(packet.to_bytes().len(), 48);
}

#[test]
fn primary_source_bytes() {
    assert_eq!(PrimarySource::Cdma.bytes(), [67, 68, 77, 65]);
    assert_eq!(&PrimarySource::Goes.bytes(), b"GOES");
    assert_eq!(&PrimarySource::Gps.bytes(), b"GPS\0");
    assert_eq!(&PrimarySource::Goog.bytes(), b"GOOG");
    assert_eq!(PrimarySource::Null.bytes(), [0, 0, 0, 0]);
    assert_eq!(PrimarySource::from_code(1128549697), Some(PrimarySource::Cdma));
    assert_eq!(PrimarySource::from_code(u32::from_be_bytes(*b"XXXX")), None);
}

#[test]
fn protocol_constants() {
    assert_eq!(PORT, 123);
    assert_eq!(MINPOLL, 4);
    assert_eq!(MAXSTRAT, 16);
}
