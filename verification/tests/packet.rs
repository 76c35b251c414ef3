use ntp::packet::Packet;
use ntp::protocol::{
    LeapIndicator, Mode, PrimarySource, ReferenceIdentifier, ShortFormat, Stratum,
    TimestampFormat, Version,
};

fn sample_bytes() -> Vec<u8> {
    vec![
        20u8, 1, 3, 240, 0, 0, 0, 0, 0, 0, 0, 24, 67, 68, 77, 65, 215, 188, 128, 105, 198, 169,
        46, 99, 215, 187, 177, 194, 159, 47, 120, 0, 215, 188, 128, 113, 45, 236, 230, 45, 215,
        188, 128, 113, 46, 35, 158, 108,
    ]
}

fn sample_packet() -> Packet {
    Packet {
        leap_indicator: LeapIndicator::NoWarning,
        version: Version::new(2),
        mode: Mode::Server,
        stratum: Stratum::new(1),
        poll: 3,
        precision: -16,
        root_delay: ShortFormat { seconds: 0, fraction: 0 },
        root_dispersion: ShortFormat { seconds: 0, fraction: 24 },
        reference_id: ReferenceIdentifier::PrimarySource(PrimarySource::Cdma),
        reference_timestamp: TimestampFormat { seconds: 3619455081, fraction: 3332976227 },
        origin_timestamp: TimestampFormat { seconds: 3619402178, fraction: 2670688256 },
        receive_timestamp: TimestampFormat { seconds: 3619455089, fraction: 770500141 },
        transmit_timestamp: TimestampFormat { seconds: 3619455089, fraction: 774086252 },
    }
}

#[test]
fn packet_packet_from_bytes() {
    let input = sample_bytes();
    let expected_output = sample_packet();
    assert_eq!(expected_output, Packet::try_from(&input).unwrap());
}

#[test]
fn packet_packet_to_bytes() {
    let expected_output = sample_bytes();
    let input = sample_packet();
    let output: Vec<u8> = input.to_bytes();
    assert_eq!(output, expected_output);
}

#[test]
fn packet_packet_conversion_roundtrip() {
    let input = sample_bytes();
    let output: Vec<u8> = Packet::try_from(&input).unwrap().to_bytes();
    assert_eq!(input.as_slice(), output.as_slice());
}

#[test]
fn protocol_packet_from_bytes() {
    let input = sample_bytes();
    let expected_output = sample_packet();
    assert_eq!(expected_output, Packet::read_from_bytes(&input).unwrap());
}

#[test]
fn protocol_packet_to_bytes() {
    let expected_output = sample_bytes();
    let input = sample_packet();
    let mut output: Vec<u8> = Vec::new();
    input.write_to_bytes(&mut output);
    assert_eq!(output, expected_output);
}

#[test]
fn protocol_packet_conversion_roundtrip() {
    let input = sample_bytes();
    let output: Vec<u8> = Packet::read_from_bytes(&input).unwrap().to_bytes();
    assert_eq!(input.as_slice(), output.as_slice());
}

#[test]
fn encoded_packet_decodes_back() {
    let packet = Packet {
        leap_indicator: LeapIndicator::AddOne,
        version: Version::new(4),
        mode: Mode::Client,
        stratum: Stratum::new(7),
        poll: -3,
        precision: 17,
        root_delay: ShortFormat { seconds: 513, fraction: 65535 },
        root_dispersion: ShortFormat { seconds: 0, fraction: 1 },
        reference_id: ReferenceIdentifier::SecondaryOrClient([10, 0, 200, 31]),
        reference_timestamp: TimestampFormat { seconds: 1, fraction: 2 },
        origin_timestamp: TimestampFormat { seconds: 3, fraction: 4 },
        receive_timestamp: TimestampFormat { seconds: 0xFFFF_FFFF, fraction: 0 },
        transmit_timestamp: TimestampFormat { seconds: 0, fraction: 0xFFFF_FFFF },
    };
    let bytes = packet.to_bytes();
    assert_eq!(bytes.len(), 48);
    assert_eq!(Packet::read_from_bytes(&bytes).unwrap(), packet);
}

#[test]
fn encode_does_not_check_stratum_against_identifier() {
    // A primary stratum carrying raw identifier bytes is inconsistent, yet
    // it encodes; decoding then reinterprets the word under the stratum.
    let packet = Packet {
        stratum: Stratum::new(1),
        reference_id: ReferenceIdentifier::SecondaryOrClient([67, 68, 77, 65]),
        ..sample_packet()
    };
    let bytes = packet.to_bytes();
    assert_eq!(bytes.len(), 48);
    let back = Packet::read_from_bytes(&bytes).unwrap();
    assert_eq!(
        back.reference_id,
        ReferenceIdentifier::PrimarySource(PrimarySource::Cdma)
    );
}

#[test]
fn new_client_fields() {
    let transmit = TimestampFormat { seconds: 3619455089, fraction: 774086252 };
    let packet = Packet::new_client_with_transmit(transmit);
    assert_eq!(packet.mode, Mode::Client);
    assert_eq!(packet.version.raw(), 4);
    assert_eq!(packet.stratum.get_value(), 0);
    assert_eq!(packet.transmit_timestamp, transmit);
    assert_eq!(packet.origin_timestamp, TimestampFormat { seconds: 0, fraction: 0 });
    assert_eq!(packet.to_bytes().len(), 48);

    let live = Packet::new_client();
    assert_eq!(live.mode, Mode::Client);
    assert_eq!(live.version.raw(), 4);
    assert_eq!(live.to_bytes().len(), 48);
}
