use ntp::protocol::{DateFormat, ShortFormat, TimestampFormat};

#[test]
fn short_format_word_conversions() {
    let short = ShortFormat { seconds: 1, fraction: 2 };
    assert_eq!(short.to_word(), 0x0001_0002);
    assert_eq!(ShortFormat::from_word(0x0001_0002), short);
    let max = ShortFormat { seconds: 0xFFFF, fraction: 0xFFFF };
    assert_eq!(ShortFormat::from_word(max.to_word()), max);
}

#[test]
fn timestamp_format_word_conversions() {
    let timestamp = TimestampFormat { seconds: 3619455089, fraction: 774086252 };
    assert_eq!(timestamp.to_word(), (3619455089u64 << 32) | 774086252);
    assert_eq!(TimestampFormat::from_word(timestamp.to_word()), timestamp);
}

#[test]
fn short_format_wire_bytes() {
    let short = ShortFormat { seconds: 0x0102, fraction: 0xA0B0 };
    let mut bytes: Vec<u8> = Vec::new();
    short.write_to_bytes(&mut bytes);
    assert_eq!(bytes, vec![0x01, 0x02, 0xA0, 0xB0]);
    assert_eq!(ShortFormat::read_from_bytes(&bytes, 0), short);
}

#[test]
fn timestamp_format_wire_bytes() {
    let timestamp = TimestampFormat { seconds: 0x01020304, fraction: 0xA0B0C0D0 };
    let mut bytes: Vec<u8> = Vec::new();
    timestamp.write_to_bytes(&mut bytes);
    assert_eq!(bytes, vec![0x01, 0x02, 0x03, 0x04, 0xA0, 0xB0, 0xC0, 0xD0]);
    assert_eq!(TimestampFormat::read_from_bytes(&bytes, 0), timestamp);
}

#[test]
fn date_format_wire_bytes() {
    let date = DateFormat { era_number: -1, era_offset: 0x01020304, fraction: 0x1122334455667788 };
    let mut bytes: Vec<u8> = Vec::new();
    date.write_to_bytes(&mut bytes);
    assert_eq!(
        bytes,
        vec![
            0xFF, 0xFF, 0xFF, 0xFF, 0x01, 0x02, 0x03, 0x04, 0x11, 0x22, 0x33, 0x44, 0x55, 0x66,
            0x77, 0x88,
        ]
    );
    assert_eq!(DateFormat::read_from_bytes(&bytes, 0), date);

    let zero = DateFormat { era_number: 0, era_offset: 0, fraction: 0 };
    let mut zero_bytes: Vec<u8> = Vec::new();
    zero.write_to_bytes(&mut zero_bytes);
    assert_eq!(zero_bytes, vec![0u8; 16]);
}
