//! The byte codec: big-endian helpers and the per-field wire encodings.
//!
//! Every multi-byte header field is written as a network-endian (big-endian)
//! integer. The spec functions here pin down the exact bytes, and the
//! round-trip lemmas show that reading inverts writing.

use vstd::prelude::*;
use crate::errors::DecodeError;
use crate::packet::{wire_consistent, Packet, PACKED_SIZE_BYTES};
use crate::protocol::{
    DateFormat, KissOfDeath, LeapIndicator, Mode, PrimarySource, ReferenceIdentifier, ShortFormat,
    Stratum, TimestampFormat, Version,
};

verus! {

/// The big-endian bytes of a 16-bit unsigned integer.
pub open spec fn u16_be_spec(x: u16) -> Seq<u8> {
    seq![((x >> 8) & 0xff) as u8, (x & 0xff) as u8]
}

/// The 16-bit unsigned integer denoted by two big-endian bytes.
pub open spec fn be_u16_spec(b0: u8, b1: u8) -> u16 {
    (b0 as u16) << 8 | (b1 as u16)
}

/// The big-endian bytes of a 32-bit unsigned integer.
pub open spec fn u32_be_spec(x: u32) -> Seq<u8> {
    seq![
        ((x >> 24) & 0xff) as u8,
        ((x >> 16) & 0xff) as u8,
        ((x >> 8) & 0xff) as u8,
        (x & 0xff) as u8,
    ]
}

/// The 32-bit unsigned integer denoted by four big-endian bytes.
pub open spec fn be_u32_spec(b0: u8, b1: u8, b2: u8, b3: u8) -> u32 {
    (b0 as u32) << 24 | (b1 as u32) << 16 | (b2 as u32) << 8 | (b3 as u32)
}

/// The big-endian bytes of a 64-bit unsigned integer.
pub open spec fn u64_be_spec(x: u64) -> Seq<u8> {
    seq![
        ((x >> 56) & 0xff) as u8,
        ((x >> 48) & 0xff) as u8,
        ((x >> 40) & 0xff) as u8,
        ((x >> 32) & 0xff) as u8,
        ((x >> 24) & 0xff) as u8,
        ((x >> 16) & 0xff) as u8,
        ((x >> 8) & 0xff) as u8,
        (x & 0xff) as u8,
    ]
}

/// The two's-complement unsigned reading of a signed byte.
pub open spec fn u8_of_i8(x: i8) -> u8 {
    if x >= 0 {
        x as u8
    } else {
        (x + 256) as u8
    }
}

/// The signed reading of a two's-complement byte.
pub open spec fn i8_of_u8(b: u8) -> i8 {
    if b < 128 {
        b as i8
    } else {
        (b - 256) as i8
    }
}

/// The two's-complement unsigned reading of a signed 32-bit integer.
pub open spec fn u32_of_i32(x: i32) -> u32 {
    if x >= 0 {
        x as u32
    } else {
        (x + 0x1_0000_0000) as u32
    }
}

/// The signed reading of a two's-complement 32-bit value.
pub open spec fn i32_of_u32(b: u32) -> i32 {
    if b < 0x8000_0000 {
        b as i32
    } else {
        (b - 0x1_0000_0000) as i32
    }
}

/// The packed first header byte: leap indicator in the top two bits, version
/// in the next three, mode in the low three.
pub open spec fn pack_li_vn_mode_spec(li: u8, vn: u8, mode: u8) -> u8 {
    li << 6 | vn << 3 | mode
}

/// The 2-bit leap indicator code held in a packed first header byte.
pub open spec fn li_of_packed_spec(b: u8) -> u8 {
    b >> 6
}

/// The 3-bit version code held in a packed first header byte.
pub open spec fn vn_of_packed_spec(b: u8) -> u8 {
    (b >> 3) & 0b111
}

/// The 3-bit mode code held in a packed first header byte.
pub open spec fn mode_of_packed_spec(b: u8) -> u8 {
    b & 0b111
}

pub proof fn lemma_u16_be_value_roundtrip(x: u16)
    ensures
        be_u16_spec(u16_be_spec(x)[0], u16_be_spec(x)[1]) == x,
{
    assert((x >> 8) & 0xff < 256 && x & 0xff < 256) by (bit_vector);
    assert(((x >> 8) & 0xff) << 8 | (x & 0xff) == x) by (bit_vector);
}

pub proof fn lemma_u16_be_bytes_roundtrip(b0: u8, b1: u8)
    ensures
        u16_be_spec(be_u16_spec(b0, b1)) == seq![b0, b1],
{
    let x = be_u16_spec(b0, b1);
    let y0 = b0 as u16;
    let y1 = b1 as u16;
    assert(y0 < 256 && y1 < 256 ==> ((y0 << 8 | y1) >> 8) & 0xff == y0 && (y0 << 8 | y1) & 0xff
        == y1) by (bit_vector);
    assert(u16_be_spec(x) =~= seq![b0, b1]);
}

pub proof fn lemma_u32_be_value_roundtrip(x: u32)
    ensures
        be_u32_spec(u32_be_spec(x)[0], u32_be_spec(x)[1], u32_be_spec(x)[2], u32_be_spec(x)[3])
            == x,
{
    assert((x >> 24) & 0xff < 256 && (x >> 16) & 0xff < 256 && (x >> 8) & 0xff < 256 && x & 0xff
        < 256) by (bit_vector);
    assert(((x >> 24) & 0xff) << 24 | ((x >> 16) & 0xff) << 16 | ((x >> 8) & 0xff) << 8 | (x
        & 0xff) == x) by (bit_vector);
}

pub proof fn lemma_u32_be_bytes_roundtrip(b0: u8, b1: u8, b2: u8, b3: u8)
    ensures
        u32_be_spec(be_u32_spec(b0, b1, b2, b3)) == seq![b0, b1, b2, b3],
{
    let x = be_u32_spec(b0, b1, b2, b3);
    let y0 = b0 as u32;
    let y1 = b1 as u32;
    let y2 = b2 as u32;
    let y3 = b3 as u32;
    assert(y0 < 256 && y1 < 256 && y2 < 256 && y3 < 256 ==> {
        let z = y0 << 24 | y1 << 16 | y2 << 8 | y3;
        (z >> 24) & 0xff == y0 && (z >> 16) & 0xff == y1 && (z >> 8) & 0xff == y2 && z & 0xff == y3
    }) by (bit_vector);
    assert(u32_be_spec(x) =~= seq![b0, b1, b2, b3]);
}

pub proof fn lemma_u64_be_value_roundtrip(x: u64)
    ensures
        u64_be_spec(x).len() == 8,
        be_u64_of(u64_be_spec(x)) == x,
{
    assert((x >> 56) & 0xff < 256 && (x >> 48) & 0xff < 256 && (x >> 40) & 0xff < 256 && (x >> 32)
        & 0xff < 256 && (x >> 24) & 0xff < 256 && (x >> 16) & 0xff < 256 && (x >> 8) & 0xff < 256
        && x & 0xff < 256) by (bit_vector);
    assert(((x >> 56) & 0xff) << 56 | ((x >> 48) & 0xff) << 48 | ((x >> 40) & 0xff) << 40 | ((x
        >> 32) & 0xff) << 32 | ((x >> 24) & 0xff) << 24 | ((x >> 16) & 0xff) << 16 | ((x >> 8)
        & 0xff) << 8 | (x & 0xff) == x) by (bit_vector);
}

/// The 64-bit unsigned integer denoted by eight big-endian bytes.
pub open spec fn be_u64_of(b: Seq<u8>) -> u64 {
    (b[0] as u64) << 56 | (b[1] as u64) << 48 | (b[2] as u64) << 40 | (b[3] as u64) << 32 | (
    b[4] as u64) << 24 | (b[5] as u64) << 16 | (b[6] as u64) << 8 | (b[7] as u64)
}

pub proof fn lemma_u64_be_bytes_roundtrip(b: Seq<u8>)
    requires
        b.len() == 8,
    ensures
        u64_be_spec(be_u64_of(b)) == b,
{
    let x = be_u64_of(b);
    let y0 = b[0] as u64;
    let y1 = b[1] as u64;
    let y2 = b[2] as u64;
    let y3 = b[3] as u64;
    let y4 = b[4] as u64;
    let y5 = b[5] as u64;
    let y6 = b[6] as u64;
    let y7 = b[7] as u64;
    assert(y0 < 256 && y1 < 256 && y2 < 256 && y3 < 256 && y4 < 256 && y5 < 256 && y6 < 256 && y7
        < 256 ==> {
        let z = y0 << 56 | y1 << 48 | y2 << 40 | y3 << 32 | y4 << 24 | y5 << 16 | y6 << 8 | y7;
        (z >> 56) & 0xff == y0 && (z >> 48) & 0xff == y1 && (z >> 40) & 0xff == y2 && (z >> 32)
            & 0xff == y3 && (z >> 24) & 0xff == y4 && (z >> 16) & 0xff == y5 && (z >> 8) & 0xff
            == y6 && z & 0xff == y7
    }) by (bit_vector);
    assert(u64_be_spec(x) =~= b);
}

pub proof fn lemma_i8_byte_roundtrip(x: i8, b: u8)
    ensures
        i8_of_u8(u8_of_i8(x)) == x,
        u8_of_i8(i8_of_u8(b)) == b,
{
}

pub proof fn lemma_i32_word_roundtrip(x: i32, b: u32)
    ensures
        i32_of_u32(u32_of_i32(x)) == x,
        u32_of_i32(i32_of_u32(b)) == b,
{
}

pub proof fn lemma_packed_byte_fields(li: u8, vn: u8, mode: u8)
    requires
        li <= 3,
        vn <= 7,
        mode <= 7,
    ensures
        li_of_packed_spec(pack_li_vn_mode_spec(li, vn, mode)) == li,
        vn_of_packed_spec(pack_li_vn_mode_spec(li, vn, mode)) == vn,
        mode_of_packed_spec(pack_li_vn_mode_spec(li, vn, mode)) == mode,
{
    assert(li <= 3 && vn <= 7 && mode <= 7 ==> {
        let b = li << 6 | vn << 3 | mode;
        b >> 6 == li && (b >> 3) & 0b111 == vn && b & 0b111 == mode
    }) by (bit_vector);
}

pub proof fn lemma_packed_byte_roundtrip(b: u8)
    ensures
        li_of_packed_spec(b) <= 3,
        vn_of_packed_spec(b) <= 7,
        mode_of_packed_spec(b) <= 7,
        pack_li_vn_mode_spec(li_of_packed_spec(b), vn_of_packed_spec(b), mode_of_packed_spec(b))
            == b,
{
    assert(b >> 6 <= 3 && (b >> 3) & 0b111 <= 7 && b & 0b111 <= 7 && ((b >> 6) << 6 | ((b >> 3)
        & 0b111) << 3 | (b & 0b111)) == b) by (bit_vector);
}

/// The four big-endian bytes of a 32-bit value, as an array.
pub fn be_u32_to_bytes(u: u32) -> (r: [u8; 4])
    ensures
        r@ == u32_be_spec(u),
{
    let r = [((u >> 24) & 0xff) as u8, ((u >> 16) & 0xff) as u8, ((u >> 8) & 0xff) as u8, (u
        & 0xff) as u8];
    assert(r@ =~= u32_be_spec(u));
    r
}

/// The 32-bit value packed from four bytes, big-endian.
pub fn be_u32_from_bytes(b: &[u8; 4]) -> (r: u32)
    ensures
        r == be_u32_spec(b@[0], b@[1], b@[2], b@[3]),
{
    (b[0] as u32) << 24 | (b[1] as u32) << 16 | (b[2] as u32) << 8 | (b[3] as u32)
}

pub fn push_u16_be(out: &mut Vec<u8>, x: u16)
    ensures
        final(out)@ == old(out)@ + u16_be_spec(x),
{
    out.push(((x >> 8) & 0xff) as u8);
    out.push((x & 0xff) as u8);
    assert(final(out)@ =~= old(out)@ + u16_be_spec(x));
}

pub fn push_u32_be(out: &mut Vec<u8>, x: u32)
    ensures
        final(out)@ == old(out)@ + u32_be_spec(x),
{
    out.push(((x >> 24) & 0xff) as u8);
    out.push(((x >> 16) & 0xff) as u8);
    out.push(((x >> 8) & 0xff) as u8);
    out.push((x & 0xff) as u8);
    assert(final(out)@ =~= old(out)@ + u32_be_spec(x));
}

pub fn push_u64_be(out: &mut Vec<u8>, x: u64)
    ensures
        final(out)@ == old(out)@ + u64_be_spec(x),
{
    out.push(((x >> 56) & 0xff) as u8);
    out.push(((x >> 48) & 0xff) as u8);
    out.push(((x >> 40) & 0xff) as u8);
    out.push(((x >> 32) & 0xff) as u8);
    out.push(((x >> 24) & 0xff) as u8);
    out.push(((x >> 16) & 0xff) as u8);
    out.push(((x >> 8) & 0xff) as u8);
    out.push((x & 0xff) as u8);
    assert(final(out)@ =~= old(out)@ + u64_be_spec(x));
}

pub fn read_u16_be(bytes: &[u8], start: usize) -> (r: u16)
    requires
        start + 2 <= bytes@.len(),
    ensures
        r == be_u16_spec(bytes@[start as int], bytes@[start + 1]),
{
    (bytes[start] as u16) << 8 | (bytes[start + 1] as u16)
}

pub fn read_u32_be(bytes: &[u8], start: usize) -> (r: u32)
    requires
        start + 4 <= bytes@.len(),
    ensures
        r == be_u32_spec(
            bytes@[start as int],
            bytes@[start + 1],
            bytes@[start + 2],
            bytes@[start + 3],
        ),
{
    (bytes[start] as u32) << 24 | (bytes[start + 1] as u32) << 16 | (bytes[start + 2] as u32) << 8
        | (bytes[start + 3] as u32)
}

pub fn read_u64_be(bytes: &[u8], start: usize) -> (r: u64)
    requires
        start + 8 <= bytes@.len(),
    ensures
        r == be_u64_of(bytes@.subrange(start as int, start + 8)),
{
    let r = (bytes[start] as u64) << 56 | (bytes[start + 1] as u64) << 48 | (bytes[start
        + 2] as u64) << 40 | (bytes[start + 3] as u64) << 32 | (bytes[start + 4] as u64) << 24 | (
    bytes[start + 5] as u64) << 16 | (bytes[start + 6] as u64) << 8 | (bytes[start + 7] as u64);
    proof {
        let s = bytes@.subrange(start as int, start + 8);
        assert(s[0] == bytes@[start as int] && s[1] == bytes@[start + 1] && s[2] == bytes@[start
            + 2] && s[3] == bytes@[start + 3] && s[4] == bytes@[start + 4] && s[5] == bytes@[start
            + 5] && s[6] == bytes@[start + 6] && s[7] == bytes@[start + 7]);
    }
    r
}

/// Convert a signed byte to its two's-complement wire byte.
pub fn i8_to_wire(x: i8) -> (r: u8)
    ensures
        r == u8_of_i8(x),
{
    if x >= 0 {
        x as u8
    } else {
        ((x as i16) + 256) as u8
    }
}

/// Convert a two's-complement wire byte to the signed value it denotes.
pub fn i8_from_wire(b: u8) -> (r: i8)
    ensures
        r == i8_of_u8(b),
{
    if b < 128 {
        b as i8
    } else {
        ((b as i16) - 256) as i8
    }
}

/// Convert a signed 32-bit integer to its two's-complement wire word.
pub fn i32_to_wire(x: i32) -> (r: u32)
    ensures
        r == u32_of_i32(x),
{
    if x >= 0 {
        x as u32
    } else {
        ((x as i64) + 0x1_0000_0000) as u32
    }
}

/// Convert a two's-complement wire word to the signed value it denotes.
pub fn i32_from_wire(b: u32) -> (r: i32)
    ensures
        r == i32_of_u32(b),
{
    if b < 0x8000_0000 {
        b as i32
    } else {
        ((b as i64) - 0x1_0000_0000) as i32
    }
}

/// The four wire bytes of a short-format value: 16-bit seconds, then 16-bit
/// fraction, both big-endian.
pub open spec fn short_format_bytes_spec(t: ShortFormat) -> Seq<u8> {
    u16_be_spec(t.seconds) + u16_be_spec(t.fraction)
}

/// The eight wire bytes of a timestamp-format value: 32-bit seconds, then
/// 32-bit fraction, both big-endian.
pub open spec fn timestamp_format_bytes_spec(t: TimestampFormat) -> Seq<u8> {
    u32_be_spec(t.seconds) + u32_be_spec(t.fraction)
}

/// The sixteen wire bytes of a date-format value: signed 32-bit era number,
/// 32-bit era offset, 64-bit fraction, all big-endian.
pub open spec fn date_format_bytes_spec(t: DateFormat) -> Seq<u8> {
    u32_be_spec(u32_of_i32(t.era_number)) + u32_be_spec(t.era_offset) + u64_be_spec(t.fraction)
}

impl ShortFormat {
    /// Append the four wire bytes of this value.
    pub fn write_to_bytes(&self, out: &mut Vec<u8>)
        ensures
            final(out)@ == old(out)@ + short_format_bytes_spec(*self),
    {
        push_u16_be(out, self.seconds);
        push_u16_be(out, self.fraction);
        assert(final(out)@ =~= old(out)@ + short_format_bytes_spec(*self));
    }

    /// Read a short-format value from four wire bytes.
    pub fn read_from_bytes(bytes: &[u8], start: usize) -> (r: ShortFormat)
        requires
            start + 4 <= bytes@.len(),
        ensures
            r.seconds == be_u16_spec(bytes@[start as int], bytes@[start + 1]),
            r.fraction == be_u16_spec(bytes@[start + 2], bytes@[start + 3]),
    {
        proof {
            vstd::slice::axiom_spec_len(bytes);
        }
        let seconds = read_u16_be(bytes, start);
        let fraction = read_u16_be(bytes, start + 2);
        ShortFormat { seconds, fraction }
    }
}

impl TimestampFormat {
    /// Append the eight wire bytes of this value.
    pub fn write_to_bytes(&self, out: &mut Vec<u8>)
        ensures
            final(out)@ == old(out)@ + timestamp_format_bytes_spec(*self),
    {
        push_u32_be(out, self.seconds);
        push_u32_be(out, self.fraction);
        assert(final(out)@ =~= old(out)@ + timestamp_format_bytes_spec(*self));
    }

    /// Read a timestamp-format value from eight wire bytes.
    pub fn read_from_bytes(bytes: &[u8], start: usize) -> (r: TimestampFormat)
        requires
            start + 8 <= bytes@.len(),
        ensures
            r.seconds == be_u32_spec(
                bytes@[start as int],
                bytes@[start + 1],
                bytes@[start + 2],
                bytes@[start + 3],
            ),
            r.fraction == be_u32_spec(
                bytes@[start + 4],
                bytes@[start + 5],
                bytes@[start + 6],
                bytes@[start + 7],
            ),
    {
        proof {
            vstd::slice::axiom_spec_len(bytes);
        }
        let seconds = read_u32_be(bytes, start);
        let fraction = read_u32_be(bytes, start + 4);
        TimestampFormat { seconds, fraction }
    }
}

impl DateFormat {
    /// Append the sixteen wire bytes of this value.
    pub fn write_to_bytes(&self, out: &mut Vec<u8>)
        ensures
            final(out)@ == old(out)@ + date_format_bytes_spec(*self),
    {
        push_u32_be(out, i32_to_wire(self.era_number));
        push_u32_be(out, self.era_offset);
        push_u64_be(out, self.fraction);
        assert(final(out)@ =~= old(out)@ + date_format_bytes_spec(*self));
    }

    /// Read a date-format value from sixteen wire bytes.
    pub fn read_from_bytes(bytes: &[u8], start: usize) -> (r: DateFormat)
        requires
            start + 16 <= bytes@.len(),
        ensures
            r.era_number == i32_of_u32(
                be_u32_spec(
                    bytes@[start as int],
                    bytes@[start + 1],
                    bytes@[start + 2],
                    bytes@[start + 3],
                ),
            ),
            r.era_offset == be_u32_spec(
                bytes@[start + 4],
                bytes@[start + 5],
                bytes@[start + 6],
                bytes@[start + 7],
            ),
            r.fraction == be_u64_of(bytes@.subrange(start + 8, start + 16)),
    {
        proof {
            vstd::slice::axiom_spec_len(bytes);
        }
        let era_number = i32_from_wire(read_u32_be(bytes, start));
        let era_offset = read_u32_be(bytes, start + 4);
        let fraction = read_u64_be(bytes, start + 8);
        DateFormat { era_number, era_offset, fraction }
    }
}

impl Stratum {
    /// Append the single wire byte of this value.
    pub fn write_to_bytes(&self, out: &mut Vec<u8>)
        ensures
            final(out)@ == old(out)@ + seq![self@],
    {
        out.push(self.get_value());
    }

    /// Read a stratum from its single wire byte.
    pub fn read_from_bytes(bytes: &[u8], start: usize) -> (r: Stratum)
        requires
            start < bytes@.len(),
        ensures
            r@ == bytes@[start as int],
    {
        Stratum::new(bytes[start])
    }
}

impl PrimarySource {
    /// The bytestring representation of the primary source: its wire code
    /// split back into the four ASCII bytes.
    pub fn bytes(&self) -> (r: [u8; 4])
        ensures
            r@ == u32_be_spec(self.code_spec()),
    {
        be_u32_to_bytes(self.code())
    }
}

/// The single 32-bit word holding a short format's seconds then fraction.
pub open spec fn short_format_word_spec(t: ShortFormat) -> u32 {
    (t.seconds as u32) << 16 | (t.fraction as u32)
}

/// The single 64-bit word holding a timestamp format's seconds then
/// fraction.
pub open spec fn timestamp_format_word_spec(t: TimestampFormat) -> u64 {
    (t.seconds as u64) << 32 | (t.fraction as u64)
}

impl ShortFormat {
    /// The single 32-bit word holding seconds then fraction.
    pub fn to_word(&self) -> (r: u32)
        ensures
            r == short_format_word_spec(*self),
    {
        (self.seconds as u32) << 16 | (self.fraction as u32)
    }

    /// The short-format value packed into a 32-bit word.
    pub fn from_word(w: u32) -> (r: ShortFormat)
        ensures
            r.seconds == (w >> 16) as u16,
            r.fraction == (w & 0xffff) as u16,
    {
        proof {
            assert(w >> 16 < 0x10000 && w & 0xffff < 0x10000) by (bit_vector);
        }
        ShortFormat { seconds: (w >> 16) as u16, fraction: (w & 0xffff) as u16 }
    }
}

impl TimestampFormat {
    /// The single 64-bit word holding seconds then fraction.
    pub fn to_word(&self) -> (r: u64)
        ensures
            r == timestamp_format_word_spec(*self),
    {
        (self.seconds as u64) << 32 | (self.fraction as u64)
    }

    /// The timestamp-format value packed into a 64-bit word.
    pub fn from_word(w: u64) -> (r: TimestampFormat)
        ensures
            r.seconds == (w >> 32) as u32,
            r.fraction == (w & 0xffff_ffff) as u32,
    {
        proof {
            assert(w >> 32 < 0x1_0000_0000 && w & 0xffff_ffff < 0x1_0000_0000) by (bit_vector);
        }
        TimestampFormat { seconds: (w >> 32) as u32, fraction: (w & 0xffff_ffff) as u32 }
    }
}

/// Packing a short format into a word and unpacking it returns its fields,
/// and likewise for the timestamp format.
pub proof fn lemma_word_roundtrip(s: ShortFormat, t: TimestampFormat)
    ensures
        short_format_word_spec(s) >> 16 == s.seconds,
        short_format_word_spec(s) & 0xffff == s.fraction,
        timestamp_format_word_spec(t) >> 32 == t.seconds,
        timestamp_format_word_spec(t) & 0xffff_ffff == t.fraction,
{
    let ss = s.seconds as u32;
    let sf = s.fraction as u32;
    assert(ss < 0x10000 && sf < 0x10000 ==> (ss << 16 | sf) >> 16 == ss && (ss << 16 | sf)
        & 0xffff == sf) by (bit_vector);
    let ts = t.seconds as u64;
    let tf = t.fraction as u64;
    assert(ts < 0x1_0000_0000 && tf < 0x1_0000_0000 ==> (ts << 32 | tf) >> 32 == ts && (ts << 32
        | tf) & 0xffff_ffff == tf) by (bit_vector);
}

/// The 32-bit word that an identifier writes into the reference-id field.
pub open spec fn reference_id_word_spec(r: ReferenceIdentifier) -> u32 {
    match r {
        ReferenceIdentifier::PrimarySource(s) => s.code_spec(),
        ReferenceIdentifier::SecondaryOrClient(a) => be_u32_spec(a@[0], a@[1], a@[2], a@[3]),
        ReferenceIdentifier::KissOfDeath(k) => k.code_spec(),
    }
}

/// Append the packed first header byte of a leap indicator, version and
/// mode: two, three and three bits.
pub fn write_packet_byte1(li: LeapIndicator, vn: Version, mode: Mode, out: &mut Vec<u8>)
    ensures
        final(out)@ == old(out)@ + seq![
            pack_li_vn_mode_spec(li.code_spec(), vn@, mode.code_spec()),
        ],
{
    let byte = li.code() << 6 | vn.raw() << 3 | mode.code();
    out.push(byte);
    assert(final(out)@ =~= old(out)@ + seq![
        pack_li_vn_mode_spec(li.code_spec(), vn@, mode.code_spec()),
    ]);
}

/// Read the packed first header byte. The version is taken as it stands;
/// the leap indicator and mode codes are checked against their
/// enumerations, which cover their code spaces, so the read always
/// succeeds; the checks stand for forward compatibility.
pub fn read_packet_byte1(b0: u8) -> (r: Result<(LeapIndicator, Version, Mode), DecodeError>)
    ensures
        r is Ok,
        r matches Ok(t) ==> {
            &&& t.0.code_spec() == li_of_packed_spec(b0)
            &&& t.1@ == vn_of_packed_spec(b0)
            &&& t.2.code_spec() == mode_of_packed_spec(b0)
        },
{
    proof {
        lemma_packed_byte_roundtrip(b0);
    }
    let li_code = b0 >> 6;
    let vn_code = (b0 >> 3) & 0b111;
    let mode_code = b0 & 0b111;
    let li = match LeapIndicator::from_code(li_code) {
        Some(li) => li,
        None => {
            return Err(DecodeError::UnknownLeapIndicator);
        },
    };
    let vn = Version::new(vn_code);
    let mode = match Mode::from_code(mode_code) {
        Some(mode) => mode,
        None => {
            return Err(DecodeError::UnknownMode);
        },
    };
    proof {
        crate::protocol::lemma_leap_indicator_codes(li, li_code);
        crate::protocol::lemma_mode_codes(mode, mode_code);
    }
    Ok((li, vn, mode))
}

/// Reading back the sixteen wire bytes of a date-format value returns its
/// fields, and writing the fields read from sixteen bytes reproduces the
/// bytes.
pub proof fn lemma_date_format_roundtrip(d: DateFormat, b: Seq<u8>)
    requires
        b.len() == 16,
    ensures
        ({
            let w = date_format_bytes_spec(d);
            &&& w.len() == 16
            &&& i32_of_u32(be_u32_spec(w[0], w[1], w[2], w[3])) == d.era_number
            &&& be_u32_spec(w[4], w[5], w[6], w[7]) == d.era_offset
            &&& be_u64_of(w.subrange(8, 16)) == d.fraction
        }),
        date_format_bytes_spec(
            (DateFormat {
                era_number: i32_of_u32(be_u32_spec(b[0], b[1], b[2], b[3])),
                era_offset: be_u32_spec(b[4], b[5], b[6], b[7]),
                fraction: be_u64_of(b.subrange(8, 16)),
            }),
        ) == b,
{
    let w = date_format_bytes_spec(d);
    lemma_u32_be_value_roundtrip(u32_of_i32(d.era_number));
    lemma_i32_word_roundtrip(d.era_number, 0);
    lemma_u32_be_value_roundtrip(d.era_offset);
    assert(w.subrange(8, 16) =~= u64_be_spec(d.fraction));
    lemma_u64_be_value_roundtrip(d.fraction);

    lemma_u32_be_bytes_roundtrip(b[0], b[1], b[2], b[3]);
    lemma_i32_word_roundtrip(0, be_u32_spec(b[0], b[1], b[2], b[3]));
    lemma_u32_be_bytes_roundtrip(b[4], b[5], b[6], b[7]);
    lemma_u64_be_bytes_roundtrip(b.subrange(8, 16));
    let d2 = (DateFormat {
        era_number: i32_of_u32(be_u32_spec(b[0], b[1], b[2], b[3])),
        era_offset: be_u32_spec(b[4], b[5], b[6], b[7]),
        fraction: be_u64_of(b.subrange(8, 16)),
    });
    assert(date_format_bytes_spec(d2) =~= b);
}

impl ReferenceIdentifier {
    /// The 32-bit word this identifier writes on the wire.
    pub fn to_word(&self) -> (r: u32)
        ensures
            r == reference_id_word_spec(*self),
    {
        match self {
            ReferenceIdentifier::PrimarySource(s) => s.code(),
            ReferenceIdentifier::SecondaryOrClient(a) => be_u32_from_bytes(a),
            ReferenceIdentifier::KissOfDeath(k) => k.code(),
        }
    }

    /// Append the four wire bytes of this identifier.
    pub fn write_to_bytes(&self, out: &mut Vec<u8>)
        ensures
            final(out)@ == old(out)@ + u32_be_spec(reference_id_word_spec(*self)),
    {
        let word = self.to_word();
        push_u32_be(out, word);
    }
}

/// The packed first wire byte of a packet.
pub open spec fn packet_first_byte_spec(p: Packet) -> u8 {
    pack_li_vn_mode_spec(p.leap_indicator.code_spec(), p.version@, p.mode.code_spec())
}

/// The exact 48-byte wire form of a packet, field by field in the fixed
/// RFC 5905 order.
pub open spec fn packet_bytes_spec(p: Packet) -> Seq<u8> {
    seq![packet_first_byte_spec(p), p.stratum@, u8_of_i8(p.poll), u8_of_i8(p.precision)]
        + short_format_bytes_spec(p.root_delay) + short_format_bytes_spec(p.root_dispersion)
        + u32_be_spec(reference_id_word_spec(p.reference_id)) + timestamp_format_bytes_spec(
        p.reference_timestamp,
    ) + timestamp_format_bytes_spec(p.origin_timestamp) + timestamp_format_bytes_spec(
        p.receive_timestamp,
    ) + timestamp_format_bytes_spec(p.transmit_timestamp)
}

pub proof fn lemma_packet_bytes_len(p: Packet)
    ensures
        packet_bytes_spec(p).len() == 48,
{
}

/// The reference-identifier word of a 48-byte wire form.
pub open spec fn wire_reference_id_word_spec(b: Seq<u8>) -> u32 {
    be_u32_spec(b[12], b[13], b[14], b[15])
}

/// Whether a 32-bit reference-identifier word names a known primary source
/// or a known kiss code.
pub open spec fn reference_id_known_spec(w: u32) -> bool {
    PrimarySource::from_code_spec(w) is Some || KissOfDeath::from_code_spec(w) is Some
}

/// Whether decoding the given bytes yields a packet: at least 48 bytes, and
/// a stratum under which the reference-identifier word is interpretable.
pub open spec fn decode_ok_spec(b: Seq<u8>) -> bool {
    &&& b.len() >= 48
    &&& {
        ||| b[1] == 1 && reference_id_known_spec(wire_reference_id_word_spec(b))
        ||| 2 <= b[1] <= 15
    }
}

/// The field-by-field relation between 48 wire bytes and the packet they
/// decode to.
pub open spec fn decodes_to_spec(b: Seq<u8>, p: Packet) -> bool {
    let w = wire_reference_id_word_spec(b);
    &&& p.leap_indicator.code_spec() == li_of_packed_spec(b[0])
    &&& p.version@ == vn_of_packed_spec(b[0])
    &&& p.mode.code_spec() == mode_of_packed_spec(b[0])
    &&& p.stratum@ == b[1]
    &&& p.poll == i8_of_u8(b[2])
    &&& p.precision == i8_of_u8(b[3])
    &&& p.root_delay.seconds == be_u16_spec(b[4], b[5])
    &&& p.root_delay.fraction == be_u16_spec(b[6], b[7])
    &&& p.root_dispersion.seconds == be_u16_spec(b[8], b[9])
    &&& p.root_dispersion.fraction == be_u16_spec(b[10], b[11])
    &&& (b[1] == 1 ==> (match PrimarySource::from_code_spec(w) {
        Some(s) => p.reference_id == ReferenceIdentifier::PrimarySource(s),
        None => (KissOfDeath::from_code_spec(w) matches Some(k) && p.reference_id
            == ReferenceIdentifier::KissOfDeath(k)),
    }))
    &&& (2 <= b[1] <= 15 ==> (p.reference_id matches ReferenceIdentifier::SecondaryOrClient(a)
        && a@ == u32_be_spec(w)))
    &&& p.reference_timestamp.seconds == be_u32_spec(b[16], b[17], b[18], b[19])
    &&& p.reference_timestamp.fraction == be_u32_spec(b[20], b[21], b[22], b[23])
    &&& p.origin_timestamp.seconds == be_u32_spec(b[24], b[25], b[26], b[27])
    &&& p.origin_timestamp.fraction == be_u32_spec(b[28], b[29], b[30], b[31])
    &&& p.receive_timestamp.seconds == be_u32_spec(b[32], b[33], b[34], b[35])
    &&& p.receive_timestamp.fraction == be_u32_spec(b[36], b[37], b[38], b[39])
    &&& p.transmit_timestamp.seconds == be_u32_spec(b[40], b[41], b[42], b[43])
    &&& p.transmit_timestamp.fraction == be_u32_spec(b[44], b[45], b[46], b[47])
}

impl Packet {
    /// Append the 48 wire bytes of this packet.
    ///
    /// Encoding never checks the stratum against the reference-identifier
    /// variant: an internally inconsistent packet still encodes.
    pub fn write_to_bytes(&self, out: &mut Vec<u8>)
        ensures
            final(out)@ == old(out)@ + packet_bytes_spec(*self),
    {
        write_packet_byte1(self.leap_indicator, self.version, self.mode, out);
        self.stratum.write_to_bytes(out);
        out.push(i8_to_wire(self.poll));
        out.push(i8_to_wire(self.precision));
        self.root_delay.write_to_bytes(out);
        self.root_dispersion.write_to_bytes(out);
        self.reference_id.write_to_bytes(out);
        self.reference_timestamp.write_to_bytes(out);
        self.origin_timestamp.write_to_bytes(out);
        self.receive_timestamp.write_to_bytes(out);
        self.transmit_timestamp.write_to_bytes(out);
        assert(final(out)@ =~= old(out)@ + packet_bytes_spec(*self));
    }

    /// The 48 wire bytes of this packet.
    pub fn to_bytes(&self) -> (r: Vec<u8>)
        ensures
            r@ == packet_bytes_spec(*self),
            r@.len() == PACKED_SIZE_BYTES,
    {
        let mut out: Vec<u8> = Vec::new();
        self.write_to_bytes(&mut out);
        out
    }

    /// Parse a packet from its wire bytes; only the first 48 bytes are read.
    ///
    /// Fails when fewer than 48 bytes are given, when the stratum admits no
    /// reference-identifier interpretation (0, 16 or above), and when a
    /// primary stratum carries a reference-identifier word that names
    /// neither a known primary source nor a known kiss code.
    pub fn read_from_bytes(bytes: &[u8]) -> (r: Result<Packet, DecodeError>)
        ensures
            r is Ok <==> decode_ok_spec(bytes@),
            bytes@.len() < 48 ==> r == Err::<Packet, DecodeError>(DecodeError::Truncated),
            bytes@.len() >= 48 && bytes@[1] == 1 && !reference_id_known_spec(
                wire_reference_id_word_spec(bytes@),
            ) ==> r == Err::<Packet, DecodeError>(DecodeError::UnknownReferenceId),
            bytes@.len() >= 48 && !(1 <= bytes@[1] <= 15) ==> r == Err::<Packet, DecodeError>(
                DecodeError::UnsupportedStratum,
            ),
            r matches Ok(p) ==> decodes_to_spec(bytes@, p),
    {
        let n = bytes.len();
        if n < 48 {
            return Err(DecodeError::Truncated);
        }
        let (leap_indicator, version, mode) = match read_packet_byte1(bytes[0]) {
            Ok(fields) => fields,
            Err(e) => {
                return Err(e);
            },
        };
        let stratum = Stratum::read_from_bytes(bytes, 1);
        let poll = i8_from_wire(bytes[2]);
        let precision = i8_from_wire(bytes[3]);
        let root_delay = ShortFormat::read_from_bytes(bytes, 4);
        let root_dispersion = ShortFormat::read_from_bytes(bytes, 8);
        let word = read_u32_be(bytes, 12);
        let reference_id = if stratum.primary() {
            match PrimarySource::from_code(word) {
                Some(src) => ReferenceIdentifier::PrimarySource(src),
                None => match KissOfDeath::from_code(word) {
                    Some(kod) => ReferenceIdentifier::KissOfDeath(kod),
                    None => {
                        return Err(DecodeError::UnknownReferenceId);
                    },
                },
            }
        } else if stratum.is_secondary() {
            ReferenceIdentifier::SecondaryOrClient(be_u32_to_bytes(word))
        } else {
            return Err(DecodeError::UnsupportedStratum);
        };
        let reference_timestamp = TimestampFormat::read_from_bytes(bytes, 16);
        let origin_timestamp = TimestampFormat::read_from_bytes(bytes, 24);
        let receive_timestamp = TimestampFormat::read_from_bytes(bytes, 32);
        let transmit_timestamp = TimestampFormat::read_from_bytes(bytes, 40);
        Ok(
            Packet {
                leap_indicator,
                version,
                mode,
                stratum,
                poll,
                precision,
                root_delay,
                root_dispersion,
                reference_id,
                reference_timestamp,
                origin_timestamp,
                receive_timestamp,
                transmit_timestamp,
            },
        )
    }

    /// Parse a packet from its wire bytes, under the conventional name for
    /// a fallible conversion; identical to `read_from_bytes`.
    pub fn try_from(bytes: &[u8]) -> (r: Result<Packet, DecodeError>)
        ensures
            r is Ok <==> decode_ok_spec(bytes@),
            bytes@.len() < 48 ==> r == Err::<Packet, DecodeError>(DecodeError::Truncated),
            bytes@.len() >= 48 && bytes@[1] == 1 && !reference_id_known_spec(
                wire_reference_id_word_spec(bytes@),
            ) ==> r == Err::<Packet, DecodeError>(DecodeError::UnknownReferenceId),
            bytes@.len() >= 48 && !(1 <= bytes@[1] <= 15) ==> r == Err::<Packet, DecodeError>(
                DecodeError::UnsupportedStratum,
            ),
            r matches Ok(p) ==> decodes_to_spec(bytes@, p),
    {
        Self::read_from_bytes(bytes)
    }
}

/// The stratum decides the decoded reference identifier: a primary stratum
/// yields a primary-source or kiss-of-death identifier and succeeds exactly
/// when the 32-bit word is a known code, a secondary stratum (2 through 15)
/// always yields the raw identifier bytes, and any other stratum (0, 16, or
/// the reserved range above) never decodes.
pub proof fn lemma_stratum_boundary(b: Seq<u8>, p: Packet)
    requires
        b.len() >= 48,
    ensures
        b[1] == 1 ==> (decode_ok_spec(b) <==> reference_id_known_spec(
            wire_reference_id_word_spec(b),
        )),
        2 <= b[1] <= 15 ==> decode_ok_spec(b),
        !(1 <= b[1] <= 15) ==> !decode_ok_spec(b),
        decodes_to_spec(b, p) && b[1] == 1 ==> (p.reference_id is PrimarySource
            || p.reference_id is KissOfDeath),
        decodes_to_spec(b, p) && 2 <= b[1] <= 15 ==> p.reference_id is SecondaryOrClient,
{
}

/// Decoding is permissive about the version: whether bytes decode depends
/// only on the stratum byte and the reference-identifier word, never on the
/// version bits of the first byte, and any decoded version is a 3-bit value.
pub proof fn lemma_version_permissive(b1: Seq<u8>, b2: Seq<u8>, p: Packet)
    requires
        b1.len() >= 48,
        b2.len() >= 48,
        b1[1] == b2[1],
        b1[12] == b2[12],
        b1[13] == b2[13],
        b1[14] == b2[14],
        b1[15] == b2[15],
    ensures
        decode_ok_spec(b1) == decode_ok_spec(b2),
        decodes_to_spec(b1, p) ==> p.version@ == vn_of_packed_spec(b1[0]) && p.version@ <= 7,
{
    if decodes_to_spec(b1, p) {
        lemma_packed_byte_roundtrip(b1[0]);
    }
}

/// Re-encoding a decoded packet yields the original 48 input bytes, exactly,
/// and the decoded packet obeys the stratum/reference-identifier rule.
pub proof fn lemma_decode_then_encode(b: Seq<u8>, p: Packet)
    requires
        decode_ok_spec(b),
        decodes_to_spec(b, p),
    ensures
        packet_bytes_spec(p) == b.subrange(0, 48),
        wire_consistent(p),
{
    let w = wire_reference_id_word_spec(b);
    lemma_packed_byte_roundtrip(b[0]);
    lemma_i8_byte_roundtrip(p.poll, b[2]);
    lemma_i8_byte_roundtrip(p.precision, b[3]);
    lemma_u16_be_bytes_roundtrip(b[4], b[5]);
    lemma_u16_be_bytes_roundtrip(b[6], b[7]);
    lemma_u16_be_bytes_roundtrip(b[8], b[9]);
    lemma_u16_be_bytes_roundtrip(b[10], b[11]);
    if b[1] == 1 {
        match PrimarySource::from_code_spec(w) {
            Some(s) => {
                crate::protocol::lemma_primary_source_codes(s, w);
            },
            None => {
                let k = KissOfDeath::from_code_spec(w).unwrap();
                crate::protocol::lemma_kiss_of_death_codes(k, w);
            },
        }
    } else {
        let a = p.reference_id->SecondaryOrClient_0;
        assert(reference_id_word_spec(p.reference_id) == be_u32_spec(
            u32_be_spec(w)[0],
            u32_be_spec(w)[1],
            u32_be_spec(w)[2],
            u32_be_spec(w)[3],
        ));
        lemma_u32_be_value_roundtrip(w);
    }
    assert(reference_id_word_spec(p.reference_id) == w);
    lemma_u32_be_bytes_roundtrip(b[12], b[13], b[14], b[15]);
    lemma_u32_be_bytes_roundtrip(b[16], b[17], b[18], b[19]);
    lemma_u32_be_bytes_roundtrip(b[20], b[21], b[22], b[23]);
    lemma_u32_be_bytes_roundtrip(b[24], b[25], b[26], b[27]);
    lemma_u32_be_bytes_roundtrip(b[28], b[29], b[30], b[31]);
    lemma_u32_be_bytes_roundtrip(b[32], b[33], b[34], b[35]);
    lemma_u32_be_bytes_roundtrip(b[36], b[37], b[38], b[39]);
    lemma_u32_be_bytes_roundtrip(b[40], b[41], b[42], b[43]);
    lemma_u32_be_bytes_roundtrip(b[44], b[45], b[46], b[47]);
    assert(packet_bytes_spec(p) =~= b.subrange(0, 48));
}

/// Decoding the wire form of a wire-consistent packet succeeds, and only
/// the packet itself decodes from those bytes.
///
/// The version bound is the validity of the `Version` type: every version
/// built through its interface is a 3-bit value.
pub proof fn lemma_encode_then_decode(p: Packet, q: Packet)
    requires
        p.version@ <= 7,
        wire_consistent(p),
    ensures
        decode_ok_spec(packet_bytes_spec(p)),
        decodes_to_spec(packet_bytes_spec(p), q) ==> q == p,
{
    let b = packet_bytes_spec(p);
    let word = reference_id_word_spec(p.reference_id);
    lemma_packed_byte_fields(p.leap_indicator.code_spec(), p.version@, p.mode.code_spec());
    lemma_u16_be_value_roundtrip(p.root_delay.seconds);
    lemma_u16_be_value_roundtrip(p.root_delay.fraction);
    lemma_u16_be_value_roundtrip(p.root_dispersion.seconds);
    lemma_u16_be_value_roundtrip(p.root_dispersion.fraction);
    lemma_u32_be_value_roundtrip(word);
    lemma_u32_be_value_roundtrip(p.reference_timestamp.seconds);
    lemma_u32_be_value_roundtrip(p.reference_timestamp.fraction);
    lemma_u32_be_value_roundtrip(p.origin_timestamp.seconds);
    lemma_u32_be_value_roundtrip(p.origin_timestamp.fraction);
    lemma_u32_be_value_roundtrip(p.receive_timestamp.seconds);
    lemma_u32_be_value_roundtrip(p.receive_timestamp.fraction);
    lemma_u32_be_value_roundtrip(p.transmit_timestamp.seconds);
    lemma_u32_be_value_roundtrip(p.transmit_timestamp.fraction);
    lemma_i8_byte_roundtrip(p.poll, b[2]);
    lemma_i8_byte_roundtrip(p.precision, b[3]);
    assert(b[1] == p.stratum@);
    assert(wire_reference_id_word_spec(b) == word);
    match p.reference_id {
        ReferenceIdentifier::PrimarySource(s) => {
            crate::protocol::lemma_primary_source_codes(s, word);
        },
        ReferenceIdentifier::KissOfDeath(k) => {
            crate::protocol::lemma_kiss_of_death_codes(k, word);
        },
        ReferenceIdentifier::SecondaryOrClient(a) => {
            lemma_u32_be_bytes_roundtrip(a@[0], a@[1], a@[2], a@[3]);
            assert(u32_be_spec(word) =~= a@);
        },
    }
    assert(decode_ok_spec(b));
    if decodes_to_spec(b, q) {
        crate::protocol::lemma_leap_indicator_codes(p.leap_indicator, 0);
        crate::protocol::lemma_leap_indicator_codes(q.leap_indicator, 0);
        crate::protocol::lemma_mode_codes(p.mode, 0);
        crate::protocol::lemma_mode_codes(q.mode, 0);
        crate::protocol::lemma_version_view_determines(p.version, q.version);
        crate::protocol::lemma_stratum_view_determines(p.stratum, q.stratum);
        if p.stratum@ == 1 {
        } else {
            let a = p.reference_id->SecondaryOrClient_0;
            let c = q.reference_id->SecondaryOrClient_0;
            assert(a@ == c@);
            assert(a =~= c) by {
                assert(forall|i: int| 0 <= i < 4 ==> a[i] == c[i]);
            }
        }
        assert(q == p);
    }
}

} // verus!
