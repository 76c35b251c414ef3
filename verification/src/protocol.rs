//! Typed models of the NTP v4 packet header fields of RFC 5905.
//!
//! Every field of the 48-byte header is represented by a value type with a
//! closed or semi-open domain: the 2-bit leap indicator, the 3-bit version
//! and mode, the 8-bit stratum, the fixed-point time formats, and the 32-bit
//! reference identifier whose meaning depends on the stratum.

use vstd::prelude::*;

verus! {

/// NTP port number.
pub const PORT: u8 = 123;

/// Minimum poll exponent (16 s).
pub const MINPOLL: u8 = 4;

/// Maximum poll exponent (36 h).
pub const MAXPOLL: u8 = 17;

/// Distance threshold (1 s).
pub const MAXDIST: u8 = 1;

/// Maximum stratum number.
pub const MAXSTRAT: u8 = 16;

/// A 2-bit integer warning of an impending leap second to be inserted or
/// deleted in the last minute of the current month.
#[derive(Clone, Copy, Debug, PartialEq, Eq)]
pub enum LeapIndicator {
    /// No leap required.
    NoWarning,
    /// Last minute of the day has 61 seconds.
    AddOne,
    /// Last minute of the day has 59 seconds.
    SubOne,
    /// Clock unsynchronized.
    Unknown,
}

impl LeapIndicator {
    /// The 2-bit wire code of the leap indicator.
    pub open spec fn code_spec(self) -> u8 {
        match self {
            LeapIndicator::NoWarning => 0,
            LeapIndicator::AddOne => 1,
            LeapIndicator::SubOne => 2,
            LeapIndicator::Unknown => 3,
        }
    }

    /// The leap indicator denoted by a 2-bit wire code, if any.
    pub open spec fn from_code_spec(code: u8) -> Option<LeapIndicator> {
        if code == 0 {
            Some(LeapIndicator::NoWarning)
        } else if code == 1 {
            Some(LeapIndicator::AddOne)
        } else if code == 2 {
            Some(LeapIndicator::SubOne)
        } else if code == 3 {
            Some(LeapIndicator::Unknown)
        } else {
            None
        }
    }

    pub fn code(self) -> (r: u8)
        ensures
            r == self.code_spec(),
    {
        match self {
            LeapIndicator::NoWarning => 0,
            LeapIndicator::AddOne => 1,
            LeapIndicator::SubOne => 2,
            LeapIndicator::Unknown => 3,
        }
    }

    pub fn from_code(code: u8) -> (r: Option<LeapIndicator>)
        ensures
            r == Self::from_code_spec(code),
    {
        if code == 0 {
            Some(LeapIndicator::NoWarning)
        } else if code == 1 {
            Some(LeapIndicator::AddOne)
        } else if code == 2 {
            Some(LeapIndicator::SubOne)
        } else if code == 3 {
            Some(LeapIndicator::Unknown)
        } else {
            None
        }
    }
}

impl Default for LeapIndicator {
    fn default() -> (r: Self)
        ensures
            r == LeapIndicator::NoWarning,
    {
        LeapIndicator::NoWarning
    }
}

/// Every 2-bit code decodes to a leap indicator, and decoding inverts the
/// wire code of each value.
pub proof fn lemma_leap_indicator_codes(li: LeapIndicator, code: u8)
    ensures
        li.code_spec() <= 3,
        LeapIndicator::from_code_spec(li.code_spec()) == Some(li),
        code <= 3 ==> LeapIndicator::from_code_spec(code) is Some,
{
}

/// A 3-bit integer representing the NTP version number, currently 4.
///
/// Any 3-bit value is accepted as a `Version`; only versions 1 through 4 are
/// known NTP versions, which `is_known` reports.
#[derive(Clone, Copy, Debug, PartialEq, Eq)]
pub struct Version {
    value: u8,
}

impl View for Version {
    type V = u8;

    closed spec fn view(&self) -> u8 {
        self.value
    }
}

impl Version {
    #[verifier::type_invariant]
    spec fn three_bits(self) -> bool {
        self.value <= 7
    }

    /// Wrap a raw 3-bit version code.
    pub fn new(raw: u8) -> (r: Version)
        requires
            raw <= 7,
        ensures
            r@ == raw,
    {
        Version { value: raw }
    }

    /// The raw 3-bit version code.
    pub fn raw(&self) -> (r: u8)
        ensures
            r == self@,
            r <= 7,
    {
        proof {
            use_type_invariant(self);
        }
        self.value
    }

    /// Whether or not the version is a known, valid version.
    pub fn is_known(&self) -> (r: bool)
        ensures
            r == (1 <= self@ <= 4),
    {
        self.value >= 1 && self.value <= 4
    }
}

/// Two versions with the same raw code are the same version.
pub proof fn lemma_version_view_determines(a: Version, b: Version)
    ensures
        a@ == b@ ==> a == b,
{
}

impl Default for Version {
    /// The version used by the client-request builder.
    fn default() -> (r: Self)
        ensures
            r@ == 4,
    {
        Version { value: 4 }
    }
}

/// A 3-bit integer representing the association mode.
#[derive(Clone, Copy, Debug, PartialEq, Eq)]
pub enum Mode {
    Reserved,
    SymmetricActive,
    SymmetricPassive,
    Client,
    Server,
    Broadcast,
    NtpControlMessage,
    ReservedForPrivateUse,
}

impl Mode {
    /// The 3-bit wire code of the mode.
    pub open spec fn code_spec(self) -> u8 {
        match self {
            Mode::Reserved => 0,
            Mode::SymmetricActive => 1,
            Mode::SymmetricPassive => 2,
            Mode::Client => 3,
            Mode::Server => 4,
            Mode::Broadcast => 5,
            Mode::NtpControlMessage => 6,
            Mode::ReservedForPrivateUse => 7,
        }
    }

    /// The mode denoted by a 3-bit wire code, if any.
    pub open spec fn from_code_spec(code: u8) -> Option<Mode> {
        if code == 0 {
            Some(Mode::Reserved)
        } else if code == 1 {
            Some(Mode::SymmetricActive)
        } else if code == 2 {
            Some(Mode::SymmetricPassive)
        } else if code == 3 {
            Some(Mode::Client)
        } else if code == 4 {
            Some(Mode::Server)
        } else if code == 5 {
            Some(Mode::Broadcast)
        } else if code == 6 {
            Some(Mode::NtpControlMessage)
        } else if code == 7 {
            Some(Mode::ReservedForPrivateUse)
        } else {
            None
        }
    }

    pub fn code(self) -> (r: u8)
        ensures
            r == self.code_spec(),
    {
        match self {
            Mode::Reserved => 0,
            Mode::SymmetricActive => 1,
            Mode::SymmetricPassive => 2,
            Mode::Client => 3,
            Mode::Server => 4,
            Mode::Broadcast => 5,
            Mode::NtpControlMessage => 6,
            Mode::ReservedForPrivateUse => 7,
        }
    }

    pub fn from_code(code: u8) -> (r: Option<Mode>)
        ensures
            r == Self::from_code_spec(code),
    {
        if code == 0 {
            Some(Mode::Reserved)
        } else if code == 1 {
            Some(Mode::SymmetricActive)
        } else if code == 2 {
            Some(Mode::SymmetricPassive)
        } else if code == 3 {
            Some(Mode::Client)
        } else if code == 4 {
            Some(Mode::Server)
        } else if code == 5 {
            Some(Mode::Broadcast)
        } else if code == 6 {
            Some(Mode::NtpControlMessage)
        } else if code == 7 {
            Some(Mode::ReservedForPrivateUse)
        } else {
            None
        }
    }
}

impl Default for Mode {
    fn default() -> (r: Self)
        ensures
            r == Mode::Reserved,
    {
        Mode::Reserved
    }
}

/// Every 3-bit code decodes to a mode, and decoding inverts the wire code of
/// each value.
pub proof fn lemma_mode_codes(m: Mode, code: u8)
    ensures
        m.code_spec() <= 7,
        Mode::from_code_spec(m.code_spec()) == Some(m),
        code <= 7 ==> Mode::from_code_spec(code) is Some,
{
}

/// An 8-bit integer representing the stratum: the distance in hops from an
/// authoritative time source.
///
/// ```ignore
/// +--------+-----------------------------------------------------+
/// | Value  | Meaning                                             |
/// +--------+-----------------------------------------------------+
/// | 0      | unspecified or invalid                              |
/// | 1      | primary server (e.g., equipped with a GPS receiver) |
/// | 2-15   | secondary server (via NTP)                          |
/// | 16     | unsynchronized                                      |
/// | 17-255 | reserved                                            |
/// +--------+-----------------------------------------------------+
/// ```
#[derive(Clone, Copy, Debug, PartialEq, Eq)]
pub struct Stratum {
    value: u8,
}

impl View for Stratum {
    type V = u8;

    closed spec fn view(&self) -> u8 {
        self.value
    }
}

impl Stratum {
    pub fn new(val: u8) -> (r: Stratum)
        ensures
            r@ == val,
    {
        Stratum { value: val }
    }

    /// Fetch the raw stratum value ranging from 0 - 255.
    pub fn get_value(&self) -> (r: u8)
        ensures
            r == self@,
    {
        self.value
    }

    /// Unspecified or invalid.
    pub fn unspecified(&self) -> (r: bool)
        ensures
            r == (self@ == 0),
    {
        self.value == 0
    }

    /// Unspecified or invalid.
    pub fn invalid(&self) -> (r: bool)
        ensures
            r == (self@ == 0),
    {
        self.value == 0
    }

    /// A primary server (e.g., equipped with a GPS receiver).
    pub fn primary(&self) -> (r: bool)
        ensures
            r == (self@ == 1),
    {
        self.value == 1
    }

    /// A secondary server (via NTP).
    pub fn secondary(&self) -> (r: bool)
        ensures
            r == (2 <= self@ <= 15),
    {
        2 <= self.value && self.value <= 15
    }

    pub fn unsynchronized(&self) -> (r: bool)
        ensures
            r == (self@ == 16),
    {
        self.value == 16
    }

    pub fn reserved(&self) -> (r: bool)
        ensures
            r == (self@ >= 17),
    {
        self.value >= 17
    }

    /// Whether or not the stratum represents a secondary server.
    pub fn is_secondary(&self) -> (r: bool)
        ensures
            r == (2 <= self@ <= 15),
    {
        2 <= self.value && self.value <= 15
    }

    /// Whether or not the stratum is in the reserved range.
    pub fn is_reserved(&self) -> (r: bool)
        ensures
            r == (self@ > MAXSTRAT),
    {
        self.value > MAXSTRAT
    }
}

/// Two strata with the same raw value are the same stratum.
pub proof fn lemma_stratum_view_determines(a: Stratum, b: Stratum)
    ensures
        a@ == b@ ==> a == b,
{
}

impl Default for Stratum {
    fn default() -> (r: Self)
        ensures
            r@ == 0,
    {
        Stratum { value: 0 }
    }
}

/// **NTP Short Format** - Used in delay and dispersion header fields where
/// the full resolution and range of the other formats are not justified. It
/// includes a 16-bit unsigned seconds field and a 16-bit fraction field.
#[derive(Clone, Copy, Debug, PartialEq, Eq)]
pub struct ShortFormat {
    pub seconds: u16,
    pub fraction: u16,
}

impl Default for ShortFormat {
    fn default() -> (r: Self)
        ensures
            r.seconds == 0 && r.fraction == 0,
    {
        ShortFormat { seconds: 0, fraction: 0 }
    }
}

/// **NTP Timestamp Format** - Used in packet headers and other places with
/// limited word size. It includes a 32-bit unsigned seconds field spanning
/// 136 years and a 32-bit fraction field resolving 232 picoseconds.
///
/// The prime epoch is 0 h 1 January 1900 UTC, when all bits are zero.
#[derive(Clone, Copy, Debug, PartialEq, Eq)]
pub struct TimestampFormat {
    pub seconds: u32,
    pub fraction: u32,
}

impl Default for TimestampFormat {
    fn default() -> (r: Self)
        ensures
            r.seconds == 0 && r.fraction == 0,
    {
        TimestampFormat { seconds: 0, fraction: 0 }
    }
}

/// **NTP Date Format** - The prime epoch, or base date of era 0, is 0 h 1
/// January 1900 UTC, when all bits are zero. Dates are relative to the prime
/// epoch; values greater than zero represent times after that date; values
/// less than zero represent times before it.
///
/// Note that the `era_offset` field has the same interpretation as the
/// `seconds` field of the `TimestampFormat` type. The type completes the
/// fixed-point family; the packet header itself only carries
/// `TimestampFormat` fields.
#[derive(Clone, Copy, Debug, PartialEq, Eq)]
pub struct DateFormat {
    pub era_number: i32,
    pub era_offset: u32,
    pub fraction: u64,
}

impl Default for DateFormat {
    fn default() -> (r: Self)
        ensures
            r.era_number == 0 && r.era_offset == 0 && r.fraction == 0,
    {
        DateFormat { era_number: 0, era_offset: 0, fraction: 0 }
    }
}

/// A four-octet, left-justified, zero-padded ASCII string assigned to a
/// reference clock, packed big-endian into an unsigned 32-bit value.
///
/// The authoritative list of Reference Identifiers is maintained by IANA;
/// any string beginning with the ASCII character "X" is reserved for
/// unregistered experimentation and development.
#[derive(Clone, Copy, Debug, PartialEq, Eq)]
pub enum PrimarySource {
    Goes,
    Gps,
    Cdma,
    Gal,
    Pps,
    Irig,
    Wwvb,
    Dcf,
    Hgb,
    Msf,
    Jjy,
    Lorc,
    Tdf,
    Chu,
    Wwv,
    Wwvh,
    Nist,
    Acts,
    Usno,
    Ptb,
    Goog,
    Locl,
    Cesm,
    Rbdm,
    Omeg,
    Dcn,
    Tsp,
    Dts,
    Atom,
    Vlf,
    Opps,
    Free,
    Init,
    Null,
}

impl PrimarySource {
    /// The 32-bit wire code: the source's four ASCII bytes packed big-endian
    /// (for instance `CDMA`, or `GPS` followed by a zero pad byte).
    pub open spec fn code_spec(self) -> u32 {
        match self {
            PrimarySource::Goes => 1196377427,
            PrimarySource::Gps => 1196446464,
            PrimarySource::Cdma => 1128549697,
            PrimarySource::Gal => 1195461632,
            PrimarySource::Pps => 1347441408,
            PrimarySource::Irig => 1230129479,
            PrimarySource::Wwvb => 1465341506,
            PrimarySource::Dcf => 1145259520,
            PrimarySource::Hgb => 1212629504,
            PrimarySource::Msf => 1297303040,
            PrimarySource::Jjy => 1246386432,
            PrimarySource::Lorc => 1280266819,
            PrimarySource::Tdf => 1413760512,
            PrimarySource::Chu => 1128813824,
            PrimarySource::Wwv => 1465341440,
            PrimarySource::Wwvh => 1465341512,
            PrimarySource::Nist => 1313428308,
            PrimarySource::Acts => 1094931539,
            PrimarySource::Usno => 1431522895,
            PrimarySource::Ptb => 1347699200,
            PrimarySource::Goog => 1196379975,
            PrimarySource::Locl => 1280262988,
            PrimarySource::Cesm => 1128616781,
            PrimarySource::Rbdm => 1380074573,
            PrimarySource::Omeg => 1330464071,
            PrimarySource::Dcn => 1145261568,
            PrimarySource::Tsp => 1414746112,
            PrimarySource::Dts => 1146376960,
            PrimarySource::Atom => 1096044365,
            PrimarySource::Vlf => 1447839232,
            PrimarySource::Opps => 1330663507,
            PrimarySource::Free => 1179796805,
            PrimarySource::Init => 1229867348,
            PrimarySource::Null => 0,
        }
    }

    /// The primary source denoted by a 32-bit wire code, if any.
    pub open spec fn from_code_spec(code: u32) -> Option<PrimarySource> {
        if code == 1196377427 {
            Some(PrimarySource::Goes)
        } else if code == 1196446464 {
            Some(PrimarySource::Gps)
        } else if code == 1128549697 {
            Some(PrimarySource::Cdma)
        } else if code == 1195461632 {
            Some(PrimarySource::Gal)
        } else if code == 1347441408 {
            Some(PrimarySource::Pps)
        } else if code == 1230129479 {
            Some(PrimarySource::Irig)
        } else if code == 1465341506 {
            Some(PrimarySource::Wwvb)
        } else if code == 1145259520 {
            Some(PrimarySource::Dcf)
        } else if code == 1212629504 {
            Some(PrimarySource::Hgb)
        } else if code == 1297303040 {
            Some(PrimarySource::Msf)
        } else if code == 1246386432 {
            Some(PrimarySource::Jjy)
        } else if code == 1280266819 {
            Some(PrimarySource::Lorc)
        } else if code == 1413760512 {
            Some(PrimarySource::Tdf)
        } else if code == 1128813824 {
            Some(PrimarySource::Chu)
        } else if code == 1465341440 {
            Some(PrimarySource::Wwv)
        } else if code == 1465341512 {
            Some(PrimarySource::Wwvh)
        } else if code == 1313428308 {
            Some(PrimarySource::Nist)
        } else if code == 1094931539 {
            Some(PrimarySource::Acts)
        } else if code == 1431522895 {
            Some(PrimarySource::Usno)
        } else if code == 1347699200 {
            Some(PrimarySource::Ptb)
        } else if code == 1196379975 {
            Some(PrimarySource::Goog)
        } else if code == 1280262988 {
            Some(PrimarySource::Locl)
        } else if code == 1128616781 {
            Some(PrimarySource::Cesm)
        } else if code == 1380074573 {
            Some(PrimarySource::Rbdm)
        } else if code == 1330464071 {
            Some(PrimarySource::Omeg)
        } else if code == 1145261568 {
            Some(PrimarySource::Dcn)
        } else if code == 1414746112 {
            Some(PrimarySource::Tsp)
        } else if code == 1146376960 {
            Some(PrimarySource::Dts)
        } else if code == 1096044365 {
            Some(PrimarySource::Atom)
        } else if code == 1447839232 {
            Some(PrimarySource::Vlf)
        } else if code == 1330663507 {
            Some(PrimarySource::Opps)
        } else if code == 1179796805 {
            Some(PrimarySource::Free)
        } else if code == 1229867348 {
            Some(PrimarySource::Init)
        } else if code == 0 {
            Some(PrimarySource::Null)
        } else {
            None
        }
    }

    pub fn code(self) -> (r: u32)
        ensures
            r == self.code_spec(),
    {
        match self {
            PrimarySource::Goes => 1196377427,
            PrimarySource::Gps => 1196446464,
            PrimarySource::Cdma => 1128549697,
            PrimarySource::Gal => 1195461632,
            PrimarySource::Pps => 1347441408,
            PrimarySource::Irig => 1230129479,
            PrimarySource::Wwvb => 1465341506,
            PrimarySource::Dcf => 1145259520,
            PrimarySource::Hgb => 1212629504,
            PrimarySource::Msf => 1297303040,
            PrimarySource::Jjy => 1246386432,
            PrimarySource::Lorc => 1280266819,
            PrimarySource::Tdf => 1413760512,
            PrimarySource::Chu => 1128813824,
            PrimarySource::Wwv => 1465341440,
            PrimarySource::Wwvh => 1465341512,
            PrimarySource::Nist => 1313428308,
            PrimarySource::Acts => 1094931539,
            PrimarySource::Usno => 1431522895,
            PrimarySource::Ptb => 1347699200,
            PrimarySource::Goog => 1196379975,
            PrimarySource::Locl => 1280262988,
            PrimarySource::Cesm => 1128616781,
            PrimarySource::Rbdm => 1380074573,
            PrimarySource::Omeg => 1330464071,
            PrimarySource::Dcn => 1145261568,
            PrimarySource::Tsp => 1414746112,
            PrimarySource::Dts => 1146376960,
            PrimarySource::Atom => 1096044365,
            PrimarySource::Vlf => 1447839232,
            PrimarySource::Opps => 1330663507,
            PrimarySource::Free => 1179796805,
            PrimarySource::Init => 1229867348,
            PrimarySource::Null => 0,
        }
    }

    pub fn from_code(code: u32) -> (r: Option<PrimarySource>)
        ensures
            r == Self::from_code_spec(code),
    {
        if code == 1196377427 {
            Some(PrimarySource::Goes)
        } else if code == 1196446464 {
            Some(PrimarySource::Gps)
        } else if code == 1128549697 {
            Some(PrimarySource::Cdma)
        } else if code == 1195461632 {
            Some(PrimarySource::Gal)
        } else if code == 1347441408 {
            Some(PrimarySource::Pps)
        } else if code == 1230129479 {
            Some(PrimarySource::Irig)
        } else if code == 1465341506 {
            Some(PrimarySource::Wwvb)
        } else if code == 1145259520 {
            Some(PrimarySource::Dcf)
        } else if code == 1212629504 {
            Some(PrimarySource::Hgb)
        } else if code == 1297303040 {
            Some(PrimarySource::Msf)
        } else if code == 1246386432 {
            Some(PrimarySource::Jjy)
        } else if code == 1280266819 {
            Some(PrimarySource::Lorc)
        } else if code == 1413760512 {
            Some(PrimarySource::Tdf)
        } else if code == 1128813824 {
            Some(PrimarySource::Chu)
        } else if code == 1465341440 {
            Some(PrimarySource::Wwv)
        } else if code == 1465341512 {
            Some(PrimarySource::Wwvh)
        } else if code == 1313428308 {
            Some(PrimarySource::Nist)
        } else if code == 1094931539 {
            Some(PrimarySource::Acts)
        } else if code == 1431522895 {
            Some(PrimarySource::Usno)
        } else if code == 1347699200 {
            Some(PrimarySource::Ptb)
        } else if code == 1196379975 {
            Some(PrimarySource::Goog)
        } else if code == 1280262988 {
            Some(PrimarySource::Locl)
        } else if code == 1128616781 {
            Some(PrimarySource::Cesm)
        } else if code == 1380074573 {
            Some(PrimarySource::Rbdm)
        } else if code == 1330464071 {
            Some(PrimarySource::Omeg)
        } else if code == 1145261568 {
            Some(PrimarySource::Dcn)
        } else if code == 1414746112 {
            Some(PrimarySource::Tsp)
        } else if code == 1146376960 {
            Some(PrimarySource::Dts)
        } else if code == 1096044365 {
            Some(PrimarySource::Atom)
        } else if code == 1447839232 {
            Some(PrimarySource::Vlf)
        } else if code == 1330663507 {
            Some(PrimarySource::Opps)
        } else if code == 1179796805 {
            Some(PrimarySource::Free)
        } else if code == 1229867348 {
            Some(PrimarySource::Init)
        } else if code == 0 {
            Some(PrimarySource::Null)
        } else {
            None
        }
    }
}

impl Default for PrimarySource {
    fn default() -> (r: Self)
        ensures
            r == PrimarySource::Null,
    {
        PrimarySource::Null
    }
}

/// Decoding inverts the wire code of every primary source, and a code that
/// decodes was the code of what it decodes to.
pub proof fn lemma_primary_source_codes(s: PrimarySource, code: u32)
    ensures
        PrimarySource::from_code_spec(s.code_spec()) == Some(s),
        PrimarySource::from_code_spec(code) matches Some(t) ==> t.code_spec() == code,
{
}

/// **Kiss-o'-Death** codes: four-character ASCII advisory messages sent in
/// the reference identifier field to tell a client to alter its polling
/// behaviour, packed big-endian like the primary source codes.
#[derive(Clone, Copy, Debug, PartialEq, Eq)]
pub enum KissOfDeath {
    /// The client MUST demobilize any associations to that server and stop
    /// sending packets to it.
    Deny,
    /// The client MUST demobilize any associations to that server and stop
    /// sending packets to it.
    Rstr,
    /// The client MUST immediately reduce its polling interval to that
    /// server and continue to reduce it each time it receives a RATE kiss
    /// code.
    Rate,
}

impl KissOfDeath {
    /// The 32-bit wire code: the kiss code's four ASCII bytes packed
    /// big-endian (`DENY`, `RSTR` or `RATE`).
    pub open spec fn code_spec(self) -> u32 {
        match self {
            KissOfDeath::Deny => 1145392729,
            KissOfDeath::Rstr => 1381192786,
            KissOfDeath::Rate => 1380013125,
        }
    }

    /// The kiss code denoted by a 32-bit wire code, if any.
    pub open spec fn from_code_spec(code: u32) -> Option<KissOfDeath> {
        if code == 1145392729 {
            Some(KissOfDeath::Deny)
        } else if code == 1381192786 {
            Some(KissOfDeath::Rstr)
        } else if code == 1380013125 {
            Some(KissOfDeath::Rate)
        } else {
            None
        }
    }

    pub fn code(self) -> (r: u32)
        ensures
            r == self.code_spec(),
    {
        match self {
            KissOfDeath::Deny => 1145392729,
            KissOfDeath::Rstr => 1381192786,
            KissOfDeath::Rate => 1380013125,
        }
    }

    pub fn from_code(code: u32) -> (r: Option<KissOfDeath>)
        ensures
            r == Self::from_code_spec(code),
    {
        if code == 1145392729 {
            Some(KissOfDeath::Deny)
        } else if code == 1381192786 {
            Some(KissOfDeath::Rstr)
        } else if code == 1380013125 {
            Some(KissOfDeath::Rate)
        } else {
            None
        }
    }
}

/// Decoding inverts the wire code of every kiss code, a code that decodes
/// was the code of what it decodes to, and no kiss code is also a primary
/// source code.
pub proof fn lemma_kiss_of_death_codes(k: KissOfDeath, code: u32)
    ensures
        KissOfDeath::from_code_spec(k.code_spec()) == Some(k),
        KissOfDeath::from_code_spec(code) matches Some(t) ==> t.code_spec() == code,
        PrimarySource::from_code_spec(k.code_spec()) is None,
{
}

/// A 32-bit code identifying the particular server or reference clock.
///
/// The interpretation is never self-describing: it depends on the value in
/// the sibling stratum field, so the correct variant must be chosen at
/// decode time from the stratum.
#[derive(Clone, Copy, Debug, PartialEq, Eq)]
pub enum ReferenceIdentifier {
    PrimarySource(PrimarySource),
    /// The reference identifier of the secondary or client server. Can be
    /// used to detect timing loops.
    ///
    /// If using the IPv4 address family, the identifier is the four-octet
    /// IPv4 address. If using the IPv6 address family, it is the first four
    /// octets of the MD5 hash of the IPv6 address.
    SecondaryOrClient([u8; 4]),
    KissOfDeath(KissOfDeath),
}

impl Default for ReferenceIdentifier {
    fn default() -> (r: Self)
        ensures
            r == ReferenceIdentifier::PrimarySource(PrimarySource::Null),
    {
        ReferenceIdentifier::PrimarySource(PrimarySource::Null)
    }
}

} // verus!
