//! The gas sensor: a two-byte command set, responses made of data words
//! each followed by a checksum byte (kept, never checked).
use vstd::prelude::*;
use crate::command::Command;
use crate::frame::{be16, decode_u16, decode_word, push_byte, word_at};

verus! {

/// Bus address of the gas sensor.
pub const ADDRESS: u16 = 0x58;
/// Starts the air-quality algorithm.
pub const CMD_INIT_AIR_QUALITY: u16 = 0x2003;
/// Measures eCO2 and TVOC.
pub const CMD_MEASURE_AIR_QUALITY: u16 = 0x2008;
/// Reads the algorithm's baseline.
pub const CMD_GET_BASELINE: u16 = 0x2015;
/// Runs the on-chip self test.
pub const CMD_MEASURE_TEST: u16 = 0x2032;
/// Reads the product type and feature-set version.
pub const CMD_GET_FEATURE_SET_VERSION: u16 = 0x202F;
/// Reads the 48-bit serial number.
pub const CMD_GET_SERIAL_ID: u16 = 0x3682;
/// The word a passing self test returns.
pub const TEST_EXPECTED: u16 = 0xD400;
/// The product type of this sensor in the feature-set word.
pub const PRODUCT_TYPE: u8 = 0;

/// Starts the air-quality algorithm; no response.
pub fn init_air_quality() -> (r: Command)
    ensures
        r.wf(),
        r.bytes@ == seq![0x20u8, 0x03u8],
        r.response_len == 0,
        r.settle_ms == 10,
{
    Command::double(CMD_INIT_AIR_QUALITY, 0, 10)
}

/// Measures air quality: two words (eCO2, TVOC), six bytes.
pub fn measure_air_quality() -> (r: Command)
    ensures
        r.wf(),
        r.bytes@ == seq![0x20u8, 0x08u8],
        r.response_len == 6,
        r.settle_ms == 12,
{
    Command::double(CMD_MEASURE_AIR_QUALITY, 6, 12)
}

/// Reads the baseline: two words, six bytes.
pub fn get_baseline() -> (r: Command)
    ensures
        r.wf(),
        r.bytes@ == seq![0x20u8, 0x15u8],
        r.response_len == 6,
        r.settle_ms == 10,
{
    Command::double(CMD_GET_BASELINE, 6, 10)
}

/// Runs the self test: one word, three bytes.
pub fn measure_test() -> (r: Command)
    ensures
        r.wf(),
        r.bytes@ == seq![0x20u8, 0x32u8],
        r.response_len == 3,
        r.settle_ms == 220,
{
    Command::double(CMD_MEASURE_TEST, 3, 220)
}

/// Reads the feature set: one word, three bytes.
pub fn get_feature_set_version() -> (r: Command)
    ensures
        r.wf(),
        r.bytes@ == seq![0x20u8, 0x2Fu8],
        r.response_len == 3,
        r.settle_ms == 10,
{
    Command::double(CMD_GET_FEATURE_SET_VERSION, 3, 10)
}

/// Reads the serial number: three words, nine bytes.
pub fn get_serial_id() -> (r: Command)
    ensures
        r.wf(),
        r.bytes@ == seq![0x36u8, 0x82u8],
        r.response_len == 9,
        r.settle_ms == 1,
{
    Command::double(CMD_GET_SERIAL_ID, 9, 1)
}

/// The two counts of an air-quality or baseline response.
#[derive(Clone, Copy, Debug, PartialEq, Eq, Structural)]
pub struct AirQuality {
    /// CO2-equivalent, first word.
    pub eco2: u16,
    /// Total volatile organic compounds, second word.
    pub tvoc: u16,
}

/// Decodes a six-byte air-quality (or baseline) frame.
pub fn decode_air_quality(frame: &[u8]) -> (r: AirQuality)
    requires
        frame@.len() == 6,
    ensures
        r.eco2 as int == word_at(frame@, 0),
        r.tvoc as int == word_at(frame@, 1),
{
    AirQuality { eco2: decode_word(frame, 0), tvoc: decode_word(frame, 1) }
}

/// The two counts of an air-quality frame do not depend on its checksum
/// bytes: frames that differ only there decode alike.
pub proof fn lemma_air_quality_ignores_checksums(a: Seq<u8>, b: Seq<u8>)
    requires
        a.len() == 6,
        b.len() == 6,
        forall|i: int| 0 <= i < 6 && i != 2 && i != 5 ==> a[i] == b[i],
    ensures
        word_at(a, 0) == word_at(b, 0),
        word_at(a, 1) == word_at(b, 1),
{
    assert(a[0] == b[0] && a[1] == b[1] && a[3] == b[3] && a[4] == b[4]);
}

/// The word of a self-test response.
pub fn self_test_value(frame: &[u8]) -> (r: u16)
    requires
        frame@.len() == 3,
    ensures
        r as int == be16(frame@[0], frame@[1]),
{
    decode_u16(frame, 0)
}

/// Whether a self-test response holds the expected pattern.
pub fn self_test_passed(frame: &[u8]) -> (r: bool)
    requires
        frame@.len() == 3,
    ensures
        r == (be16(frame@[0], frame@[1]) == TEST_EXPECTED as int),
{
    self_test_value(frame) == TEST_EXPECTED
}

/// Product type and version from the feature-set response.
#[derive(Clone, Copy, Debug, PartialEq, Eq, Structural)]
pub struct FeatureSet {
    /// High nibble of the first byte.
    pub product_type: u8,
    /// The second byte.
    pub version: u8,
    /// The checksum byte, as received.
    pub crc: u8,
}

impl FeatureSet {
    /// Whether the product type names this sensor.
    pub fn is_sgp30(&self) -> (r: bool)
        ensures
            r == (self.product_type == PRODUCT_TYPE),
    {
        self.product_type == PRODUCT_TYPE
    }
}

/// Decodes a three-byte feature-set frame.
pub fn decode_feature_set(frame: &[u8]) -> (r: FeatureSet)
    requires
        frame@.len() == 3,
    ensures
        r.product_type as int == frame@[0] as int / 16,
        r.version == frame@[1],
        r.crc == frame@[2],
{
    let b: u8 = frame[0];
    assert(b >> 4u8 == b / 16) by (bit_vector);
    FeatureSet { product_type: b >> 4u8, version: frame[1], crc: frame[2] }
}

/// The 48-bit serial number held by three checksummed words.
pub open spec fn serial_of(frame: Seq<u8>) -> int {
    (word_at(frame, 0) * 65536 + word_at(frame, 1)) * 65536 + word_at(frame, 2)
}

/// Decodes a nine-byte serial-number frame, skipping the checksum bytes.
pub fn decode_serial(frame: &[u8]) -> (r: u64)
    requires
        frame@.len() == 9,
    ensures
        r as int == serial_of(frame@),
        r < 0x1_0000_0000_0000,
{
    let a: u64 = push_byte(frame[0] as u64, frame[1]);
    let a: u64 = push_byte(a, frame[3]);
    let a: u64 = push_byte(a, frame[4]);
    let a: u64 = push_byte(a, frame[6]);
    let a: u64 = push_byte(a, frame[7]);
    a
}

} // verus!
