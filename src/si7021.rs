//! The temperature and humidity sensor: one-byte measurement commands and
//! two-byte identification commands; a measurement frame holds a
//! big-endian code followed by a checksum byte that is not used.
use vstd::prelude::*;
use crate::command::Command;
use crate::convert::{humidity_num, relative_humidity_scaled, temperature_num, temperature_scaled};
use crate::frame::{be16, be32, decode_u16, decode_u32};

verus! {

/// Bus address of the humidity sensor.
pub const ADDRESS: u16 = 0x40;
/// Measures temperature without holding the bus.
pub const CMD_MEASURE_TEMP_NO_HOLD: u8 = 0xF3;
/// Measures relative humidity without holding the bus.
pub const CMD_MEASURE_RH_NO_HOLD: u8 = 0xF5;
/// Reads the temperature taken during the last humidity measurement.
pub const CMD_MEASURE_TEMP_AFTER_RH: u8 = 0xE0;
/// Resets the sensor.
pub const CMD_RESET: u8 = 0xFE;
/// Reads the user register.
pub const CMD_READ_USER_REG: u8 = 0xE7;
/// Reads the firmware revision.
pub const CMD_READ_FIRMWARE_REV: u16 = 0x84B8;
/// Reads the first half of the electronic identifier.
pub const CMD_READ_ID1: u16 = 0xFA0F;
/// Reads the second half of the electronic identifier.
pub const CMD_READ_ID2: u16 = 0xFCC9;
/// The user register's value after power-up.
pub const USER_REG_DEFAULT: u8 = 0b0011_1010;
/// Firmware revision 2.0.
pub const FIRMWARE_REV_20: u8 = 0x20;
/// Identifier byte of the Si7021.
pub const SI7021_SNB3: u8 = 0x15;
/// Identifier byte of the Si7020.
pub const SI7020_SNB3: u8 = 0x14;
/// Milliseconds a measurement takes.
pub const MEASURE_SETTLE_MS: u64 = 25;
/// Milliseconds a reset takes.
pub const RESET_SETTLE_MS: u64 = 100;
/// Milliseconds to pause between two identification reads.
pub const INFO_PAUSE_MS: u64 = 25;

/// Measures relative humidity: three bytes.
pub fn measure_rh() -> (r: Command)
    ensures
        r.wf(),
        r.bytes@ == seq![0xF5u8],
        r.response_len == 3,
        r.settle_ms == 25,
{
    Command::single(CMD_MEASURE_RH_NO_HOLD, 3, MEASURE_SETTLE_MS)
}

/// Measures temperature: three bytes.
pub fn measure_temp() -> (r: Command)
    ensures
        r.wf(),
        r.bytes@ == seq![0xF3u8],
        r.response_len == 3,
        r.settle_ms == 25,
{
    Command::single(CMD_MEASURE_TEMP_NO_HOLD, 3, MEASURE_SETTLE_MS)
}

/// Reads the temperature of the last humidity measurement: three bytes.
pub fn measure_temp_after_rh() -> (r: Command)
    ensures
        r.wf(),
        r.bytes@ == seq![0xE0u8],
        r.response_len == 3,
        r.settle_ms == 25,
{
    Command::single(CMD_MEASURE_TEMP_AFTER_RH, 3, MEASURE_SETTLE_MS)
}

/// Resets the sensor; no response.
pub fn reset() -> (r: Command)
    ensures
        r.wf(),
        r.bytes@ == seq![0xFEu8],
        r.response_len == 0,
        r.settle_ms == 100,
{
    Command::single(CMD_RESET, 0, RESET_SETTLE_MS)
}

/// Reads the user register: one byte.
pub fn read_user_register() -> (r: Command)
    ensures
        r.wf(),
        r.bytes@ == seq![0xE7u8],
        r.response_len == 1,
        r.settle_ms == 0,
{
    Command::single(CMD_READ_USER_REG, 1, 0)
}

/// Reads the firmware revision: one byte.
pub fn read_firmware_rev() -> (r: Command)
    ensures
        r.wf(),
        r.bytes@ == seq![0x84u8, 0xB8u8],
        r.response_len == 1,
        r.settle_ms == 0,
{
    Command::double(CMD_READ_FIRMWARE_REV, 1, 0)
}

/// Reads the first identifier word: four bytes.
pub fn read_id1() -> (r: Command)
    ensures
        r.wf(),
        r.bytes@ == seq![0xFAu8, 0x0Fu8],
        r.response_len == 4,
        r.settle_ms == 0,
{
    Command::double(CMD_READ_ID1, 4, 0)
}

/// Reads the second identifier word: four bytes.
pub fn read_id2() -> (r: Command)
    ensures
        r.wf(),
        r.bytes@ == seq![0xFCu8, 0xC9u8],
        r.response_len == 4,
        r.settle_ms == 0,
{
    Command::double(CMD_READ_ID2, 4, 0)
}

/// The raw code of a three-byte measurement frame; the third byte is unused.
pub fn decode_measurement(frame: &[u8]) -> (r: u16)
    requires
        frame@.len() == 3,
    ensures
        r as int == be16(frame@[0], frame@[1]),
{
    decode_u16(frame, 0)
}

/// A temperature and humidity reading with the codes it came from.
#[derive(Clone, Copy, Debug, PartialEq, Eq, Structural)]
pub struct ClimateReading {
    /// Raw temperature code.
    pub temperature_raw: u16,
    /// Raw relative-humidity code.
    pub humidity_raw: u16,
    /// Degrees Celsius times `TEMPERATURE_DENOMINATOR`.
    pub temperature: i64,
    /// Percent relative humidity times `HUMIDITY_DENOMINATOR`.
    pub humidity: i64,
}

/// Decodes the humidity frame and the temperature frame of one cycle.
pub fn decode_climate(rh_frame: &[u8], temp_frame: &[u8]) -> (r: ClimateReading)
    requires
        rh_frame@.len() == 3,
        temp_frame@.len() == 3,
    ensures
        r.humidity_raw as int == be16(rh_frame@[0], rh_frame@[1]),
        r.temperature_raw as int == be16(temp_frame@[0], temp_frame@[1]),
        r.humidity as int == humidity_num(r.humidity_raw as int),
        r.temperature as int == temperature_num(r.temperature_raw as int),
{
    let humidity_raw: u16 = decode_measurement(rh_frame);
    let temperature_raw: u16 = decode_measurement(temp_frame);
    ClimateReading {
        temperature_raw,
        humidity_raw,
        temperature: temperature_scaled(temperature_raw),
        humidity: relative_humidity_scaled(humidity_raw),
    }
}

/// The fields of the user register.
#[derive(Clone, Copy, Debug, PartialEq, Eq, Structural)]
pub struct UserRegister {
    /// The register as read.
    pub raw: u8,
    /// Measurement resolution: bit 7 then bit 0, as a number from 0 to 3.
    pub resolution: u8,
    /// Whether the supply voltage is reported low (bit 6).
    pub vdd_low: bool,
    /// Whether the heater is on (bit 2).
    pub heater_on: bool,
}

/// Decodes the user register.
pub fn decode_user_register(b: u8) -> (r: UserRegister)
    ensures
        r.raw == b,
        r.resolution == 2 * (b / 128) + b % 2,
        r.vdd_low == ((b / 64) % 2 == 1),
        r.heater_on == ((b / 4) % 2 == 1),
{
    assert((b >> 7u8) == b / 128) by (bit_vector);
    assert((b & 1u8) == b % 2) by (bit_vector);
    assert(((b & 0x40u8) != 0) == ((b / 64) % 2 == 1)) by (bit_vector);
    assert(((b & 0x04u8) != 0) == ((b / 4) % 2 == 1)) by (bit_vector);
    UserRegister {
        raw: b,
        resolution: 2 * (b >> 7u8) + (b & 1u8),
        vdd_low: (b & 0x40u8) != 0,
        heater_on: (b & 0x04u8) != 0,
    }
}

/// Whether a firmware byte is revision 2.0.
pub fn is_firmware_rev20(b: u8) -> (r: bool)
    ensures
        r == (b == FIRMWARE_REV_20),
{
    b == FIRMWARE_REV_20
}

/// Which part an identifier names.
#[derive(Clone, Copy, Debug, PartialEq, Eq, Structural)]
pub enum Variant {
    Si7020,
    Si7021,
    Unknown,
}

/// The electronic identifier, read in two halves.
#[derive(Clone, Copy, Debug, PartialEq, Eq, Structural)]
pub struct Identity {
    /// First half, big-endian.
    pub id_a: u32,
    /// Second half, big-endian.
    pub id_b: u32,
    /// The first byte of the second half, which names the part.
    pub snb3: u8,
    pub variant: Variant,
}

/// Decodes the two four-byte identifier frames.
pub fn decode_identity(first: &[u8], second: &[u8]) -> (r: Identity)
    requires
        first@.len() == 4,
        second@.len() == 4,
    ensures
        r.id_a as int == be32(first@[0], first@[1], first@[2], first@[3]),
        r.id_b as int == be32(second@[0], second@[1], second@[2], second@[3]),
        r.snb3 == second@[0],
        r.variant == (if second@[0] == SI7020_SNB3 {
            Variant::Si7020
        } else if second@[0] == SI7021_SNB3 {
            Variant::Si7021
        } else {
            Variant::Unknown
        }),
{
    let snb3: u8 = second[0];
    let variant = if snb3 == SI7020_SNB3 {
        Variant::Si7020
    } else if snb3 == SI7021_SNB3 {
        Variant::Si7021
    } else {
        Variant::Unknown
    };
    Identity { id_a: decode_u32(first), id_b: decode_u32(second), snb3, variant }
}

} // verus!
