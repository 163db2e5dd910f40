//! The light sensor: register reads and writes addressed by a command byte
//! (register number with the command bit set, and the word bit for a
//! two-byte read); counts come back little-endian.
use vstd::prelude::*;
use crate::command::Command;
use crate::frame::{decode_u16_le, le16};

verus! {

/// Bus address of the light sensor.
pub const ADDRESS: u16 = 0x39;
/// Marks a byte as a command.
pub const COMMAND_BIT: u8 = 0b1000_0000;
/// Asks for a two-byte (word) transfer.
pub const WORD_BIT: u8 = 0b0010_0000;
pub const REG_CONTROL: u8 = 0x00;
pub const REG_TIMING: u8 = 0x01;
pub const REG_ID: u8 = 0x0A;
pub const REG_CHAN0_LOW: u8 = 0x0C;
pub const REG_CHAN0_HIGH: u8 = 0x0D;
pub const REG_CHAN1_LOW: u8 = 0x0E;
pub const REG_CHAN1_HIGH: u8 = 0x0F;
pub const POWER_OFF: u8 = 0x00;
pub const POWER_ON: u8 = 0b0000_0011;
/// The part number of the TSL2561 in the identifier register.
pub const PART_TSL2561: u8 = 0b0101;

/// Integration time of one conversion.
#[derive(Clone, Copy, Debug, PartialEq, Eq, Structural)]
pub enum Timing {
    IntegrationTime13,
    IntegrationTime101,
    IntegrationTime402,
}

impl Timing {
    /// The timing register's integration field.
    pub open spec fn spec_code(self) -> u8 {
        match self {
            Timing::IntegrationTime13 => 0x00,
            Timing::IntegrationTime101 => 0x01,
            Timing::IntegrationTime402 => 0x02,
        }
    }

    /// Milliseconds to wait after power-on before a count is valid.
    pub open spec fn spec_settle_ms(self) -> u64 {
        match self {
            Timing::IntegrationTime13 => 15,
            Timing::IntegrationTime101 => 120,
            Timing::IntegrationTime402 => 450,
        }
    }

    pub fn code(self) -> (r: u8)
        ensures
            r == self.spec_code(),
    {
        match self {
            Timing::IntegrationTime13 => 0x00,
            Timing::IntegrationTime101 => 0x01,
            Timing::IntegrationTime402 => 0x02,
        }
    }

    pub fn settle_ms(self) -> (r: u64)
        ensures
            r == self.spec_settle_ms(),
    {
        match self {
            Timing::IntegrationTime13 => 15,
            Timing::IntegrationTime101 => 120,
            Timing::IntegrationTime402 => 450,
        }
    }
}

/// Analog gain.
#[derive(Clone, Copy, Debug, PartialEq, Eq, Structural)]
pub enum Gain {
    Gain1x,
    Gain16x,
}

impl Gain {
    /// The timing register's gain field.
    pub open spec fn spec_code(self) -> u8 {
        match self {
            Gain::Gain1x => 0x00,
            Gain::Gain16x => 0x10,
        }
    }

    pub fn code(self) -> (r: u8)
        ensures
            r == self.spec_code(),
    {
        match self {
            Gain::Gain1x => 0x00,
            Gain::Gain16x => 0x10,
        }
    }
}

/// One of the two photodiode channels.
#[derive(Clone, Copy, Debug, PartialEq, Eq, Structural)]
pub enum Channel {
    Chan0,
    Chan1,
}

impl Channel {
    /// The channel's low data register.
    pub open spec fn spec_low_register(self) -> u8 {
        match self {
            Channel::Chan0 => REG_CHAN0_LOW,
            Channel::Chan1 => REG_CHAN1_LOW,
        }
    }

    pub fn low_register(self) -> (r: u8)
        ensures
            r == self.spec_low_register(),
    {
        match self {
            Channel::Chan0 => REG_CHAN0_LOW,
            Channel::Chan1 => REG_CHAN1_LOW,
        }
    }
}

/// Reads `len` bytes starting at a register.
pub fn reg_read(reg: u8, len: usize) -> (r: Command)
    ensures
        r.wf(),
        r.bytes@ == seq![reg],
        r.response_len == len,
        r.settle_ms == 0,
{
    Command::single(reg, len, 0)
}

/// Writes one value to a register.
pub fn reg_write(reg: u8, value: u8) -> (r: Command)
    ensures
        r.wf(),
        r.bytes@ == seq![reg, value],
        r.response_len == 0,
        r.settle_ms == 0,
{
    Command::pair(reg, value, 0, 0)
}

/// Writes the control register.
pub fn reg_ctrl(value: u8) -> (r: Command)
    ensures
        r.wf(),
        r.bytes@ == seq![0x80u8, value],
        r.response_len == 0,
        r.settle_ms == 0,
{
    assert(0x80u8 | 0x00u8 == 0x80u8) by (bit_vector);
    reg_write(COMMAND_BIT | REG_CONTROL, value)
}

/// Writes the timing register.
pub fn reg_timing(value: u8) -> (r: Command)
    ensures
        r.wf(),
        r.bytes@ == seq![0x81u8, value],
        r.response_len == 0,
        r.settle_ms == 0,
{
    assert(0x80u8 | 0x01u8 == 0x81u8) by (bit_vector);
    reg_write(COMMAND_BIT | REG_TIMING, value)
}

/// Powers the sensor on.
pub fn poweron() -> (r: Command)
    ensures
        r.wf(),
        r.bytes@ == seq![0x80u8, 0x03u8],
        r.response_len == 0,
        r.settle_ms == 0,
{
    reg_ctrl(POWER_ON)
}

/// Powers the sensor off.
pub fn poweroff() -> (r: Command)
    ensures
        r.wf(),
        r.bytes@ == seq![0x80u8, 0x00u8],
        r.response_len == 0,
        r.settle_ms == 0,
{
    reg_ctrl(POWER_OFF)
}

/// Sets integration time and gain in one write.
pub fn set_integration_time_and_gain(time: Timing, gain: Gain) -> (r: Command)
    ensures
        r.wf(),
        r.bytes@ == seq![0x81u8, (time.spec_code() | gain.spec_code()) as u8],
        r.response_len == 0,
        r.settle_ms == 0,
{
    reg_timing(time.code() | gain.code())
}

/// Reads the identifier register: one byte.
pub fn read_id() -> (r: Command)
    ensures
        r.wf(),
        r.bytes@ == seq![0x8Au8],
        r.response_len == 1,
        r.settle_ms == 0,
{
    assert(0x80u8 | 0x0Au8 == 0x8Au8) by (bit_vector);
    reg_read(COMMAND_BIT | REG_ID, 1)
}

/// Powers the sensor on and waits one integration time, so that the
/// channel read that follows returns a fresh count.
pub fn poweron_and_integrate(time: Timing) -> (r: Command)
    ensures
        r.wf(),
        r.bytes@ == seq![0x80u8, 0x03u8],
        r.response_len == 0,
        r.settle_ms == time.spec_settle_ms(),
{
    assert(0x80u8 | 0x00u8 == 0x80u8) by (bit_vector);
    Command::pair(COMMAND_BIT | REG_CONTROL, POWER_ON, 0, time.settle_ms())
}

/// Reads a channel's count as one word: two bytes.
pub fn read_channel(ch: Channel) -> (r: Command)
    ensures
        r.wf(),
        r.bytes@ == seq![(0xA0u8 | ch.spec_low_register()) as u8],
        r.response_len == 2,
        r.settle_ms == 0,
{
    let low: u8 = ch.low_register();
    assert((0x80u8 | 0x20u8) | low == 0xA0u8 | low) by (bit_vector);
    reg_read(COMMAND_BIT | WORD_BIT | low, 2)
}

/// The two operations of one channel reading, in order: power on and
/// integrate, then read the count.
pub fn read_data(ch: Channel, time: Timing) -> (r: Vec<Command>)
    ensures
        r@.len() == 2,
        r@[0].bytes@ == seq![0x80u8, 0x03u8],
        r@[0].response_len == 0,
        r@[0].settle_ms == time.spec_settle_ms(),
        r@[1].bytes@ == seq![(0xA0u8 | ch.spec_low_register()) as u8],
        r@[1].response_len == 2,
        r@[1].settle_ms == 0,
        forall|i: int| 0 <= i < 2 ==> (#[trigger] r@[i]).wf(),
{
    vec![poweron_and_integrate(time), read_channel(ch)]
}

/// The count of a two-byte channel frame, low byte first.
pub fn decode_count(frame: &[u8]) -> (r: u16)
    requires
        frame@.len() == 2,
    ensures
        r as int == le16(frame@[0], frame@[1]),
{
    decode_u16_le(frame, 0)
}

/// The fields of the identifier register.
#[derive(Clone, Copy, Debug, PartialEq, Eq, Structural)]
pub struct DeviceId {
    /// The register as read.
    pub raw: u8,
    /// High nibble.
    pub part_number: u8,
    /// Low nibble.
    pub revision: u8,
}

impl DeviceId {
    /// Whether the part is a TSL2561 (else a TSL2560).
    pub fn is_tsl2561(&self) -> (r: bool)
        ensures
            r == (self.part_number == PART_TSL2561),
    {
        self.part_number == PART_TSL2561
    }
}

/// Decodes the identifier register.
pub fn check_device(b: u8) -> (r: DeviceId)
    ensures
        r.raw == b,
        r.part_number == b / 16,
        r.revision == b % 16,
{
    assert((b >> 4u8) & 0x0fu8 == b / 16) by (bit_vector);
    assert(b & 0x0fu8 == b % 16) by (bit_vector);
    DeviceId { raw: b, part_number: (b >> 4u8) & 0x0fu8, revision: b & 0x0fu8 }
}

} // verus!
