//! Commands: the bytes that select an operation, the length of the
//! response and the delay the sensor needs before that response is valid.
use vstd::prelude::*;

verus! {

/// One sensor operation.
pub struct Command {
    /// The bytes written to select the operation (one or two).
    pub bytes: Vec<u8>,
    /// How many bytes the response holds; zero for a write-only command.
    pub response_len: usize,
    /// Milliseconds to wait after the write before the response is read.
    pub settle_ms: u64,
}

impl Command {
    /// A command is one or two bytes long.
    pub open spec fn wf(&self) -> bool {
        1 <= self.bytes@.len() <= 2
    }

    /// A one-byte command.
    pub fn single(code: u8, response_len: usize, settle_ms: u64) -> (r: Command)
        ensures
            r.wf(),
            r.bytes@ == seq![code],
            r.response_len == response_len,
            r.settle_ms == settle_ms,
    {
        Command { bytes: vec![code], response_len, settle_ms }
    }

    /// A two-byte command, its code sent high byte first.
    pub fn double(code: u16, response_len: usize, settle_ms: u64) -> (r: Command)
        ensures
            r.wf(),
            r.bytes@ == seq![(code / 256) as u8, (code % 256) as u8],
            r.response_len == response_len,
            r.settle_ms == settle_ms,
    {
        assert((code >> 8u16) as u8 == (code / 256) as u8) by (bit_vector);
        assert((code & 0xffu16) as u8 == (code % 256) as u8) by (bit_vector);
        Command { bytes: vec![(code >> 8u16) as u8, (code & 0xffu16) as u8], response_len, settle_ms }
    }

    /// A command made of a register byte followed by a value byte.
    pub fn pair(first: u8, second: u8, response_len: usize, settle_ms: u64) -> (r: Command)
        ensures
            r.wf(),
            r.bytes@ == seq![first, second],
            r.response_len == response_len,
            r.settle_ms == settle_ms,
    {
        Command { bytes: vec![first, second], response_len, settle_ms }
    }
}

} // verus!
