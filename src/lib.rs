//! Protocol core for polling I2C environmental sensors: command tables,
//! frame decoding, exact fixed-point conversions, a transaction state machine
//! and a drift-corrected polling schedule. The bus itself is driven by the
//! caller, which performs the actions the state machines hand out.
pub mod command;
pub mod convert;
pub mod frame;
pub mod schedule;
pub mod sgp30;
pub mod si7021;
pub mod transaction;
pub mod tsl2561;
