//! Exact conversions of raw 16-bit codes into physical quantities.
//!
//! Each quantity is returned as an integer numerator over a fixed
//! denominator, so the datasheet formula holds exactly: the temperature in
//! degrees Celsius is `temperature_scaled(r) / TEMPERATURE_DENOMINATOR`,
//! the relative humidity in percent is
//! `relative_humidity_scaled(r) / HUMIDITY_DENOMINATOR`. No clamping is
//! applied: a code outside the physical range gives a value outside it.
use vstd::prelude::*;

verus! {

/// Denominator of a scaled temperature: 100 * 65536.
pub const TEMPERATURE_DENOMINATOR: i64 = 6_553_600;
/// Denominator of a scaled relative humidity: 65536.
pub const HUMIDITY_DENOMINATOR: i64 = 65_536;

/// `175.72 * raw / 65536 - 46.85`, times `TEMPERATURE_DENOMINATOR`.
pub open spec fn temperature_num(raw: int) -> int {
    17572 * raw - 4685 * 65536
}

/// `125 * raw / 65536 - 6`, times `HUMIDITY_DENOMINATOR`.
pub open spec fn humidity_num(raw: int) -> int {
    125 * raw - 6 * 65536
}

/// Temperature of a raw code, over `TEMPERATURE_DENOMINATOR`.
pub fn temperature_scaled(raw: u16) -> (r: i64)
    ensures
        r as int == temperature_num(raw as int),
{
    17572 * (raw as i64) - 4685 * 65536
}

/// Relative humidity of a raw code, over `HUMIDITY_DENOMINATOR`.
pub fn relative_humidity_scaled(raw: u16) -> (r: i64)
    ensures
        r as int == humidity_num(raw as int),
{
    125 * (raw as i64) - 6 * 65536
}

/// Temperature rises strictly with the raw code.
pub proof fn lemma_temperature_monotonic(a: u16, b: u16)
    requires
        a < b,
    ensures
        temperature_num(a as int) < temperature_num(b as int),
{
}

/// Relative humidity rises strictly with the raw code.
pub proof fn lemma_humidity_monotonic(a: u16, b: u16)
    requires
        a < b,
    ensures
        humidity_num(a as int) < humidity_num(b as int),
{
}

} // verus!
