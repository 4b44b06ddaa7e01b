//! Channel-byte reconstruction and the illuminance computation.
//!
//! The lux formula of this chip family is
//! `lux = (ch0 - ch1) * (1 - ch1 / ch0) / cpl` with
//! `cpl = atime * again / 408`, which over the rationals equals
//! `408 * (ch0 - ch1)^2 / (ch0 * atime * again)`. The library computes that
//! value exactly, as a [`Lux`] fraction of two integers; converting it to a
//! binary floating-point number is left to unverified callers.

use vstd::prelude::*;

use crate::config::Gain;
use crate::config::IntegrationTime;

verus! {

/// Why a lux reading failed.
#[derive(Clone, Copy, Debug, PartialEq, Eq, Structural)]
pub enum ReadError {
    /// A bus transaction failed.
    Bus,
    /// The raw channels are unsuitable for the formula: a channel is
    /// saturated at 0xFFFF, or channel 0 is zero.
    Overflow,
}

/// An exact illuminance value, in lux, as the fraction
/// `numerator / denominator`.
#[derive(Clone, Copy, Debug, PartialEq, Eq, Structural)]
pub struct Lux {
    pub numerator: u64,
    pub denominator: u64,
}

impl Lux {
    /// Bounds every constructed value meets: the denominator is positive and
    /// the numerator small enough that fixed-point conversion cannot
    /// overflow.
    pub open spec fn wf(self) -> bool {
        0 < self.denominator && self.numerator <= 408 * 0xFFFF * 0xFFFF
    }

    /// The value rounded down to whole millilux.
    pub fn millilux(&self) -> (r: u64)
        requires
            self.wf(),
        ensures
            r == self.numerator * 1000 / (self.denominator as int),
    {
        (self.numerator * 1000) / self.denominator
    }
}

/// Raw channels a lux value can be computed from: neither channel is pinned
/// at the 16-bit maximum (saturation) and channel 0 is not zero (the formula
/// divides by it).
pub open spec fn channels_readable(ch0: u16, ch1: u16) -> bool {
    ch0 != 0xFFFF && ch1 != 0xFFFF && ch0 != 0
}

/// Numerator of the exact lux fraction: `408 * (ch0 - ch1)^2`.
pub open spec fn spec_lux_numerator(ch0: u16, ch1: u16) -> int {
    408 * ((ch0 - ch1) * (ch0 - ch1))
}

/// Denominator of the exact lux fraction: `ch0 * atime * again`.
pub open spec fn spec_lux_denominator(ch0: u16, integration: IntegrationTime, gain: Gain) -> int {
    ch0 * integration.spec_atime_ms() * gain.spec_again()
}

/// `l` is the exact lux value of channels `(ch0, ch1)` under the given
/// configuration.
pub open spec fn lux_of(l: Lux, ch0: u16, ch1: u16, integration: IntegrationTime, gain: Gain) -> bool {
    &&& channels_readable(ch0, ch1)
    &&& l.numerator == spec_lux_numerator(ch0, ch1)
    &&& l.denominator == spec_lux_denominator(ch0, integration, gain)
}

/// Reconstructs one 16-bit channel count from its two little-endian bytes.
pub fn combine_channel_bytes(low: u8, high: u8) -> (r: u16)
    ensures
        r == high * 256 + low,
{
    let l: u16 = low as u16;
    let h: u16 = high as u16;
    let r: u16 = (h << 8) | l;
    assert((h << 8) | l == h * 256 + l) by (bit_vector)
        requires
            h < 256 && l < 256,
    ;
    r
}

/// Computes the exact lux value of a pair of raw channel counts under the
/// given configuration.
///
/// Fails, with `Overflow` and only with `Overflow`, exactly when the pair is
/// not readable: a channel saturated at 0xFFFF, or channel 0 zero.
pub fn calculate_lux(integration: IntegrationTime, gain: Gain, ch0: u16, ch1: u16) -> (r: Result<
    Lux,
    ReadError,
>)
    ensures
        r is Ok <==> channels_readable(ch0, ch1),
        r matches Err(e) ==> e == ReadError::Overflow,
        r matches Ok(l) ==> lux_of(l, ch0, ch1, integration, gain) && l.wf(),
{
    if ch0 == 0xFFFF || ch1 == 0xFFFF {
        return Err(ReadError::Overflow);
    }
    if ch0 == 0 {
        return Err(ReadError::Overflow);
    }
    let diff: i64 = ch0 as i64 - ch1 as i64;
    assert(0 <= diff * diff <= 0xFFFF * 0xFFFF) by (nonlinear_arith)
        requires
            -0xFFFF <= diff <= 0xFFFF,
    ;
    let square: i64 = diff * diff;
    let numerator: u64 = 408 * (square as u64);
    let atime: u64 = integration.atime_ms();
    let again: u64 = gain.again();
    let c0: u64 = ch0 as u64;
    assert(100 <= c0 * atime * again <= 0xFFFF * 600 * 9876) by (nonlinear_arith)
        requires
            1 <= c0 <= 0xFFFF && 100 <= atime <= 600 && 1 <= again <= 9876,
    ;
    let denominator: u64 = c0 * atime * again;
    Ok(Lux { numerator, denominator })
}

} // verus!
