//! Measurements that the telemetry reports as IEEE-754 single-precision
//! numbers are held here by their bit patterns (`f32::to_bits`), so that the
//! scoring rules can compare them exactly without floating-point code.
//!
//! For a threshold `t` that is positive and finite, and any `f32` value `x`,
//! `x > t` holds exactly when `t.to_bits() < x.to_bits() <= 0x7F80_0000`:
//! non-negative floats are ordered like their bit patterns, `0x7F80_0000`
//! is `+inf`, larger patterns without the sign bit are NaN, and every
//! negative value has the sign bit set.

use vstd::prelude::*;

verus! {

/// Bit pattern of `0.7_f32`, the write-entropy alarm threshold.
pub const ENTROPY_THRESHOLD_BITS: u32 = 0x3F33_3333;

/// Bit pattern of `0.6_f32`, the ransomware-family similarity threshold.
pub const PEER_RISK_THRESHOLD_BITS: u32 = 0x3F19_999A;

/// Bit pattern of `40.0_f32`, the CPU-usage (percent) alarm threshold.
pub const CPU_THRESHOLD_BITS: u32 = 0x4220_0000;

/// Bit pattern of `f32::INFINITY`.
pub const POSITIVE_INFINITY_BITS: u32 = 0x7F80_0000;

/// The `f32` with bit pattern `bits` is greater than the positive finite
/// `f32` with bit pattern `threshold_bits`.
pub open spec fn f32_bits_gt(bits: u32, threshold_bits: u32) -> bool {
    threshold_bits < bits && bits <= POSITIVE_INFINITY_BITS
}

/// Compares the `f32` held in `bits` against a positive finite threshold.
pub fn exceeds(bits: u32, threshold_bits: u32) -> (r: bool)
    ensures
        r == f32_bits_gt(bits, threshold_bits),
{
    threshold_bits < bits && bits <= POSITIVE_INFINITY_BITS
}

} // verus!
