//! Configuration validation: checks the user-supplied parameters and
//! derives the engine parameters (thresholds and the fixed-point clock
//! divisor) before the engine starts.
use vstd::prelude::*;

use crate::MAX_BIT_WIDTH;
use crate::MIN_BIT_WIDTH;

verus! {

/// User-supplied configuration for one SPI master instance.
pub struct SpiMasterConfig {
    /// Host-clock divisor for the sequencer step rate; must be positive.
    pub clk_div: u16,
    /// Number of meaningful bits per transfer, 16 to 60.
    pub message_size: usize,
}

/// Construction-time configuration failure.
#[derive(Clone, Copy, Debug, PartialEq, Eq, Structural)]
pub enum ConfigError {
    /// The requested bit width lies outside the supported range.
    WidthOutOfRange,
}

/// Parameters derived from a validated configuration; immutable for the
/// lifetime of the engine instance.
#[derive(Clone, Copy, Debug, PartialEq, Eq, Structural)]
pub struct EngineParams {
    /// Meaningful bits per transfer.
    pub bit_width: usize,
    /// Raw bits of the 24.8 fixed-point clock divisor handed to the
    /// engine: the divisor minus one, scaled by 256.
    pub clock_divisor_bits: u32,
    /// The outbound shift buffer refills only on a full 32-bit word.
    pub fill_threshold: usize,
    /// The inbound shift buffer flushes once `min(bit_width, 32)` bits
    /// have accumulated, so that a transfer narrower than a word flushes
    /// at the transfer boundary instead of deadlocking.
    pub drain_threshold: usize,
}

impl EngineParams {
    /// Parameter consistency: the width is in range and the thresholds
    /// are exactly the derived ones, which keep the engine free of
    /// refill/flush deadlocks.
    pub open spec fn wf(self) -> bool {
        &&& MIN_BIT_WIDTH <= self.bit_width <= MAX_BIT_WIDTH
        &&& self.fill_threshold == 32
        &&& self.drain_threshold == if self.bit_width <= 32 {
            self.bit_width
        } else {
            32
        }
    }
}

/// Relies on `fixed::traits::ToFixed` for `u32` into `FixedU32<U8>` and on
/// `FixedU32::to_bits`: converting an integer `v` that fits in the 24
/// integer bits yields the fixed-point number whose raw bits are
/// `v * 256`, and `to_bits` returns those raw bits.
#[verifier::external_body]
fn fixed_divisor_bits(v: u32) -> (r: u32)
    requires
        v < 0x0100_0000,
    ensures
        r == v * 0x100,
{
    let f: fixed::FixedU32<fixed::types::extra::U8> = fixed::traits::ToFixed::to_fixed(v);
    f.to_bits()
}

/// Validates a configuration and derives the engine parameters.
///
/// Succeeds exactly when the requested width lies in the supported range;
/// the only failure is `WidthOutOfRange`.
pub fn validate_config(config: &SpiMasterConfig) -> (r: Result<EngineParams, ConfigError>)
    requires
        config.clk_div >= 1,
    ensures
        r is Ok <==> MIN_BIT_WIDTH <= config.message_size <= MAX_BIT_WIDTH,
        r is Err ==> r->Err_0 == ConfigError::WidthOutOfRange,
        r is Ok ==> ({
            let p = r->Ok_0;
            &&& p.wf()
            &&& p.bit_width == config.message_size
            &&& p.clock_divisor_bits == (config.clk_div - 1) * 256
        }),
{
    if config.message_size < MIN_BIT_WIDTH || config.message_size > MAX_BIT_WIDTH {
        return Err(ConfigError::WidthOutOfRange);
    }
    let divisor = config.clk_div as u32 - 1;
    let bits = fixed_divisor_bits(divisor);
    let drain_threshold = if config.message_size < 32 {
        config.message_size
    } else {
        32
    };
    Ok(
        EngineParams {
            bit_width: config.message_size,
            clock_divisor_bits: bits,
            fill_threshold: 32,
            drain_threshold,
        },
    )
}

} // verus!
