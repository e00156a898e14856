//! Ratios that configure how full a block may get.

use sp_runtime::{PerThing, Perbill};
use vstd::prelude::*;

verus! {

/// The parts per billion of `Perbill::from_percent(percent)`: `percent`
/// (at most 100) hundredths of a billion.
pub open spec fn perbill_parts_from_percent(percent: u32) -> u32 {
    let p: int = if percent > 100 { 100 } else { percent as int };
    (p * 1_000_000_000 / 100) as u32
}

/// `Perbill::from_percent` of sp_arithmetic (read back with `deconstruct`):
/// claimed, as its source computes, to be `min(percent, 100) * 1_000_000_000 / 100`
/// parts per billion.
#[verifier::external_body]
fn perbill_from_percent(percent: u32) -> (parts: u32)
    ensures
        parts == perbill_parts_from_percent(percent),
{
    Perbill::from_percent(percent).deconstruct()
}

/// Percentage of a block's weight and length that normal transactions may
/// use.
pub const AVAILABLE_BLOCK_RATIO_PERCENT: u32 = 75;

/// Percentage of a block's capacity that the fee multiplier aims at.
pub const TARGET_BLOCK_FULLNESS_PERCENT: u32 = 25;

/// Share of a block, in parts per billion, that normal transactions may use.
pub fn available_block_ratio() -> (parts: u32)
    ensures
        parts == perbill_parts_from_percent(AVAILABLE_BLOCK_RATIO_PERCENT),
        parts == 750_000_000,
{
    perbill_from_percent(AVAILABLE_BLOCK_RATIO_PERCENT)
}

/// Fullness of a block, in parts per billion, that the fee adjustment aims
/// at.
pub fn target_block_fullness() -> (parts: u32)
    ensures
        parts == perbill_parts_from_percent(TARGET_BLOCK_FULLNESS_PERCENT),
        parts == 250_000_000,
{
    perbill_from_percent(TARGET_BLOCK_FULLNESS_PERCENT)
}

} // verus!
