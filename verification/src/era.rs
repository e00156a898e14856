//! The longevity of a transaction, and the rounding of a period to a power of
//! two that it rests on.
//!
//! `Era` holds the values of an `sp_runtime::generic::Era`. Making a mortal
//! era, and asking when one is born and when it dies, are done by sp_runtime
//! itself, through the trusted items below.

use sp_runtime::generic::Era as RuntimeEra;
use vstd::arithmetic::div_mod::{lemma_fundamental_div_mod, lemma_div_multiples_vanish_fancy, lemma_mod_bound};
use vstd::arithmetic::power2::{pow2, lemma_pow2_unfold, lemma_pow2_strictly_increases, lemma2_to64};
use vstd::prelude::*;

verus! {

/// `ceil(log2(n))`: the exponent of the smallest power of two that is at
/// least `n` (0 for `n <= 1`).
pub open spec fn ceil_log2(n: nat) -> nat
    decreases n,
{
    if n <= 1 {
        0
    } else {
        1 + ceil_log2(((n + 1) / 2) as nat)
    }
}

/// The smallest power of two that is at least `n`.
pub open spec fn next_power_of_two(n: nat) -> nat {
    pow2(ceil_log2(n))
}

/// What `checked_next_power_of_two` gives on a `u32`: the smallest power of
/// two that is at least `n`, when it fits in a `u32`.
pub open spec fn checked_next_power_of_two_u32(n: u32) -> Option<u32> {
    if next_power_of_two(n as nat) <= u32::MAX {
        Some(next_power_of_two(n as nat) as u32)
    } else {
        None
    }
}

/// `u32::checked_next_power_of_two`: std documents that it returns the
/// smallest power of two greater than or equal to `n`, or `None` when that
/// is greater than `u32::MAX`.
#[verifier::external_body]
pub(crate) fn u32_checked_next_power_of_two(n: u32) -> (r: Option<u32>)
    ensures
        r == checked_next_power_of_two_u32(n),
{
    n.checked_next_power_of_two()
}

/// The longevity of a transaction: valid forever, or for `period` blocks
/// from the block whose number is `phase` modulo `period`.
#[derive(Clone, Copy, Debug, PartialEq, Eq, Structural)]
pub enum Era {
    Immortal,
    Mortal(u64, u64),
}

/// The smallest era period is 4 blocks.
pub const MIN_ERA_PERIOD: u64 = 4;

/// The largest era period is 65536 blocks.
pub const MAX_ERA_PERIOD: u64 = 65536;

/// The period that a mortal era asked for with `period` gets: the next power
/// of two (65536 where that overflows a `u64`), kept within 4 and 65536.
pub open spec fn mortal_period(period: u64) -> u64 {
    let p: int = if next_power_of_two(period as nat) <= u64::MAX {
        next_power_of_two(period as nat) as int
    } else {
        MAX_ERA_PERIOD as int
    };
    if p < MIN_ERA_PERIOD {
        MIN_ERA_PERIOD
    } else if p > MAX_ERA_PERIOD {
        MAX_ERA_PERIOD
    } else {
        p as u64
    }
}

/// The step to which the phase of an era of period `period` is rounded down:
/// `period >> 12`, at least 1.
pub open spec fn quantize_factor(period: u64) -> u64 {
    if period / 4096 > 1 {
        (period / 4096) as u64
    } else {
        1
    }
}

/// The mortal era that starts at block `current` and lasts about `period`
/// blocks.
pub open spec fn mortal_era(period: u64, current: u64) -> Era {
    let p = mortal_period(period);
    let q = quantize_factor(p);
    Era::Mortal(p, ((current % p) / q * q) as u64)
}

/// The first block of the era's run that `current` belongs to.
pub open spec fn era_birth(era: Era, current: u64) -> int {
    match era {
        Era::Immortal => 0,
        Era::Mortal(period, phase) => {
            let start: int = if current >= phase { current as int } else { phase as int };
            (start - phase) / (period as int) * period + phase
        },
    }
}

/// The first block at which the era's run that `current` belongs to has
/// ended.
pub open spec fn era_death(era: Era, current: u64) -> int {
    match era {
        Era::Immortal => u64::MAX as int,
        Era::Mortal(period, _) => era_birth(era, current) + period,
    }
}

/// `Era::mortal` of sp_runtime: claimed to round `period` up to a power of two
/// kept within 4 and 65536, and to take as phase `current` modulo that period,
/// rounded down to a multiple of `max(period >> 12, 1)`.
#[verifier::external_body]
fn runtime_era_mortal(period: u64, current: u64) -> (era: Era)
    ensures
        era == mortal_era(period, current),
{
    match RuntimeEra::mortal(period, current) {
        RuntimeEra::Immortal => Era::Immortal,
        RuntimeEra::Mortal(p, phase) => Era::Mortal(p, phase),
    }
}

/// `Era::birth` of sp_runtime: claimed to give 0 for an immortal era, and
/// `(max(current, phase) - phase) / period * period + phase` for a mortal one.
/// It divides by the period, so the period must not be 0.
#[verifier::external_body]
fn runtime_era_birth(era: Era, current: u64) -> (birth: u64)
    requires
        era matches Era::Mortal(period, _) ==> period > 0,
    ensures
        birth == era_birth(era, current),
{
    let runtime_era = match era {
        Era::Immortal => RuntimeEra::Immortal,
        Era::Mortal(period, phase) => RuntimeEra::Mortal(period, phase),
    };
    runtime_era.birth(current)
}

/// `Era::death` of sp_runtime: claimed to give `u64::MAX` for an immortal era,
/// and the birth plus the period for a mortal one. The period must not be 0,
/// and the sum must fit in a `u64`.
#[verifier::external_body]
fn runtime_era_death(era: Era, current: u64) -> (death: u64)
    requires
        era matches Era::Mortal(period, _) ==> period > 0 && era_death(era, current) <= u64::MAX,
    ensures
        death == era_death(era, current),
{
    let runtime_era = match era {
        Era::Immortal => RuntimeEra::Immortal,
        Era::Mortal(period, phase) => RuntimeEra::Mortal(period, phase),
    };
    runtime_era.death(current)
}

impl Era {
    /// A mortal era that starts at block `current` (or, for long periods,
    /// shortly after it) and lasts `period` blocks, `period` rounded up to a
    /// power of two between 4 and 65536.
    pub fn mortal(period: u64, current: u64) -> (era: Era)
        ensures
            era == mortal_era(period, current),
    {
        runtime_era_mortal(period, current)
    }

    /// The first block of the run of this era that `current` belongs to.
    pub fn birth(self, current: u64) -> (birth: u64)
        requires
            self matches Era::Mortal(period, _) ==> period > 0,
        ensures
            birth == era_birth(self, current),
    {
        runtime_era_birth(self, current)
    }

    /// The first block at which the run of this era that `current` belongs to
    /// has ended.
    pub fn death(self, current: u64) -> (death: u64)
        requires
            self matches Era::Mortal(period, _) ==> period > 0 && era_death(self, current) <= u64::MAX,
        ensures
            death == era_death(self, current),
    {
        runtime_era_death(self, current)
    }
}


/// `next_power_of_two(n)` is the least power of two that is at least `n`:
/// it is at least `n`, and for `n >= 2` the power of two below it is less
/// than `n`.
pub proof fn lemma_next_power_of_two(n: nat)
    ensures
        n <= next_power_of_two(n),
        n >= 2 ==> pow2((ceil_log2(n) - 1) as nat) < n,
        n >= 2 ==> ceil_log2(n) >= 1,
    decreases n,
{
    lemma2_to64();
    if n >= 2 {
        let m: nat = ((n + 1) / 2) as nat;
        lemma_next_power_of_two(m);
        lemma_pow2_unfold(ceil_log2(n));
        if m >= 2 {
            lemma_pow2_unfold(ceil_log2(m));
        }
    }
}

/// The period of every mortal era is a power of two between 4 and 65536.
pub proof fn lemma_mortal_period_power_of_two(period: u64)
    ensures
        exists|k: nat| 2 <= k <= 16 && #[trigger] pow2(k) == mortal_period(period),
        MIN_ERA_PERIOD <= mortal_period(period) <= MAX_ERA_PERIOD,
{
    lemma2_to64();
    let c = ceil_log2(period as nat);
    let p = mortal_period(period);
    if next_power_of_two(period as nat) <= u64::MAX && 4 <= next_power_of_two(period as nat) <= 65536 {
        if c < 2 {
            lemma_pow2_strictly_increases(c, 2);
        }
        if c > 16 {
            lemma_pow2_strictly_increases(16, c);
        }
        assert(pow2(c) == p);
    } else if p == 4 {
        assert(pow2(2) == p);
    } else {
        assert(pow2(16) == p);
    }
}

/// A mortal era made at block `current` is alive at `current`: the run of the
/// era that `current` belongs to is born at or before `current` and dies
/// after it.
pub proof fn lemma_mortal_era_alive(period: u64, current: u64)
    ensures
        era_birth(mortal_era(period, current), current) <= current,
        current < era_death(mortal_era(period, current), current),
        era_death(mortal_era(period, current), current) <= current as int + mortal_period(period),
{
    lemma_mortal_period_power_of_two(period);
    let p: int = mortal_period(period) as int;
    let q: int = quantize_factor(mortal_period(period)) as int;
    let c: int = current as int;
    assert(1 <= q <= p);
    lemma_fundamental_div_mod(c, p);
    lemma_mod_bound(c, p);
    let r: int = c % p;
    lemma_fundamental_div_mod(r, q);
    lemma_mod_bound(r, q);
    let phase: int = r / q * q;
    assert(r / q * q == q * (r / q)) by (nonlinear_arith);
    assert(0 <= phase <= r);
    assert(mortal_era(period, current) == Era::Mortal(p as u64, phase as u64));
    let k: int = c / p;
    assert(c - phase == p * k + (r - phase));
    lemma_div_multiples_vanish_fancy(k, r - phase, p);
    assert((c - phase) / p == k);
    assert(k * p == p * k) by (nonlinear_arith);
    assert(era_birth(mortal_era(period, current), current) == p * k + phase);
}

} // verus!
