//! The data that the runtime signs into a transaction it creates itself (for
//! example an offchain worker's report): a mortal era as long as the block
//! hash history allows, the sender's nonce, and no tip.

use crate::era::{
    Era, ceil_log2, checked_next_power_of_two_u32, era_birth, era_death, lemma_mortal_era_alive,
    lemma_next_power_of_two, mortal_era, mortal_period, next_power_of_two,
    u32_checked_next_power_of_two,
};
use crate::fees::Balance;
use vstd::arithmetic::power2::{lemma_pow2_unfold, lemma2_to64};
use vstd::prelude::*;

verus! {

/// Number of recent block hashes that the chain keeps, and so the longest
/// period for which a transaction can stay valid.
pub const BLOCK_HASH_COUNT: u32 = 250;

/// The longest mortality period that a transaction can have when the chain
/// keeps `block_hash_count` block hashes: half the next power of two of
/// `block_hash_count`, or 2 when that power does not fit in a `u32`.
pub open spec fn longest_period(block_hash_count: u32) -> u64 {
    match checked_next_power_of_two_u32(block_hash_count) {
        Some(power) => (power / 2) as u64,
        None => 2,
    }
}

/// The number of the latest finished block when the chain is at block
/// `block_number`, which has not finished yet: one less, and 0 for 0.
pub open spec fn latest_block(block_number: u32) -> u64 {
    if block_number == 0 {
        0
    } else {
        (block_number - 1) as u64
    }
}

/// The data that the signed extensions of a transaction carry; the other
/// extensions (version, genesis, weight and gas limit checks) carry none.
#[derive(Clone, Copy, Debug, PartialEq, Eq, Structural)]
pub struct SignedExtra {
    /// The era in which the transaction is valid.
    pub era: Era,
    /// The sender's nonce.
    pub nonce: u32,
    /// The tip paid to the block author.
    pub tip: Balance,
}

/// The signed extension data of a transaction that the runtime creates at
/// block `block_number` for a sender whose nonce is `index`.
pub open spec fn transaction_extra(block_number: u32, index: u32) -> SignedExtra {
    SignedExtra {
        era: mortal_era(longest_period(BLOCK_HASH_COUNT), latest_block(block_number)),
        nonce: index,
        tip: 0,
    }
}

/// The longest mortality period that a transaction can have when the chain
/// keeps `block_hash_count` block hashes.
pub fn mortality_period(block_hash_count: u32) -> (period: u64)
    ensures
        period == longest_period(block_hash_count),
{
    let period: u32 = match u32_checked_next_power_of_two(block_hash_count) {
        Some(power) => power / 2,
        None => 2,
    };
    period as u64
}

/// The latest finished block when the chain is at block `block_number`.
pub fn current_block(block_number: u32) -> (current: u64)
    ensures
        current == latest_block(block_number),
{
    (block_number as u64).saturating_sub(1)
}

/// The runtime.
pub struct Runtime;

impl Runtime {
    /// The signed extension data of a transaction that the runtime creates at
    /// block `block_number` for a sender whose nonce is `index`: the longest
    /// period possible, starting at the latest finished block, the nonce, and
    /// a tip of 0.
    pub fn signed_extra(block_number: u32, index: u32) -> (extra: SignedExtra)
        ensures
            extra == transaction_extra(block_number, index),
            extra.nonce == index,
            extra.tip == 0,
    {
        let period: u64 = mortality_period(BLOCK_HASH_COUNT);
        let current: u64 = current_block(block_number);
        SignedExtra { era: Era::mortal(period, current), nonce: index, tip: 0 }
    }

    /// Creates the transaction that the runtime sends at block
    /// `block_number` for `call`, from `address` with nonce `index`.
    /// `make_payload` makes the payload to sign from the call and
    /// `Runtime::signed_extra(block_number, index)`, and `sign` signs it as the
    /// sender. Where the payload cannot be made, or the signer refuses, no
    /// transaction is created.
    pub fn create_transaction<C, A, S, P, MakePayload, Sign>(
        call: C,
        address: A,
        block_number: u32,
        index: u32,
        make_payload: MakePayload,
        sign: Sign,
    ) -> (transaction: Option<(C, (A, S, SignedExtra))>) where
        MakePayload: FnOnce(&C, SignedExtra) -> Option<P>,
        Sign: FnOnce(P) -> Option<S>,

        requires
            make_payload.requires((&call, transaction_extra(block_number, index))),
            forall|payload: P| #[trigger] sign.requires((payload,)),
        ensures
            transaction matches Some((c, (a, s, extra))) ==> {
                &&& c == call
                &&& a == address
                &&& extra == transaction_extra(block_number, index)
                &&& exists|payload: P|
                    #[trigger] make_payload.ensures(
                        (&call, transaction_extra(block_number, index)),
                        Some(payload),
                    ) && sign.ensures((payload,), Some(s))
            },
            transaction is None ==> exists|made: Option<P>|
                #[trigger] make_payload.ensures((&call, transaction_extra(block_number, index)), made)
                    && (made matches Some(payload) ==> sign.ensures((payload,), None)),
    {
        let extra: SignedExtra = Self::signed_extra(block_number, index);
        let made: Option<P> = make_payload(&call, extra);
        match made {
            Some(payload) => {
                let signed: Option<S> = sign(payload);
                match signed {
                    Some(signature) => Some((call, (address, signature, extra))),
                    None => None,
                }
            },
            None => None,
        }
    }
}

/// The runtime's transactions last 128 blocks: 250 block hashes are kept, the
/// next power of two is 256, and half of it is already a power of two that a
/// mortal era keeps.
pub proof fn lemma_runtime_mortality_period()
    ensures
        longest_period(BLOCK_HASH_COUNT) == 128,
        mortal_period(128) == 128,
{
    lemma2_to64();
    reveal_with_fuel(ceil_log2, 9);
    assert(ceil_log2(250) == 8);
    assert(ceil_log2(128) == 7);
}

/// The longest period never exceeds the number of block hashes kept, so a
/// transaction does not outlive the block hash that its signature names.
pub proof fn lemma_longest_period_within_history(block_hash_count: u32)
    ensures
        longest_period(block_hash_count) <= block_hash_count,
{
    lemma2_to64();
    lemma_next_power_of_two(block_hash_count as nat);
    let k = ceil_log2(block_hash_count as nat);
    if next_power_of_two(block_hash_count as nat) <= u32::MAX && block_hash_count >= 2 {
        lemma_pow2_unfold(k);
    }
}

/// A transaction that the runtime creates is valid when it is made: its era
/// is mortal, lasts 128 blocks (no more than the block hashes kept), and the
/// run of it that holds the latest finished block is born at or before that
/// block and dies after it.
pub proof fn lemma_created_transaction_alive(block_number: u32, index: u32)
    ensures
        transaction_extra(block_number, index).era matches Era::Mortal(period, _) && period == 128
            && period <= BLOCK_HASH_COUNT,
        era_birth(transaction_extra(block_number, index).era, latest_block(block_number))
            <= latest_block(block_number),
        latest_block(block_number) < era_death(
            transaction_extra(block_number, index).era,
            latest_block(block_number),
        ),
{
    lemma_runtime_mortality_period();
    lemma_mortal_era_alive(longest_period(BLOCK_HASH_COUNT), latest_block(block_number));
}


/// A transaction that the runtime creates carries the sender's nonce
/// unchanged, pays no tip, and has the mortal era of period 128 whose phase is
/// the latest finished block modulo 128, for every block number and nonce.
pub proof fn lemma_created_extra_fields(block_number: u32, index: u32)
    ensures
        transaction_extra(block_number, index).nonce == index,
        transaction_extra(block_number, index).tip == 0,
        transaction_extra(block_number, index).era == Era::Mortal(
            128,
            (latest_block(block_number) % 128) as u64,
        ),
{
    lemma_runtime_mortality_period();
}

} // verus!
