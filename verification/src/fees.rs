//! Division of transaction fees and tips between the treasury and the block
//! author.
//!
//! An imbalance is modelled by the balance it carries. `ration` divides such a
//! balance in the ratio `first : second`: the first part is
//! `floor(amount * first / (first + second))` for every amount, computed
//! without overflow, and the second part is the rest. Merging two imbalances
//! adds their balances, saturating.

use vstd::arithmetic::div_mod::{lemma_fundamental_div_mod, lemma_hoist_over_denominator, lemma_mod_bound};
use vstd::prelude::*;

verus! {

/// Balance of an account, and the amount an imbalance carries.
pub type Balance = u128;

/// Share of fees and tips, out of `FEE_SHARE_TREASURY + FEE_SHARE_AUTHOR`,
/// that goes to the treasury.
pub const FEE_SHARE_TREASURY: u32 = 80;

/// Share of fees and tips, out of `FEE_SHARE_TREASURY + FEE_SHARE_AUTHOR`,
/// that goes to the block author.
pub const FEE_SHARE_AUTHOR: u32 = 20;

/// `a + b` on `u32`, saturating at `u32::MAX`.
pub open spec fn saturating_add_u32(a: u32, b: u32) -> int {
    if a + b > u32::MAX {
        u32::MAX as int
    } else {
        a + b
    }
}

/// `a + b` on `Balance`, saturating at `u128::MAX`.
pub open spec fn saturating_add_balance(a: Balance, b: Balance) -> Balance {
    if a + b > u128::MAX {
        u128::MAX
    } else {
        (a + b) as Balance
    }
}

/// The two parts into which `amount` is divided in the ratio `first : second`
/// (their sum saturating at `u32::MAX`): `amount * first / (first + second)`,
/// rounded down, and the rest; nothing when both terms are 0.
pub open spec fn ration_parts(amount: Balance, first: u32, second: u32) -> (Balance, Balance) {
    let total = saturating_add_u32(first, second);
    if total == 0 {
        (0, 0)
    } else {
        let part: int = amount * first / total;
        (part as Balance, (amount - part) as Balance)
    }
}

/// `amount * first / total`, rounded down, is at most `amount` when
/// `first <= total`, and equals `(amount / total) * first + (amount % total) * first / total`.
proof fn lemma_scaled_share(amount: int, first: int, total: int)
    requires
        0 <= amount,
        0 <= first <= total,
        0 < total,
    ensures
        0 <= amount * first / total <= amount,
        amount * first / total == (amount / total) * first + (amount % total) * first / total,
        (amount / total) * first <= amount,
{
    let q: int = amount / total;
    let r: int = amount % total;
    lemma_fundamental_div_mod(amount, total);
    lemma_mod_bound(amount, total);
    assert(amount * first == r * first + (q * first) * total) by (nonlinear_arith)
        requires amount == total * q + r;
    lemma_hoist_over_denominator(r * first, q * first, total as nat);
    assert(0 <= r * first) by (nonlinear_arith) requires 0 <= r, 0 <= first;
    assert(amount * first <= amount * total) by (nonlinear_arith)
        requires 0 <= amount, first <= total;
    assert(amount * first / total <= amount) by (nonlinear_arith)
        requires amount * first <= amount * total, total > 0, 0 <= amount;
    assert(0 <= amount * first / total) by (nonlinear_arith)
        requires 0 <= amount, 0 <= first, total > 0;
    assert(q * first <= q * total) by (nonlinear_arith)
        requires 0 <= amount, q == amount / total, first <= total, total > 0;
    assert(q * total <= amount) by (nonlinear_arith)
        requires amount == total * q + r, 0 <= r;
}

/// Divides `amount` in the ratio `first : second`.
pub fn ration(amount: Balance, first: u32, second: u32) -> (parts: (Balance, Balance))
    ensures
        parts == ration_parts(amount, first, second),
{
    let total: u32 = first.saturating_add(second);
    if total == 0 {
        return (0, 0);
    }
    proof {
        lemma_scaled_share(amount as int, first as int, total as int);
        lemma_mod_bound(amount as int, total as int);
        assert((amount % (total as Balance)) * first < 0x1_0000_0000 * 0x1_0000_0000) by (nonlinear_arith)
            requires
                amount % (total as Balance) < total,
                total < 0x1_0000_0000,
                first < 0x1_0000_0000;
    }
    let whole: Balance = amount / (total as Balance) * (first as Balance);
    let rest: Balance = amount % (total as Balance) * (first as Balance) / (total as Balance);
    let part: Balance = whole + rest;
    (part, amount - part)
}

/// Divides `amount` in the ratio `first : second` and adds the two parts to
/// the two balances of `others`, each addition saturating.
pub fn ration_merge_into(amount: Balance, first: u32, second: u32, others: &mut (Balance, Balance))
    ensures
        final(others).0 == saturating_add_balance(old(others).0, ration_parts(amount, first, second).0),
        final(others).1 == saturating_add_balance(old(others).1, ration_parts(amount, first, second).1),
{
    let (a, b) = ration(amount, first, second);
    others.0 = others.0.saturating_add(a);
    others.1 = others.1.saturating_add(b);
}

/// What the treasury and the block author receive of the imbalances
/// `fees_then_tips`: nothing when there is none; otherwise the fees (the first
/// item) divided `80 : 20`, with the tips (the second item, if any) divided
/// the same way and added. Later items are not taken.
pub open spec fn fee_distribution(fees_then_tips: Seq<Balance>) -> Option<(Balance, Balance)> {
    if fees_then_tips.len() == 0 {
        None
    } else {
        let split = ration_parts(fees_then_tips[0], FEE_SHARE_TREASURY, FEE_SHARE_AUTHOR);
        if fees_then_tips.len() == 1 {
            Some(split)
        } else {
            let tips = ration_parts(fees_then_tips[1], FEE_SHARE_TREASURY, FEE_SHARE_AUTHOR);
            Some((saturating_add_balance(split.0, tips.0), saturating_add_balance(split.1, tips.1)))
        }
    }
}

/// Handler of the transaction fees and tips that the runtime collects.
pub struct DealWithFees;

impl DealWithFees {
    /// Decides where the imbalances `fees_then_tips` go: for fees, 80% to the
    /// treasury and 20% to the block author; for tips, if any, the same.
    /// Returns `(to_treasury, to_author)`, or `None` when there are no fees
    /// and nothing is to be moved.
    pub fn on_unbalanceds(fees_then_tips: &[Balance]) -> (split: Option<(Balance, Balance)>)
        ensures
            split == fee_distribution(fees_then_tips@),
    {
        if fees_then_tips.len() == 0 {
            return None;
        }
        let fees: Balance = fees_then_tips[0];
        let mut split: (Balance, Balance) = ration(fees, FEE_SHARE_TREASURY, FEE_SHARE_AUTHOR);
        if fees_then_tips.len() > 1 {
            let tips: Balance = fees_then_tips[1];
            ration_merge_into(tips, FEE_SHARE_TREASURY, FEE_SHARE_AUTHOR, &mut split);
        }
        Some(split)
    }
}

/// Dividing a balance in any ratio whose terms do not both vanish loses and
/// creates nothing: the two parts add up to the balance.
pub proof fn lemma_ration_conserves(amount: Balance, first: u32, second: u32)
    requires
        first + second > 0,
    ensures
        ration_parts(amount, first, second).0 + ration_parts(amount, first, second).1 == amount,
{
    lemma_scaled_share(amount as int, first as int, saturating_add_u32(first, second));
}

/// Where the sum of the terms does not saturate, the first part is exactly
/// `amount * first / (first + second)`, rounded down, for every amount, and
/// the second is the rest.
pub proof fn lemma_ration_exact(amount: Balance, first: u32, second: u32)
    requires
        first + second > 0,
        first + second <= u32::MAX,
    ensures
        ration_parts(amount, first, second).0 == amount * first / (first + second),
        ration_parts(amount, first, second).1 == amount - amount * first / (first + second),
{
    lemma_scaled_share(amount as int, first as int, saturating_add_u32(first, second));
}

/// Of fees `f` alone, the treasury receives `f * 80 / 100` (rounded down) and
/// the author the rest, for every `f`.
pub proof fn lemma_fees_eighty_twenty(fees: Balance)
    ensures
        fee_distribution(seq![fees]) == Some(((fees * 80 / 100) as Balance, (fees - fees * 80 / 100) as Balance)),
{
    lemma_ration_exact(fees, FEE_SHARE_TREASURY, FEE_SHARE_AUTHOR);
}

/// Of fees `f` and tips `t`, the treasury receives `f * 80 / 100 + t * 80 / 100`
/// and the author the rest of each (rounded down, and each sum saturating at
/// `u128::MAX`), for every `f` and `t`.
pub proof fn lemma_fees_and_tips_eighty_twenty(fees: Balance, tips: Balance)
    ensures
        fee_distribution(seq![fees, tips]) == Some((
            saturating_add_balance((fees * 80 / 100) as Balance, (tips * 80 / 100) as Balance),
            saturating_add_balance((fees - fees * 80 / 100) as Balance, (tips - tips * 80 / 100) as Balance),
        )),
{
    lemma_ration_exact(fees, FEE_SHARE_TREASURY, FEE_SHARE_AUTHOR);
    lemma_ration_exact(tips, FEE_SHARE_TREASURY, FEE_SHARE_AUTHOR);
}

/// Nothing of the fees and tips is lost or created: the treasury's and the
/// author's shares add up to what was collected, as long as the sum of the
/// first two imbalances fits in a balance.
pub proof fn lemma_fee_distribution_conserves(fees_then_tips: Seq<Balance>)
    requires
        fees_then_tips.len() >= 1,
        fees_then_tips.len() >= 2 ==> fees_then_tips[0] + fees_then_tips[1] <= u128::MAX,
    ensures
        fee_distribution(fees_then_tips) matches Some(split) && split.0 + split.1 == (
            if fees_then_tips.len() == 1 {
                fees_then_tips[0] as int
            } else {
                fees_then_tips[0] + fees_then_tips[1]
            }
        ),
{
    lemma_ration_conserves(fees_then_tips[0], FEE_SHARE_TREASURY, FEE_SHARE_AUTHOR);
    if fees_then_tips.len() >= 2 {
        lemma_ration_conserves(fees_then_tips[1], FEE_SHARE_TREASURY, FEE_SHARE_AUTHOR);
    }
}

} // verus!
