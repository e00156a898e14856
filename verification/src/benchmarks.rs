//! Which pallet a benchmark request names.

use vstd::prelude::*;
use vstd::string::{StringSliceAdditionalSpecFns, is_ascii_spec_bytes};

verus! {

/// The pallets whose extrinsics the runtime can benchmark.
#[derive(Clone, Copy, Debug, PartialEq, Eq, Structural)]
pub enum BenchmarkedPallet {
    Balances,
    ImOnline,
    Identity,
    Session,
    Staking,
    Timestamp,
    Treasury,
    Vesting,
}

/// `name` is the bytes of `long` or of `short`.
pub open spec fn is_named(name: Seq<u8>, long: &str, short: &str) -> bool {
    name == long.spec_bytes() || name == short.spec_bytes()
}

/// The pallet that a benchmark request names by `name`: each pallet answers
/// to its crate name and to its short name.
pub open spec fn benchmarked_pallet(name: Seq<u8>) -> Option<BenchmarkedPallet> {
    if is_named(name, "pallet-balances", "balances") {
        Some(BenchmarkedPallet::Balances)
    } else if is_named(name, "pallet-im-online", "im-online") {
        Some(BenchmarkedPallet::ImOnline)
    } else if is_named(name, "pallet-identity", "identity") {
        Some(BenchmarkedPallet::Identity)
    } else if is_named(name, "pallet-session", "session") {
        Some(BenchmarkedPallet::Session)
    } else if is_named(name, "pallet-staking", "staking") {
        Some(BenchmarkedPallet::Staking)
    } else if is_named(name, "pallet-timestamp", "timestamp") {
        Some(BenchmarkedPallet::Timestamp)
    } else if is_named(name, "pallet-treasury", "treasury") {
        Some(BenchmarkedPallet::Treasury)
    } else if is_named(name, "pallet-vesting", "vesting") {
        Some(BenchmarkedPallet::Vesting)
    } else {
        None
    }
}

/// The message with which a benchmark request for an unknown pallet fails.
pub open spec fn benchmark_not_found() -> Seq<char> {
    "Benchmark not found for this pallet."@
}

/// Whether `a` and `b` hold the same bytes.
fn same_bytes(a: &[u8], b: &[u8]) -> (same: bool)
    ensures
        same == (a@ == b@),
{
    if a.len() != b.len() {
        return false;
    }
    let mut i: usize = 0;
    while i < a.len()
        invariant
            a@.len() == b@.len(),
            i <= a@.len(),
            forall|j: int| 0 <= j < i ==> a@[j] == b@[j],
        decreases a@.len() - i,
    {
        if a[i] != b[i] {
            return false;
        }
        i = i + 1;
    }
    assert(a@ =~= b@);
    true
}

/// Whether `module` is the bytes of `long` or of `short`.
fn named(module: &[u8], long: &str, short: &str) -> (found: bool)
    ensures
        found == is_named(module@, long, short),
{
    same_bytes(module, long.as_bytes()) || same_bytes(module, short.as_bytes())
}

/// The pallet that the benchmark request for `module` is for, or the error
/// that the request fails with when `module` names none.
pub fn benchmark_target(module: &[u8]) -> (target: Result<BenchmarkedPallet, String>)
    ensures
        target matches Ok(pallet) ==> benchmarked_pallet(module@) == Some(pallet),
        target matches Err(message) ==> benchmarked_pallet(module@) is None && message@
            == benchmark_not_found(),
        target is Ok <==> benchmarked_pallet(module@) is Some,
{
    if named(module, "pallet-balances", "balances") {
        Ok(BenchmarkedPallet::Balances)
    } else if named(module, "pallet-im-online", "im-online") {
        Ok(BenchmarkedPallet::ImOnline)
    } else if named(module, "pallet-identity", "identity") {
        Ok(BenchmarkedPallet::Identity)
    } else if named(module, "pallet-session", "session") {
        Ok(BenchmarkedPallet::Session)
    } else if named(module, "pallet-staking", "staking") {
        Ok(BenchmarkedPallet::Staking)
    } else if named(module, "pallet-timestamp", "timestamp") {
        Ok(BenchmarkedPallet::Timestamp)
    } else if named(module, "pallet-treasury", "treasury") {
        Ok(BenchmarkedPallet::Treasury)
    } else if named(module, "pallet-vesting", "vesting") {
        Ok(BenchmarkedPallet::Vesting)
    } else {
        proof {
            reveal_strlit("Benchmark not found for this pallet.");
        }
        Err("Benchmark not found for this pallet.".to_owned())
    }
}


/// The bytes of the pallet names are their ASCII characters, so names of
/// different lengths differ, and each pair of names of the same length differs
/// at some byte.
proof fn lemma_pallet_name_bytes()
    ensures
        "pallet-balances".spec_bytes().len() == 15,
        "balances".spec_bytes().len() == 8,
        "pallet-im-online".spec_bytes().len() == 16,
        "im-online".spec_bytes().len() == 9,
        "pallet-identity".spec_bytes().len() == 15,
        "identity".spec_bytes().len() == 8,
        "pallet-session".spec_bytes().len() == 14,
        "session".spec_bytes().len() == 7,
        "pallet-staking".spec_bytes().len() == 14,
        "staking".spec_bytes().len() == 7,
        "pallet-timestamp".spec_bytes().len() == 16,
        "timestamp".spec_bytes().len() == 9,
        "pallet-treasury".spec_bytes().len() == 15,
        "treasury".spec_bytes().len() == 8,
        "pallet-vesting".spec_bytes().len() == 14,
        "vesting".spec_bytes().len() == 7,
        "pallet-balances".spec_bytes() != "pallet-identity".spec_bytes(),
        "pallet-balances".spec_bytes() != "pallet-treasury".spec_bytes(),
        "balances".spec_bytes() != "identity".spec_bytes(),
        "balances".spec_bytes() != "treasury".spec_bytes(),
        "pallet-im-online".spec_bytes() != "pallet-timestamp".spec_bytes(),
        "im-online".spec_bytes() != "timestamp".spec_bytes(),
        "pallet-identity".spec_bytes() != "pallet-treasury".spec_bytes(),
        "identity".spec_bytes() != "treasury".spec_bytes(),
        "pallet-session".spec_bytes() != "pallet-staking".spec_bytes(),
        "pallet-session".spec_bytes() != "pallet-vesting".spec_bytes(),
        "session".spec_bytes() != "staking".spec_bytes(),
        "session".spec_bytes() != "vesting".spec_bytes(),
        "pallet-staking".spec_bytes() != "pallet-vesting".spec_bytes(),
        "staking".spec_bytes() != "vesting".spec_bytes(),
{
    reveal_strlit("pallet-balances");
    is_ascii_spec_bytes("pallet-balances");
    reveal_strlit("balances");
    is_ascii_spec_bytes("balances");
    reveal_strlit("pallet-im-online");
    is_ascii_spec_bytes("pallet-im-online");
    reveal_strlit("im-online");
    is_ascii_spec_bytes("im-online");
    reveal_strlit("pallet-identity");
    is_ascii_spec_bytes("pallet-identity");
    reveal_strlit("identity");
    is_ascii_spec_bytes("identity");
    reveal_strlit("pallet-session");
    is_ascii_spec_bytes("pallet-session");
    reveal_strlit("session");
    is_ascii_spec_bytes("session");
    reveal_strlit("pallet-staking");
    is_ascii_spec_bytes("pallet-staking");
    reveal_strlit("staking");
    is_ascii_spec_bytes("staking");
    reveal_strlit("pallet-timestamp");
    is_ascii_spec_bytes("pallet-timestamp");
    reveal_strlit("timestamp");
    is_ascii_spec_bytes("timestamp");
    reveal_strlit("pallet-treasury");
    is_ascii_spec_bytes("pallet-treasury");
    reveal_strlit("treasury");
    is_ascii_spec_bytes("treasury");
    reveal_strlit("pallet-vesting");
    is_ascii_spec_bytes("pallet-vesting");
    reveal_strlit("vesting");
    is_ascii_spec_bytes("vesting");
    assert("pallet-balances".spec_bytes()[7] != "pallet-identity".spec_bytes()[7]);
    assert("pallet-balances".spec_bytes()[7] != "pallet-treasury".spec_bytes()[7]);
    assert("balances".spec_bytes()[0] != "identity".spec_bytes()[0]);
    assert("balances".spec_bytes()[0] != "treasury".spec_bytes()[0]);
    assert("pallet-im-online".spec_bytes()[7] != "pallet-timestamp".spec_bytes()[7]);
    assert("im-online".spec_bytes()[0] != "timestamp".spec_bytes()[0]);
    assert("pallet-identity".spec_bytes()[7] != "pallet-treasury".spec_bytes()[7]);
    assert("identity".spec_bytes()[0] != "treasury".spec_bytes()[0]);
    assert("pallet-session".spec_bytes()[8] != "pallet-staking".spec_bytes()[8]);
    assert("pallet-session".spec_bytes()[7] != "pallet-vesting".spec_bytes()[7]);
    assert("session".spec_bytes()[1] != "staking".spec_bytes()[1]);
    assert("session".spec_bytes()[0] != "vesting".spec_bytes()[0]);
    assert("pallet-staking".spec_bytes()[7] != "pallet-vesting".spec_bytes()[7]);
    assert("staking".spec_bytes()[0] != "vesting".spec_bytes()[0]);
}

/// A benchmark request is routed to a pallet exactly when it names that
/// pallet by its crate name or its short name: each of the sixteen names goes
/// to its own pallet, and every other name (such as another pallet of the
/// runtime) gives none, so the request fails.
pub proof fn lemma_benchmark_routing(name: Seq<u8>)
    ensures
        (benchmarked_pallet(name) == Some(BenchmarkedPallet::Balances)) <==> (
            name == "pallet-balances".spec_bytes()
            || name == "balances".spec_bytes()),
        (benchmarked_pallet(name) == Some(BenchmarkedPallet::ImOnline)) <==> (
            name == "pallet-im-online".spec_bytes()
            || name == "im-online".spec_bytes()),
        (benchmarked_pallet(name) == Some(BenchmarkedPallet::Identity)) <==> (
            name == "pallet-identity".spec_bytes()
            || name == "identity".spec_bytes()),
        (benchmarked_pallet(name) == Some(BenchmarkedPallet::Session)) <==> (
            name == "pallet-session".spec_bytes()
            || name == "session".spec_bytes()),
        (benchmarked_pallet(name) == Some(BenchmarkedPallet::Staking)) <==> (
            name == "pallet-staking".spec_bytes()
            || name == "staking".spec_bytes()),
        (benchmarked_pallet(name) == Some(BenchmarkedPallet::Timestamp)) <==> (
            name == "pallet-timestamp".spec_bytes()
            || name == "timestamp".spec_bytes()),
        (benchmarked_pallet(name) == Some(BenchmarkedPallet::Treasury)) <==> (
            name == "pallet-treasury".spec_bytes()
            || name == "treasury".spec_bytes()),
        (benchmarked_pallet(name) == Some(BenchmarkedPallet::Vesting)) <==> (
            name == "pallet-vesting".spec_bytes()
            || name == "vesting".spec_bytes()),
        benchmarked_pallet(name) is None <==> !(
            name == "pallet-balances".spec_bytes()
            || name == "balances".spec_bytes()
            || name == "pallet-im-online".spec_bytes()
            || name == "im-online".spec_bytes()
            || name == "pallet-identity".spec_bytes()
            || name == "identity".spec_bytes()
            || name == "pallet-session".spec_bytes()
            || name == "session".spec_bytes()
            || name == "pallet-staking".spec_bytes()
            || name == "staking".spec_bytes()
            || name == "pallet-timestamp".spec_bytes()
            || name == "timestamp".spec_bytes()
            || name == "pallet-treasury".spec_bytes()
            || name == "treasury".spec_bytes()
            || name == "pallet-vesting".spec_bytes()
            || name == "vesting".spec_bytes()
        ),
{
    lemma_pallet_name_bytes();
}

} // verus!
