use akropolis_runtime::benchmarks::{benchmark_target, BenchmarkedPallet};
use akropolis_runtime::contracts::{ContractExecResult, ExecReturnValue};
use akropolis_runtime::transaction::Runtime;

#[test]
fn benchmark_names_long_and_short() {
    let cases: [(&[u8], BenchmarkedPallet); 16] = [
        (b"pallet-balances", BenchmarkedPallet::Balances),
        (b"balances", BenchmarkedPallet::Balances),
        (b"pallet-im-online", BenchmarkedPallet::ImOnline),
        (b"im-online", BenchmarkedPallet::ImOnline),
        (b"pallet-identity", BenchmarkedPallet::Identity),
        (b"identity", BenchmarkedPallet::Identity),
        (b"pallet-session", BenchmarkedPallet::Session),
        (b"session", BenchmarkedPallet::Session),
        (b"pallet-staking", BenchmarkedPallet::Staking),
        (b"staking", BenchmarkedPallet::Staking),
        (b"pallet-timestamp", BenchmarkedPallet::Timestamp),
        (b"timestamp", BenchmarkedPallet::Timestamp),
        (b"pallet-treasury", BenchmarkedPallet::Treasury),
        (b"treasury", BenchmarkedPallet::Treasury),
        (b"pallet-vesting", BenchmarkedPallet::Vesting),
        (b"vesting", BenchmarkedPallet::Vesting),
    ];
    for (name, pallet) in cases {
        assert_eq!(benchmark_target(name), Ok(pallet));
    }
}

#[test]
fn benchmark_of_unknown_pallet_fails() {
    let expected = Err("Benchmark not found for this pallet.".to_string());
    assert_eq!(benchmark_target(b"pallet-sudo"), expected);
    assert_eq!(benchmark_target(b""), expected);
    assert_eq!(benchmark_target(b"Balances"), expected);
    assert_eq!(benchmark_target(b"pallet-balances "), expected);
    assert_eq!(benchmark_target(b"balance"), expected);
}

#[test]
fn contract_call_that_ran() {
    let value = ExecReturnValue { status: 3, data: vec![1, 2, 3] };
    assert_eq!(
        Runtime::contract_call_result::<()>(Ok(value)),
        ContractExecResult::Success { status: 3, data: vec![1, 2, 3] }
    );
}

#[test]
fn contract_call_that_failed() {
    assert_eq!(
        Runtime::contract_call_result::<&str>(Err("out of gas")),
        ContractExecResult::Error
    );
}
