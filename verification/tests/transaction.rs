use akropolis_runtime::era::Era;
use akropolis_runtime::transaction::{current_block, mortality_period, Runtime, SignedExtra, BLOCK_HASH_COUNT};

#[test]
fn runtime_mortality_period_is_128() {
    assert_eq!(mortality_period(BLOCK_HASH_COUNT), 128);
}

#[test]
fn mortality_period_edges() {
    assert_eq!(mortality_period(0), 0);
    assert_eq!(mortality_period(1), 0);
    assert_eq!(mortality_period(2), 1);
    assert_eq!(mortality_period(256), 128);
    assert_eq!(mortality_period(257), 256);
    assert_eq!(mortality_period(u32::MAX), 2);
}

#[test]
fn current_block_is_the_previous_one() {
    assert_eq!(current_block(0), 0);
    assert_eq!(current_block(1), 0);
    assert_eq!(current_block(100), 99);
    assert_eq!(current_block(u32::MAX), u32::MAX as u64 - 1);
}

#[test]
fn signed_extra_of_a_created_transaction() {
    let extra = Runtime::signed_extra(1001, 7);
    assert_eq!(extra, SignedExtra { era: Era::Mortal(128, 104), nonce: 7, tip: 0 });
}

#[test]
fn signed_extra_at_genesis() {
    let extra = Runtime::signed_extra(0, 0);
    assert_eq!(extra, SignedExtra { era: Era::Mortal(128, 0), nonce: 0, tip: 0 });
}

#[test]
fn create_transaction_signs_the_payload_of_call_and_extra() {
    let created = Runtime::create_transaction(
        "call",
        42u32,
        1001,
        7,
        |call: &&str, extra: SignedExtra| Some((call.to_string(), extra)),
        |payload: (String, SignedExtra)| Some(format!("signed {} nonce {}", payload.0, payload.1.nonce)),
    );
    assert_eq!(
        created,
        Some((
            "call",
            (
                42u32,
                "signed call nonce 7".to_string(),
                SignedExtra { era: Era::Mortal(128, 104), nonce: 7, tip: 0 }
            )
        ))
    );
}

#[test]
fn create_transaction_without_a_payload() {
    let mut signed = false;
    let created = Runtime::create_transaction(
        "call",
        42u32,
        1001,
        7,
        |_: &&str, _: SignedExtra| None::<u8>,
        |_: u8| {
            signed = true;
            Some([1u8; 4])
        },
    );
    assert_eq!(created, None);
    assert!(!signed);
}

#[test]
fn create_transaction_refused_by_the_signer() {
    let created = Runtime::create_transaction(
        "call",
        42u32,
        1001,
        7,
        |_: &&str, extra: SignedExtra| Some(extra),
        |_: SignedExtra| None::<[u8; 4]>,
    );
    assert_eq!(created, None);
}

#[test]
fn created_transaction_is_alive_now() {
    for block_number in [0u32, 1, 2, 129, 1001, 1_000_000, u32::MAX] {
        let extra = Runtime::signed_extra(block_number, 0);
        let current = current_block(block_number);
        assert!(extra.era.birth(current) <= current);
        assert!(current < extra.era.death(current));
        assert!(extra.era.death(current) - extra.era.birth(current) <= BLOCK_HASH_COUNT as u64);
    }
}
