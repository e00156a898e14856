use akropolis_runtime::fees::{ration, ration_merge_into, DealWithFees, FEE_SHARE_AUTHOR, FEE_SHARE_TREASURY};

#[test]
fn ration_divides_eighty_twenty() {
    assert_eq!(ration(100, 80, 20), (80, 20));
    assert_eq!(ration(101, 80, 20), (80, 21));
    assert_eq!(ration(7, 80, 20), (5, 2));
    assert_eq!(ration(0, 80, 20), (0, 0));
}

#[test]
fn ration_of_the_largest_balance_is_exact() {
    let max = u128::MAX;
    let treasury = max / 100 * 80 + max % 100 * 80 / 100;
    assert_eq!(treasury, 272225893536750770770699685945414569164);
    assert_eq!(ration(max, 80, 20), (treasury, max - treasury));
    assert_eq!(ration(10, u32::MAX, 1), (10, 0));
    assert_eq!(ration(max, u32::MAX, u32::MAX), (max, 0));
}

#[test]
fn largest_fee_goes_eighty_twenty() {
    let max = u128::MAX;
    let treasury = max / 100 * 80 + max % 100 * 80 / 100;
    assert_eq!(DealWithFees::on_unbalanceds(&[max]), Some((treasury, max - treasury)));
}

#[test]
fn largest_fee_and_tip_saturate_when_merged() {
    let max = u128::MAX;
    let treasury = max / 100 * 80 + max % 100 * 80 / 100;
    assert_eq!(DealWithFees::on_unbalanceds(&[max, max]), Some((max, 2 * (max - treasury))));
    assert_eq!(DealWithFees::on_unbalanceds(&[max, 100]), Some((treasury + 80, max - treasury + 20)));
}

#[test]
fn ration_with_no_shares_gives_nothing() {
    assert_eq!(ration(1000, 0, 0), (0, 0));
}

#[test]
fn ration_merge_into_adds_parts() {
    let mut others = (5u128, 7u128);
    ration_merge_into(100, 80, 20, &mut others);
    assert_eq!(others, (85, 27));
}

#[test]
fn ration_merge_into_saturates() {
    let mut others = (u128::MAX, 0u128);
    ration_merge_into(100, 80, 20, &mut others);
    assert_eq!(others, (u128::MAX, 20));
}

#[test]
fn no_fees_moves_nothing() {
    assert_eq!(DealWithFees::on_unbalanceds(&[]), None);
}

#[test]
fn fees_alone_go_eighty_twenty() {
    assert_eq!(DealWithFees::on_unbalanceds(&[1000]), Some((800, 200)));
    assert_eq!(DealWithFees::on_unbalanceds(&[7]), Some((5, 2)));
}

#[test]
fn fees_and_tips_go_eighty_twenty() {
    assert_eq!(DealWithFees::on_unbalanceds(&[1000, 50]), Some((840, 210)));
    assert_eq!(DealWithFees::on_unbalanceds(&[9, 9]), Some((14, 4)));
}

#[test]
fn imbalances_after_the_tips_are_not_taken() {
    assert_eq!(DealWithFees::on_unbalanceds(&[1000, 50, 99]), Some((840, 210)));
}

#[test]
fn fee_distribution_conserves_the_total() {
    let (treasury, author) = DealWithFees::on_unbalanceds(&[123_456_789, 98_765]).unwrap();
    assert_eq!(treasury + author, 123_456_789 + 98_765);
    assert_eq!(treasury, 123_456_789 * 80 / 100 + 98_765 * 80 / 100);
}

#[test]
fn shares_are_eighty_and_twenty() {
    assert_eq!(FEE_SHARE_TREASURY, 80);
    assert_eq!(FEE_SHARE_AUTHOR, 20);
}
