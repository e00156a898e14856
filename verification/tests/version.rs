use akropolis_runtime::parameters::{available_block_ratio, target_block_fullness};
use akropolis_runtime::transaction::Runtime;
use akropolis_runtime::version::native_version;

#[test]
fn runtime_version_names_and_numbers() {
    let apis = vec![([1u8, 2, 3, 4, 5, 6, 7, 8], 3u32), ([9u8; 8], 1u32)];
    let v = Runtime::version(apis.clone());
    assert_eq!(v.spec_name, "akropolisos-node");
    assert_eq!(v.impl_name, "akropolisos-node");
    assert_eq!(v.authoring_version, 2);
    assert_eq!(v.spec_version, 2);
    assert_eq!(v.impl_version, 2);
    assert_eq!(v.apis, apis);
}

#[test]
fn native_version_is_the_runtime_version() {
    let apis = vec![([0xdfu8, 0x6a, 0xcb, 0x16, 0x99, 0x07, 0x60, 0x9b], 2u32)];
    let v = native_version(apis.clone());
    assert_eq!(v.runtime_version.spec_name, "akropolisos-node");
    assert_eq!(v.runtime_version.spec_version, 2);
    assert_eq!(v.runtime_version.apis, apis);
    assert!(v.can_author_with.is_empty());
}

#[test]
fn block_ratios_in_parts_per_billion() {
    assert_eq!(available_block_ratio(), 750_000_000);
    assert_eq!(target_block_fullness(), 250_000_000);
}

#[test]
fn target_block_fullness_below_available_block_ratio() {
    assert!(target_block_fullness() < available_block_ratio());
}
