use skorstaking::scale::asset_scale;
use skorstaking::{Config, Identity, StakeAccount};

#[test]
fn identity_equality_is_by_bytes() {
    let a = Identity::new_from_array([7u8; 32]);
    let b = Identity::new_from_array([7u8; 32]);
    let mut bytes = [7u8; 32];
    bytes[31] = 8;
    let c = Identity::new_from_array(bytes);
    assert!(a == b);
    assert!(a != c);
    assert_eq!(a.to_bytes(), [7u8; 32]);
    assert_eq!(c.to_bytes()[31], 8);
}

#[test]
fn identity_unset_is_all_zero() {
    assert!(Identity::default().is_unset());
    assert_eq!(Identity::default().to_bytes(), [0u8; 32]);
    assert!(Identity::new_from_array([0u8; 32]).is_unset());
    let mut bytes = [0u8; 32];
    bytes[17] = 1;
    assert!(!Identity::new_from_array(bytes).is_unset());
    bytes[17] = 0;
    bytes[0] = 255;
    assert!(!Identity::new_from_array(bytes).is_unset());
}

#[test]
fn asset_scale_is_power_of_ten() {
    assert_eq!(asset_scale(0), Some(1));
    assert_eq!(asset_scale(1), Some(10));
    assert_eq!(asset_scale(6), Some(1_000_000));
    assert_eq!(asset_scale(9), Some(1_000_000_000));
    assert_eq!(asset_scale(19), Some(10_000_000_000_000_000_000));
}

#[test]
fn asset_scale_out_of_range_is_none() {
    assert_eq!(asset_scale(20), None);
    assert_eq!(asset_scale(21), None);
    assert_eq!(asset_scale(255), None);
}

#[test]
fn stored_record_sizes() {
    assert_eq!(Config::LEN, 90);
    assert_eq!(StakeAccount::LEN, 74);
}
