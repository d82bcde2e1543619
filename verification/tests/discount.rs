use catalog_core::discount::get_price_acc_values;

#[test]
fn discount_at_the_band_edges() {
    assert_eq!(get_price_acc_values(&1_000_000), None);
    assert_eq!(get_price_acc_values(&1_000_001), Some(50_000));
    assert_eq!(get_price_acc_values(&2_000_000), None);
    assert_eq!(get_price_acc_values(&2_000_001), Some(140_000));
    assert_eq!(get_price_acc_values(&3_000_000), None);
    assert_eq!(get_price_acc_values(&3_000_001), Some(300_000));
    assert_eq!(get_price_acc_values(&500_000), None);
}
