use vestor::gate::{should_override_unlock, ChainlinkValue};

#[test]
fn new_packs_the_observation() {
    let v = ChainlinkValue::new(123_456_789, 8);
    assert_eq!(v.value, 123_456_789);
    assert_eq!(v.decimals, 8);
}

#[test]
fn gate_opens_only_on_even_second_zero_claims_and_market_cross() {
    let high = ChainlinkValue::new(200, 8);
    let low = ChainlinkValue::new(100, 8);
    assert!(should_override_unlock(1000, 0, &high, &low));
    // Odd second.
    assert!(!should_override_unlock(1001, 0, &high, &low));
    // Something already claimed.
    assert!(!should_override_unlock(1000, 1, &high, &low));
    // No market cross.
    assert!(!should_override_unlock(1000, 0, &low, &high));
    // Equal values are no cross.
    assert!(!should_override_unlock(1000, 0, &high, &high));
}

#[test]
fn scaled_text_places_the_point() {
    assert_eq!(ChainlinkValue::new(123_456_789, 8).scaled_text(), b"1.23456789".to_vec());
    assert_eq!(ChainlinkValue::new(123_456_789, 0).scaled_text(), b"123456789.".to_vec());
    assert_eq!(ChainlinkValue::new(-123_45, 2).scaled_text(), b"-123.45".to_vec());
}

#[test]
fn scaled_text_pads_small_values() {
    assert_eq!(ChainlinkValue::new(5, 2).scaled_text(), b"0.05".to_vec());
    assert_eq!(ChainlinkValue::new(5, 1).scaled_text(), b"0.5".to_vec());
    assert_eq!(ChainlinkValue::new(0, 3).scaled_text(), b"0.000".to_vec());
    // The scale counts characters, sign included: a short negative value
    // pads around its sign exactly as the raw text renders.
    assert_eq!(ChainlinkValue::new(-5, 2).scaled_text(), b"0.-5".to_vec());
}

#[test]
fn scaled_text_survives_the_extremes() {
    let expected = format!("{}.", i128::MIN).into_bytes();
    assert_eq!(ChainlinkValue::new(i128::MIN, 0).scaled_text(), expected);
    let expected_max = format!("{}.", i128::MAX).into_bytes();
    assert_eq!(ChainlinkValue::new(i128::MAX, 0).scaled_text(), expected_max);
}

#[test]
fn gate_compares_raw_values_without_scaling() {
    // 5 at two decimals (0.05) still exceeds 4 at zero decimals (4) for
    // the unlock rule: the raw integers are compared as stored.
    let a = ChainlinkValue::new(5, 2);
    let b = ChainlinkValue::new(4, 0);
    assert!(should_override_unlock(0, 0, &a, &b));
}
