use comfort_rpg::noise::{
    NoiseSample, INFINITY_BITS, SAMPLE_STRETCH_X, SAMPLE_STRETCH_Y, SIGN_BIT, TREE_HIGH_BITS,
    TREE_LOW_BITS, WATER_HIGH_BITS, WATER_LOW_BITS,
};

fn sample(value: f32) -> NoiseSample {
    NoiseSample::from_bits(value.to_bits())
}

fn probes() -> Vec<f32> {
    let mut values = vec![
        0.0,
        -0.0,
        0.05,
        0.2,
        0.6,
        1.0,
        -1.0,
        0.5,
        0.1,
        0.199_999_99,
        0.200_000_02,
        0.049_999_997,
        0.050_000_004,
        0.599_999_96,
        0.600_000_06,
        f32::MIN_POSITIVE,
        -f32::MIN_POSITIVE,
        f32::MAX,
        f32::MIN,
        f32::INFINITY,
        f32::NEG_INFINITY,
        f32::NAN,
        -f32::NAN,
        f32::from_bits(1),
        f32::from_bits(0x8000_0001),
        f32::from_bits(0x7FC0_0001),
        f32::from_bits(0xFFFF_FFFF),
        1e-40,
        -1e-40,
    ];
    let mut state: u32 = 0x1234_5678;
    for _ in 0..400 {
        state = state.wrapping_mul(1_664_525).wrapping_add(1_013_904_223);
        values.push(f32::from_bits(state));
    }
    values
}

#[test]
fn thresholds_are_the_patterns_of_the_band_edges() {
    assert_eq!(WATER_LOW_BITS, 0.05f32.to_bits());
    assert_eq!(WATER_HIGH_BITS, 0.2f32.to_bits());
    assert_eq!(TREE_LOW_BITS, 0.2f32.to_bits());
    assert_eq!(TREE_HIGH_BITS, 0.6f32.to_bits());
    assert_eq!(INFINITY_BITS, f32::INFINITY.to_bits());
    assert_eq!(SIGN_BIT, (-0.0f32).to_bits());
    assert_eq!((SAMPLE_STRETCH_X, SAMPLE_STRETCH_Y), (160, 100));
}

#[test]
fn lt_orders_samples_as_numbers() {
    let values = probes();
    for &a in &values {
        assert_eq!(sample(a).nan(), a.is_nan(), "{a}");
        for &b in &values {
            assert_eq!(sample(a).lt(&sample(b)), a < b, "{a} < {b}");
        }
    }
}

#[test]
fn water_is_the_open_band_between_its_edges() {
    for &v in &probes() {
        assert_eq!(sample(v).is_water(), v > 0.05f32 && v < 0.2f32, "{v}");
    }
    assert!(sample(0.1).is_water());
    assert!(!sample(0.05).is_water());
    assert!(!sample(0.2).is_water());
    assert!(!sample(0.0).is_water());
    assert!(!sample(0.7).is_water());
}

#[test]
fn trees_grow_below_the_low_edge_and_above_the_high_edge() {
    for &v in &probes() {
        assert_eq!(sample(v).plants_tree(), v < 0.2f32 || v > 0.6f32, "{v}");
    }
    assert!(sample(0.1).plants_tree());
    assert!(sample(0.61).plants_tree());
    assert!(!sample(0.2).plants_tree());
    assert!(!sample(0.6).plants_tree());
    assert!(!sample(0.4).plants_tree());
    assert!(sample(-3.0).plants_tree());
    assert!(!sample(f32::NAN).plants_tree());
}

#[test]
fn normalized_samples_lie_between_zero_and_one() {
    for &v in &probes() {
        assert_eq!(sample(v).normalized(), (0.0..=1.0).contains(&v), "{v}");
    }
    assert!(sample(0.0).normalized());
    assert!(sample(-0.0).normalized());
    assert!(sample(1.0).normalized());
    assert!(!sample(1.000_000_1).normalized());
}
