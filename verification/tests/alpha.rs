use plot_app::alpha::{clamp_unit, INFINITY, ONE, SIGN_BIT, THREE_QUARTERS, ZERO};

fn clamp(value: f32) -> f32 {
    f32::from_bits(clamp_unit(value.to_bits()))
}

#[test]
fn constants_are_the_patterns_of_their_numbers() {
    assert_eq!(ZERO, 0.0f32.to_bits());
    assert_eq!(ONE, 1.0f32.to_bits());
    assert_eq!(THREE_QUARTERS, 0.75f32.to_bits());
    assert_eq!(SIGN_BIT, (-0.0f32).to_bits());
    assert_eq!(INFINITY, f32::INFINITY.to_bits());
}

#[test]
fn clamp_keeps_numbers_of_the_unit_interval() {
    for value in [0.0f32, 0.02, 0.25, 0.5, 0.75, 0.999_999_9, 1.0, f32::MIN_POSITIVE, 1.0e-45] {
        assert_eq!(clamp_unit(value.to_bits()), value.to_bits());
    }
}

#[test]
fn clamp_raises_negative_numbers_to_zero() {
    for value in [-1.0e-45f32, -0.02, -1.0, -2.5, f32::MIN, f32::NEG_INFINITY] {
        assert_eq!(clamp_unit(value.to_bits()), 0.0f32.to_bits());
    }
}

#[test]
fn clamp_lowers_large_numbers_to_one() {
    for value in [1.000_000_1f32, 1.02, 2.0, 1.0e9, f32::MAX, f32::INFINITY] {
        assert_eq!(clamp_unit(value.to_bits()), 1.0f32.to_bits());
    }
}

#[test]
fn clamp_at_the_edges_of_the_interval() {
    assert_eq!(clamp_unit(0x3F7F_FFFF), 0x3F7F_FFFF);
    assert_eq!(clamp_unit(0x3F80_0000), 0x3F80_0000);
    assert_eq!(clamp_unit(0x3F80_0001), 0x3F80_0000);
    assert_eq!(clamp_unit(0x0000_0001), 0x0000_0001);
    assert_eq!(clamp_unit(0x8000_0001), 0);
}

#[test]
fn clamp_turns_negative_zero_into_positive_zero() {
    let clamped = clamp(-0.0);
    assert_eq!(clamped, 0.0);
    assert!(clamped.is_sign_positive());
}

#[test]
fn clamp_sends_what_is_no_number_to_the_end_on_the_side_of_its_sign() {
    assert!(f32::from_bits(0x7FC0_0000).is_nan());
    assert!(f32::from_bits(0xFFC0_0000).is_nan());
    assert_eq!(clamp_unit(0x7FC0_0000), ONE);
    assert_eq!(clamp_unit(0x7F80_0001), ONE);
    assert_eq!(clamp_unit(0x7FFF_FFFF), ONE);
    assert_eq!(clamp_unit(0xFFC0_0000), ZERO);
    assert_eq!(clamp_unit(0xFF80_0001), ZERO);
    assert_eq!(clamp_unit(0xFFFF_FFFF), ZERO);
}

#[test]
fn clamp_agrees_with_the_numbers_over_a_sweep_of_patterns() {
    let mut bits: u32 = 0;
    loop {
        let value = f32::from_bits(bits);
        let clamped = clamp(value);
        assert!((0.0..=1.0).contains(&clamped), "{bits:#x}");
        assert!(clamped.is_sign_positive(), "{bits:#x}");
        if value < 0.0 {
            assert_eq!(clamped.to_bits(), 0.0f32.to_bits(), "{bits:#x}");
        } else if value > 1.0 {
            assert_eq!(clamped.to_bits(), 1.0f32.to_bits(), "{bits:#x}");
        } else if !value.is_nan() {
            assert_eq!(clamped, value, "{bits:#x}");
        }
        if value.is_sign_positive() && value <= 1.0 {
            assert_eq!(clamped.to_bits(), bits, "{bits:#x}");
        }
        match bits.checked_add(40_503) {
            Some(next) => bits = next,
            None => break,
        }
    }
}

#[test]
fn clamp_agrees_with_the_total_order_of_the_numbers() {
    let mut bits: u32 = 0;
    loop {
        let value = f32::from_bits(bits);
        let expected = if value.total_cmp(&0.0) != std::cmp::Ordering::Greater {
            0.0f32
        } else if value.total_cmp(&1.0) != std::cmp::Ordering::Less {
            1.0f32
        } else {
            value
        };
        assert_eq!(clamp_unit(bits), expected.to_bits(), "{bits:#x}");
        match bits.checked_add(65_521) {
            Some(next) => bits = next,
            None => break,
        }
    }
}

#[test]
fn clamp_is_idempotent() {
    for bits in [0u32, 1, 0x3F00_0000, 0x3F80_0000, 0x4000_0000, 0x8000_0000, 0xBF80_0000, 0x7FC0_0000] {
        let once = clamp_unit(bits);
        assert_eq!(clamp_unit(once), once);
    }
}
