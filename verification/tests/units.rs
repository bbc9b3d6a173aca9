use nivalis::units::{clip_to_i32, pixels_i32, ScaleFactor, UNITS_PER_PIXEL};

#[test]
fn scale_factor_of_zero_is_refused() {
    assert!(ScaleFactor::new(0).is_none());
}

#[test]
fn scale_factor_keeps_its_thousandths() {
    assert_eq!(ScaleFactor::new(1250).unwrap().per_mille(), 1250);
    assert_eq!(ScaleFactor::identity().per_mille(), 1000);
    assert_eq!(UNITS_PER_PIXEL, 1000);
}

#[test]
fn logical_length_divides_by_the_scale() {
    let two = ScaleFactor::new(2000).unwrap();
    assert_eq!(two.to_logical(800), 400_000);
    let one_and_a_half = ScaleFactor::new(1500).unwrap();
    assert_eq!(one_and_a_half.to_logical(1920), 1_280_000);
    assert_eq!(ScaleFactor::identity().to_logical(0), 0);
}

#[test]
fn logical_length_rounds_down() {
    let three = ScaleFactor::new(3000).unwrap();
    assert_eq!(three.to_logical(100), 33_333);
    let tiny = ScaleFactor::new(1).unwrap();
    assert_eq!(tiny.to_logical(u32::MAX), 4_294_967_295_000_000);
}

#[test]
fn physical_length_multiplies_by_the_scale() {
    let two = ScaleFactor::new(2000).unwrap();
    assert_eq!(two.to_physical(10_000), 20_000);
    let quarter = ScaleFactor::new(1250).unwrap();
    assert_eq!(quarter.to_physical(13_000), 16_250);
    assert_eq!(quarter.to_physical(3), 3);
    assert_eq!(ScaleFactor::identity().to_physical(0), 0);
}

#[test]
fn physical_length_is_cut_to_the_largest_length() {
    let two = ScaleFactor::new(2000).unwrap();
    assert_eq!(two.to_physical(u64::MAX as u128), u64::MAX);
    assert_eq!(two.to_physical(u128::MAX), u64::MAX);
    let most = ScaleFactor::new(u32::MAX).unwrap();
    assert_eq!(most.to_physical(u128::MAX / 2), u64::MAX);
    assert_eq!(ScaleFactor::identity().to_physical(u64::MAX as u128), u64::MAX);
    assert_eq!(
        ScaleFactor::identity().to_physical(u64::MAX as u128 - 1),
        u64::MAX - 1
    );
}

#[test]
fn pixel_counts_are_cut_to_i32() {
    assert_eq!(clip_to_i32(0), 0);
    assert_eq!(clip_to_i32(-10), -10);
    assert_eq!(clip_to_i32(i32::MAX as i64), i32::MAX);
    assert_eq!(clip_to_i32(i32::MAX as i64 + 1), i32::MAX);
    assert_eq!(clip_to_i32(i32::MIN as i64 - 1), i32::MIN);
    assert_eq!(clip_to_i32(i64::MAX), i32::MAX);
}

#[test]
fn whole_pixels_round_down() {
    assert_eq!(pixels_i32(0), 0);
    assert_eq!(pixels_i32(999), 0);
    assert_eq!(pixels_i32(1000), 1);
    assert_eq!(pixels_i32(99_999), 99);
    assert_eq!(pixels_i32(u64::MAX), i32::MAX);
}
