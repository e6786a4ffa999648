use sitira::config::FIXED_ONE;
use sitira::fixed::{clamp_fixed, div_by_count, scale_fixed};
use sitira::sdram::{fits, sized, SDRAM_SIZE};

#[test]
fn clamping_saturates_into_the_unit_range() {
    assert_eq!(clamp_fixed(-5), 0);
    assert_eq!(clamp_fixed(0), 0);
    assert_eq!(clamp_fixed(4_321), 4_321);
    assert_eq!(clamp_fixed(FIXED_ONE), FIXED_ONE);
    assert_eq!(clamp_fixed(FIXED_ONE + 1), FIXED_ONE);
}

#[test]
fn scaling_truncates_toward_zero() {
    assert_eq!(scale_fixed(10_000, 5_000), 5_000);
    assert_eq!(scale_fixed(-10_000, 5_000), -5_000);
    assert_eq!(scale_fixed(3, 5_000), 1);
    assert_eq!(scale_fixed(-3, 5_000), -1);
    assert_eq!(scale_fixed(12_345, 0), 0);
    assert_eq!(scale_fixed(12_345, FIXED_ONE), 12_345);
}

#[test]
fn mix_division_truncates_toward_zero() {
    assert_eq!(div_by_count(7, 2), 3);
    assert_eq!(div_by_count(-7, 2), -3);
    assert_eq!(div_by_count(0, 64), 0);
    assert_eq!(div_by_count(640_000, 64), 10_000);
}

#[test]
fn sized_measures_elements_in_bytes() {
    assert_eq!(sized::<f32>(4), 16);
    assert_eq!(sized::<u8>(100), 100);
    assert_eq!(sized::<f32>(0), 0);
}

#[test]
fn fits_accepts_only_slices_inside_the_region() {
    assert!(fits::<f32>(0, 100));
    assert!(fits::<f32>(1_000, 1_000));
    // SDRAM_SIZE f32 elements are four times the region's bytes.
    assert!(!fits::<f32>(0, SDRAM_SIZE));
    assert!(!fits::<f32>(SDRAM_SIZE, 1));
    assert!(!fits::<u8>(0, SDRAM_SIZE));
    assert!(fits::<u8>(0, SDRAM_SIZE - 1));
    assert!(!fits::<f32>(usize::MAX, usize::MAX));
}
