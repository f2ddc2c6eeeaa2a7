use core::ops::Range;
use embedded_plots::range_conv::scale_between_ranges;

fn scale(value: i32, src: Range<i32>, dst: Range<i32>) -> i32 {
    scale_between_ranges(value, &src, &dst)
}

#[test]
fn source_start_maps_to_destination_start() {
    assert_eq!(scale(0, 0..10, 0..100), 0);
    assert_eq!(scale(-5, -5..5, 20..40), 20);
    assert_eq!(scale(3, 3..7, 300..100), 300);
}

#[test]
fn source_end_maps_to_destination_end() {
    assert_eq!(scale(10, 0..10, 0..100), 100);
    assert_eq!(scale(5, -5..5, 20..40), 40);
    assert_eq!(scale(7, 3..7, 300..100), 100);
}

#[test]
fn interior_values_scale_linearly() {
    assert_eq!(scale(5, 0..10, 0..100), 50);
    assert_eq!(scale(1, 0..4, 0..100), 25);
    assert_eq!(scale(3, 0..4, 0..100), 75);
}

#[test]
fn monotone_when_destination_not_reversed() {
    let mut last = scale(0, 0..20, 7..93);
    for v in 1..=20 {
        let cur = scale(v, 0..20, 7..93);
        assert!(cur >= last);
        last = cur;
    }
}

#[test]
fn reversed_destination_flips_order() {
    // A reversed destination range maps increasing data downward.
    assert_eq!(scale(0, 0..4, 250..10), 250);
    assert_eq!(scale(2, 0..4, 250..10), 130);
    assert_eq!(scale(4, 0..4, 250..10), 10);
    let mut last = scale(0, 0..4, 250..10);
    for v in 1..=4 {
        let cur = scale(v, 0..4, 250..10);
        assert!(cur <= last);
        last = cur;
    }
}

#[test]
fn division_truncates_toward_zero() {
    // 1 * (-10) / 3 is -3 with truncating division, not -4.
    assert_eq!(scale(1, 0..3, 0..-10), -3);
    // 2 * 5 / 3 is 3 with truncating division.
    assert_eq!(scale(2, 0..3, 0..5), 3);
}
