use usfx_tester::label::{fixed1_string, padded4_string, u64_to_string};

#[test]
fn whole_numbers_render_in_decimal() {
    assert_eq!(u64_to_string(0), "0");
    assert_eq!(u64_to_string(7), "7");
    assert_eq!(u64_to_string(10), "10");
    assert_eq!(u64_to_string(9_876_543_210), "9876543210");
}

#[test]
fn magnitudes_render_with_one_decimal_rounding_half_up() {
    assert_eq!(fixed1_string(0), "0.0");
    assert_eq!(fixed1_string(55), "0.1");
    assert_eq!(fixed1_string(949), "0.9");
    assert_eq!(fixed1_string(950), "1.0");
    assert_eq!(fixed1_string(1000), "1.0");
    assert_eq!(fixed1_string(123_456), "123.5");
}

#[test]
fn frequencies_are_right_aligned_in_a_field_of_four() {
    assert_eq!(padded4_string(0), "   0");
    assert_eq!(padded4_string(9), "   9");
    assert_eq!(padded4_string(10), "  10");
    assert_eq!(padded4_string(999), " 999");
    assert_eq!(padded4_string(1000), "1000");
    assert_eq!(padded4_string(12345), "12345");
}
