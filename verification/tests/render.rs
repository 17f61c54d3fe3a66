use linalg::render::finish;
use linalg::render::notation;
use linalg::render::pad_to;
use linalg::render::strip_negative_zero;
use linalg::render::trim_fraction;
use linalg::render::Notation;

#[test]
fn what_fits_is_written_as_it_is() {
    assert_eq!(notation(1, false, None, 4), Notation::Plain);
    assert_eq!(notation(8, false, Some(5), 8), Notation::Plain);
    assert_eq!(notation(4, true, Some(1), 4), Notation::Plain);
    // a width of zero counts as one
    assert_eq!(notation(1, false, Some(0), 0), Notation::Plain);
}

#[test]
fn zero_is_never_written_with_a_power_of_ten() {
    assert_eq!(notation(2, true, None, 1), Notation::Rounded);
    assert_eq!(notation(3, false, None, 2), Notation::Rounded);
    assert_eq!(notation(4, true, None, 0), Notation::Rounded);
}

#[test]
fn digits_behind_the_point_fill_the_width() {
    // 123456.789 in eight characters: six whole digits, the point, one digit
    assert_eq!(notation(10, false, Some(5), 8), Notation::Fixed(1));
    // 1234.5678 in six
    assert_eq!(notation(9, false, Some(3), 6), Notation::Fixed(1));
    // -1234.5678 in nine: sign, four digits, the point, three digits
    assert_eq!(notation(10, true, Some(3), 9), Notation::Fixed(3));
    // 0.123456789 in six
    assert_eq!(notation(11, false, Some(-1), 6), Notation::Fixed(4));
    // 2.000001 in two: no room behind the point
    assert_eq!(notation(8, false, Some(0), 2), Notation::Rounded);
}

#[test]
fn a_small_number_whose_digits_would_not_show_gets_a_power_of_ten() {
    // -0.00001 in six: three digits behind the point would all be zero
    assert_eq!(notation(8, true, Some(-5), 6), Notation::Scientific(0));
    // in seven there is room for one digit of the mantissa
    assert_eq!(notation(8, true, Some(-5), 7), Notation::Scientific(1));
    // 0.001234 in six: four digits behind the point show the first of them
    assert_eq!(notation(8, false, Some(-3), 6), Notation::Fixed(4));
    // 0.0001234 in six: the fourth digit is the first that counts
    assert_eq!(notation(9, false, Some(-4), 6), Notation::Fixed(4));
    // 0.00001234 in six: four digits do not reach it
    assert_eq!(notation(10, false, Some(-5), 6), Notation::Scientific(1));
}

#[test]
fn a_large_number_gets_a_power_of_ten() {
    // 123456789 in six: the whole digits do not fit
    assert_eq!(notation(9, false, Some(8), 6), Notation::Scientific(2));
    assert_eq!(notation(10, true, Some(8), 7), Notation::Scientific(2));
    assert_eq!(notation(10, true, Some(8), 6), Notation::Scientific(1));
    // two and three digits of the power, and its sign
    assert_eq!(notation(30, false, Some(12), 8), Notation::Scientific(3));
    assert_eq!(notation(30, false, Some(100), 8), Notation::Scientific(2));
    assert_eq!(notation(30, false, Some(-100), 8), Notation::Scientific(1));
    assert_eq!(notation(30, true, Some(-100), 8), Notation::Scientific(0));
    // nothing is left
    assert_eq!(notation(30, true, Some(-100), 3), Notation::Scientific(0));
    assert_eq!(notation(30, false, Some(i32::MIN), 3), Notation::Scientific(0));
    assert_eq!(notation(30, false, Some(i32::MAX), 3), Notation::Scientific(0));
}

#[test]
fn the_fraction_loses_its_zeros() {
    assert_eq!(trim_fraction("1.500"), "1.5");
    assert_eq!(trim_fraction("2.000"), "2");
    assert_eq!(trim_fraction("100"), "100");
    assert_eq!(trim_fraction("100."), "100");
    assert_eq!(trim_fraction("0.0"), "0");
    assert_eq!(trim_fraction("-0.000"), "-0");
    assert_eq!(trim_fraction("10.010"), "10.01");
    assert_eq!(trim_fraction(""), "");
    assert_eq!(trim_fraction("."), "");
    assert_eq!(trim_fraction("1.0e10"), "1.0e1");
}

#[test]
fn the_sign_of_a_zero_is_taken_off() {
    assert_eq!(strip_negative_zero("-0"), "0");
    assert_eq!(strip_negative_zero("-0.5"), "-0.5");
    assert_eq!(strip_negative_zero("-1"), "-1");
    assert_eq!(strip_negative_zero("0"), "0");
    assert_eq!(strip_negative_zero("-0e0"), "0e0");
    assert_eq!(strip_negative_zero("-"), "");
    assert_eq!(strip_negative_zero(""), "");
}

#[test]
fn padding_reaches_the_width_and_never_cuts() {
    assert_eq!(pad_to("1.5", 6), "1.5   ");
    assert_eq!(pad_to("1.5", 3), "1.5");
    assert_eq!(pad_to("123456", 3), "123456");
    assert_eq!(pad_to("", 0), " ");
    assert_eq!(pad_to("", 2), "  ");
}

#[test]
fn finish_trims_only_fixed_notation() {
    assert_eq!(finish("1.500", Notation::Fixed(3), 8, false), "1.5");
    assert_eq!(finish("1.500", Notation::Plain, 8, false), "1.500");
    assert_eq!(finish("1.50e3", Notation::Scientific(2), 8, false), "1.50e3");
    assert_eq!(finish("-0.000", Notation::Fixed(3), 6, false), "0");
    assert_eq!(finish("-0", Notation::Rounded, 1, false), "0");
    assert_eq!(finish("-0.000", Notation::Fixed(3), 6, true), "0     ");
    assert_eq!(finish("12", Notation::Rounded, 0, true), "12");
}
