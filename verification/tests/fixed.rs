use grim::fixed::{Fixed, SCALE};
use grim::text::decimal_string;
use grim::Error;

fn raw(r: i64) -> Fixed {
    Fixed::from_raw(r)
}

#[test]
fn fixed_scale_is_a_billion() {
    assert_eq!(SCALE, 1_000_000_000);
    assert_eq!(Fixed::whole(3).raw(), 3_000_000_000);
    assert_eq!(Fixed::whole(-2).raw(), -2_000_000_000);
    assert_eq!(Fixed::zero().raw(), 0);
}

#[test]
fn fixed_from_float_literal() {
    let x = (1.80628279f64 * 1e9).round() as i64;
    assert_eq!(raw(x), raw(1_806_282_790));
}

#[test]
fn fixed_plus_and_minus() {
    assert_eq!(raw(5).plus(raw(7)), raw(12));
    assert_eq!(raw(5).minus(raw(7)), raw(-2));
}

#[test]
fn fixed_plus_saturates() {
    assert_eq!(raw(i64::MAX).plus(raw(1)), raw(i64::MAX));
    assert_eq!(raw(i64::MIN).plus(raw(-1)), raw(i64::MIN));
    assert_eq!(raw(i64::MIN).minus(raw(1)), raw(i64::MIN));
    assert_eq!(raw(i64::MAX).minus(raw(-1)), raw(i64::MAX));
    assert_eq!(raw(0).minus(raw(i64::MIN)), raw(i64::MAX));
}

#[test]
fn fixed_times_exact() {
    assert_eq!(Fixed::whole(2).times(raw(800_000_000)), raw(1_600_000_000));
    assert_eq!(Fixed::whole(-3).times(Fixed::whole(4)), Fixed::whole(-12));
}

#[test]
fn fixed_times_rounds_toward_zero() {
    assert_eq!(raw(3).times(raw(500_000_000)), raw(1));
    assert_eq!(raw(-3).times(raw(500_000_000)), raw(-1));
    assert_eq!(raw(1).times(raw(500_000_000)), raw(0));
    assert_eq!(raw(-1).times(raw(500_000_000)), raw(0));
}

#[test]
fn fixed_times_saturates() {
    assert_eq!(raw(1 << 62).times(Fixed::whole(4)), raw(i64::MAX));
    assert_eq!(raw(-(1 << 62)).times(Fixed::whole(4)), raw(i64::MIN));
    assert_eq!(raw(i64::MIN).times(raw(i64::MIN)), raw(i64::MAX));
}

#[test]
fn fixed_over_rounds_toward_zero() {
    assert_eq!(Fixed::whole(1).over(Fixed::whole(3)), raw(333_333_333));
    assert_eq!(Fixed::whole(-1).over(Fixed::whole(3)), raw(-333_333_333));
    assert_eq!(Fixed::whole(1).over(Fixed::whole(-3)), raw(-333_333_333));
    assert_eq!(Fixed::whole(-1).over(Fixed::whole(-3)), raw(333_333_333));
    assert_eq!(Fixed::whole(6).over(Fixed::whole(3)), Fixed::whole(2));
}

#[test]
fn fixed_over_zero_saturates() {
    assert_eq!(Fixed::whole(1).over(Fixed::zero()), raw(i64::MAX));
    assert_eq!(Fixed::whole(-1).over(Fixed::zero()), raw(i64::MIN));
    assert_eq!(Fixed::zero().over(Fixed::zero()), Fixed::zero());
}

#[test]
fn fixed_over_saturates() {
    assert_eq!(raw(i64::MAX).over(raw(1)), raw(i64::MAX));
    assert_eq!(raw(i64::MIN).over(raw(1)), raw(i64::MIN));
    assert_eq!(raw(i64::MIN).over(raw(-1)), raw(i64::MAX));
}

#[test]
fn fixed_shared_by_count() {
    assert_eq!(Fixed::whole(6).shared(3), Fixed::whole(2));
    assert_eq!(raw(3).shared(2), raw(1));
    assert_eq!(raw(-3).shared(2), raw(-1));
    assert_eq!(raw(5).shared(0), raw(i64::MAX));
    assert_eq!(raw(-5).shared(0), raw(i64::MIN));
    assert_eq!(raw(0).shared(0), raw(0));
    assert_eq!(raw(i64::MIN).shared(1), raw(i64::MIN));
}

#[test]
fn fixed_zero_is_neutral_and_absorbing() {
    for c in [i64::MIN, -959_106_470, 0, 1, 1_806_282_790, i64::MAX] {
        assert_eq!(raw(c).times(Fixed::zero()), Fixed::zero());
        assert_eq!(Fixed::zero().times(raw(c)), Fixed::zero());
        assert_eq!(raw(c).plus(Fixed::zero()), raw(c));
    }
}

#[test]
fn decimal_text() {
    assert_eq!(decimal_string(0), "0");
    assert_eq!(decimal_string(7), "7");
    assert_eq!(decimal_string(10), "10");
    assert_eq!(decimal_string(12345), "12345");
    assert_eq!(decimal_string(usize::MAX), format!("{}", usize::MAX));
}

#[test]
fn error_messages() {
    assert_eq!(Error::Segment.message(), "failed to create segment actors");
    assert_eq!(Error::Mode2Force.message(), "failed to create modes 2 forces actor");
    assert_eq!(Error::OpticalModel.message(), "failed to build optical model");
    assert_eq!(Error::SensorUnavailable.message(), "sensor model gave no readout");
    assert_eq!(
        Error::InversionFailed.message(),
        "failed to compute poke matrix pseudo-inverse"
    );
    assert_eq!(
        Error::SizeMismatch { expected: 14, found: 7 }.message(),
        "size mismatch: expected 14, found 7"
    );
    assert_eq!(Error::Capacity.message(), "matrix too large");
}
