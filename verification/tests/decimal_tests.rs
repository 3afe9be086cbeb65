use char_stat::{vec_to_csv_string, Decimal, RoundingFnEnum, RoundingHelper};

fn num(x: f64) -> Decimal {
    Decimal::from_units((x * 1e9).round() as i128)
}

#[test]
fn exact_arithmetic() {
    assert_eq!(num(1.25).plus(num(2.5)), num(3.75));
    assert_eq!(num(1.0).minus(num(2.5)), num(-1.5));
    assert_eq!(num(0.1).times(num(0.2)), num(0.02));
    assert_eq!(num(12.0).times(num(0.1)), num(1.2));
    assert_eq!(num(5.0).divided_by(num(2.0)), num(2.5));
    // division truncates at the ninth decimal place
    assert_eq!(num(1.0).divided_by(num(3.0)), Decimal::from_units(333333333));
}

#[test]
fn rounding_functions() {
    assert_eq!(num(2.5).round(), num(3.0));
    assert_eq!(num(-2.5).round(), num(-3.0));
    assert_eq!(num(2.5).round_ties_even(), num(2.0));
    assert_eq!(num(3.5).round_ties_even(), num(4.0));
    assert_eq!(num(1.8).floor(), num(1.0));
    assert_eq!(num(-1.2).floor(), num(-2.0));
    assert_eq!(num(1.2).ceil(), num(2.0));
    assert_eq!(num(-1.2).ceil(), num(-1.0));
    assert_eq!(num(1.9).trunc(), num(1.0));
    assert_eq!(num(-1.9).trunc(), num(-1.0));
}

#[test]
fn rounding_with_precision() {
    let helper = RoundingHelper::new(RoundingFnEnum::Round, Some(num(0.1)));
    assert_eq!(helper.do_rounding(num(1.14)), num(1.1));
    assert_eq!(helper.do_rounding(num(1.15)), num(1.2));

    let floor = RoundingHelper::new(RoundingFnEnum::Floor, Some(num(0.5)));
    assert_eq!(floor.do_rounding(num(1.9)), num(1.5));

    let passthrough = RoundingHelper::new_none();
    assert_eq!(passthrough.do_rounding(num(1.2345)), num(1.2345));
}

#[test]
fn special_values() {
    assert_eq!(num(1.0).divided_by(num(0.0)), Decimal::Inf);
    assert_eq!(num(-1.0).divided_by(num(0.0)), Decimal::NegInf);
    assert_eq!(num(0.0).divided_by(num(0.0)), Decimal::Nan);
    assert_eq!(Decimal::Nan.plus(num(1.0)), Decimal::Nan);
    assert_eq!(Decimal::Inf.plus(Decimal::NegInf), Decimal::Nan);
    assert_eq!(Decimal::Inf.times(num(0.0)), Decimal::Nan);
    assert_eq!(num(3.0).times(Decimal::NegInf), Decimal::NegInf);
    assert!(Decimal::Nan.is_nan());
    assert!(!num(1.0).is_nan());
    // comparisons against the undefined value are false either way
    assert!(!Decimal::Nan.lt(num(1.0)));
    assert!(!num(1.0).le(Decimal::Nan));
    // out-of-range magnitudes saturate
    assert_eq!(Decimal::from_units(i128::MAX), Decimal::Inf);
    assert_eq!(Decimal::from_units(i128::MIN + 1), Decimal::NegInf);
}

#[test]
fn exponentiation() {
    assert_eq!(num(2.0).powf(num(10.0)), num(1024.0));
    assert_eq!(num(2.0).powf(num(0.0)), num(1.0));
    assert_eq!(num(2.0).powf(num(-1.0)), num(0.5));
    assert_eq!(num(1.1).powf(num(2.0)), num(1.21));
    // a fractional exponent is outside the quantized model
    assert_eq!(num(2.0).powf(num(0.5)), Decimal::Nan);
}

#[test]
fn clamping() {
    assert_eq!(num(15.0).clamp_to(num(0.0), num(10.0)), num(10.0));
    assert_eq!(num(-1.0).clamp_to(num(0.0), num(10.0)), num(0.0));
    assert_eq!(num(5.0).clamp_to(num(0.0), num(10.0)), num(5.0));
}

#[test]
fn csv_join() {
    assert_eq!(vec_to_csv_string(&Vec::new()), String::new());
    assert_eq!(vec_to_csv_string(&vec!["Add".to_string()]), "Add".to_string());
    assert_eq!(
        vec_to_csv_string(&vec!["Add".to_string(), "Sub".to_string()]),
        "Add, Sub".to_string()
    );
}
