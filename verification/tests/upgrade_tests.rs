use char_stat::{Bounds, CharStatError, CsInvalidValue, Decimal, RoundingHelper, UpgradeConf};

fn num(x: f64) -> Decimal {
    Decimal::from_units((x * 1e9).round() as i128)
}

#[test]
fn upgrade_basic_functional() {
    let rounding_fn = RoundingHelper::new_none();
    let bounds_upgr = Bounds::new_const(num(0.0), num(50.0)).unwrap();
    let mut upgrade = UpgradeConf::new(num(0.0), bounds_upgr, rounding_fn).unwrap();

    let expected: CharStatError = CsInvalidValue::AboveMaximum("value".to_string()).into();

    assert_eq!(upgrade.set_value(num(69.0)), Err(expected));
    assert_eq!(upgrade.value(), num(0.0));

    assert_eq!(upgrade.set_value(num(5.0)), Ok(()));
}

#[test]
fn upgrade_nan_handling() {
    let expected: CharStatError = CsInvalidValue::Nan("value".to_string()).into();
    let rounding_fn = RoundingHelper::new_none();
    let bounds = Bounds::new_const(num(0.0), num(1.0)).unwrap();

    let upgrade = UpgradeConf::new(Decimal::Nan, bounds.clone(), rounding_fn.clone());
    assert_eq!(upgrade, Err(expected.clone()));

    let upgrade = UpgradeConf::new_clamping(Decimal::Nan, bounds.clone(), rounding_fn.clone());
    assert_eq!(upgrade, Err(expected));
}
