use char_stat::{BaseConf, Bounds, CharStatError, CsInvalidValue, Decimal, RoundingFnEnum,
    RoundingHelper};

fn num(x: f64) -> Decimal {
    Decimal::from_units((x * 1e9).round() as i128)
}

#[test]
fn base_basic_functional() {
    let rounding_helper = RoundingHelper::new(RoundingFnEnum::NoRound, None);

    let bounds = Bounds::new_const(num(0.0), num(10.0)).unwrap();
    let base = BaseConf::new(num(15.0), true, bounds, rounding_helper.clone(), None);

    let expected: CharStatError = CsInvalidValue::AboveMaximum("value".to_string()).into();
    assert_eq!(base, Err(expected));

    let bounds = Bounds::new_const(num(0.0), num(10.0)).unwrap();
    let base = BaseConf::new_clamping(num(15.0), true, bounds, rounding_helper, None);
    assert!(base.is_ok());

    let mut base = base.unwrap();
    assert_eq!(base.value(), num(10.0));

    assert_eq!(base.set_value(num(5.0)), Ok(()));
    assert_eq!(base.value(), num(5.0));
}

#[test]
fn base_nan_handling() {
    let expected: CharStatError = CsInvalidValue::Nan("value".to_string()).into();
    let bounds = Bounds::new_const(num(0.0), num(1.0)).unwrap();

    let base = BaseConf::new(Decimal::Nan, true, bounds.clone(), RoundingHelper::default(), None);
    assert_eq!(base, Err(expected.clone()));
    let base = BaseConf::new_clamping(
        Decimal::Nan,
        true,
        bounds.clone(),
        RoundingHelper::default(),
        None,
    );
    assert_eq!(base, Err(expected));
}
