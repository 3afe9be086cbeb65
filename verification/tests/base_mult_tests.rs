use char_stat::{BaseConf, BaseMultConf, Bounds, CharStatError, CsInvalidValue, Decimal,
    RoundingFnEnum, RoundingHelper};

fn num(x: f64) -> Decimal {
    Decimal::from_units((x * 1e9).round() as i128)
}

#[test]
fn constructors() {
    let bounds = Bounds::new_const(num(0.0), num(1.0)).unwrap();
    let rnd_hlp = RoundingHelper::new_none();

    // new
    let bad = BaseMultConf::new(num(-10.0), num(0.0), bounds.clone(), bounds.clone(), rnd_hlp.clone());
    let expected: CharStatError = CsInvalidValue::BelowMinimum("base".to_string()).into();
    assert_eq!(bad, Err(expected));

    let bad = BaseMultConf::new(num(10.0), num(0.0), bounds.clone(), bounds.clone(), rnd_hlp.clone());
    let expected: CharStatError = CsInvalidValue::AboveMaximum("base".to_string()).into();
    assert_eq!(bad, Err(expected));

    let bad = BaseMultConf::new(num(0.0), num(-10.0), bounds.clone(), bounds.clone(), rnd_hlp.clone());
    let expected: CharStatError = CsInvalidValue::BelowMinimum("exponent".to_string()).into();
    assert_eq!(bad, Err(expected));

    let bad = BaseMultConf::new(num(0.0), num(10.0), bounds.clone(), bounds.clone(), rnd_hlp.clone());
    let expected: CharStatError = CsInvalidValue::AboveMaximum("exponent".to_string()).into();
    assert_eq!(bad, Err(expected));

    // new_clamping
    let correct_min =
        BaseMultConf::new(num(0.0), num(0.0), bounds.clone(), bounds.clone(), rnd_hlp.clone())
            .unwrap();
    let correct_max =
        BaseMultConf::new(num(1.0), num(1.0), bounds.clone(), bounds.clone(), rnd_hlp.clone())
            .unwrap();

    let clamped = BaseMultConf::new_clamping(
        num(-10.0),
        num(-10.0),
        bounds.clone(),
        bounds.clone(),
        rnd_hlp.clone(),
    );
    assert_eq!(clamped, Ok(correct_min));

    let clamped = BaseMultConf::new_clamping(
        num(10.0),
        num(10.0),
        bounds.clone(),
        bounds.clone(),
        rnd_hlp.clone(),
    );
    assert_eq!(clamped, Ok(correct_max));
}

#[test]
fn base_mult_basic_functional() {
    let bounds_mlt_base = Bounds::new_const(num(1.1), num(1.1)).unwrap();
    let bounds_mlt_exp = Bounds::new_const(num(0.0), num(10.0)).unwrap();
    let bounds_base = Bounds::new_const(num(0.0), num(10000.0)).unwrap();

    let base_mult = BaseMultConf::new(
        num(1.1),
        num(1.0),
        bounds_mlt_base,
        bounds_mlt_exp,
        RoundingHelper::new_none(),
    )
        .unwrap();
    let mut base = BaseConf::new(
        num(500.0),
        true,
        bounds_base,
        RoundingHelper::new(RoundingFnEnum::Floor, None),
        Some(base_mult),
    )
        .unwrap();

    let expected = [
        500.0, 550.0, 605.0, 665.0, 732.0, 805.0, 885.0, 974.0, 1071.0, 1178.0, 1296.0,
    ];

    let mut i = 1.0;
    for idx in 1..=10 {
        base.set_mult_exponent(num(i)).unwrap();

        assert_eq!(base.value(), num(expected[idx]));

        i += 1.0;
    }
}

#[test]
fn base_mult_nan_handling() {
    let bounds = Bounds::new_const(num(0.0), num(1.0)).unwrap();

    // base
    let base_mult = BaseMultConf::new(
        Decimal::Nan,
        num(1.0),
        bounds.clone(),
        bounds.clone(),
        RoundingHelper::default(),
    );
    let expected: CharStatError = CsInvalidValue::Nan("base".to_string()).into();
    assert_eq!(base_mult, Err(expected));

    // exponent
    let base_mult = BaseMultConf::new(
        num(1.0),
        Decimal::Nan,
        bounds.clone(),
        bounds.clone(),
        RoundingHelper::default(),
    );
    let expected: CharStatError = CsInvalidValue::Nan("exponent".to_string()).into();
    assert_eq!(base_mult, Err(expected));
}
