use char_stat::{Bounds, CharStatError, CsInvalidValue, CsLogicIssue, Decimal};

fn num(x: f64) -> Decimal {
    Decimal::from_units((x * 1e9).round() as i128)
}

#[test]
fn bounds_nan_handling() {
    // Bounds - min
    let expected: CharStatError = CsInvalidValue::Nan("v_min".to_string()).into();
    let bad_min = Bounds::new_const(Decimal::Nan, num(5.0));
    assert_eq!(bad_min, Err(expected.clone()));
    let bad_min = Bounds::new_mut(Decimal::Nan, num(5.0));
    assert_eq!(bad_min, Err(expected.clone()));
    let bad_min = Bounds::new(Decimal::Nan, num(5.0), true, false);
    assert_eq!(bad_min, Err(expected.clone()));

    // Bounds - max
    let expected: CharStatError = CsInvalidValue::Nan("v_max".to_string()).into();
    let bad_max = Bounds::new_const(num(5.0), Decimal::Nan);
    assert_eq!(bad_max, Err(expected.clone()));
    let bad_max = Bounds::new_mut(num(5.0), Decimal::Nan);
    assert_eq!(bad_max, Err(expected.clone()));
    let bad_max = Bounds::new(num(5.0), Decimal::Nan, true, false);
    assert_eq!(bad_max, Err(expected));
}

#[test]
fn mutability() {
    let expected: CharStatError = CsLogicIssue::FieldIsConst.into();
    let mut bounds_1 = Bounds::new_const(num(1.0), num(10.0)).expect("...");

    assert_eq!(bounds_1.set_min(num(5.0)), Err(expected.clone()));
    assert_eq!(bounds_1.set_max(num(5.0)), Err(expected.clone()));

    let mut bounds_2 = Bounds::new_mut(num(1.0), num(10.0)).expect("...");

    assert_eq!(bounds_2.set_min(num(5.0)), Ok(()));
    assert_eq!(bounds_2.set_max(num(5.0)), Ok(()));

    bounds_2.set_min_const();
    bounds_2.set_max_const();

    assert_eq!(bounds_2.set_min(num(1.0)), Err(expected.clone()));
    assert_eq!(bounds_2.set_max(num(10.0)), Err(expected));
}

#[test]
fn min_greater_than_max() {
    let expected: CharStatError = CsLogicIssue::MinGreaterThanMax.into();
    assert_eq!(Bounds::new_const(num(5.0), num(1.0)), Err(expected.clone()));

    let mut bounds = Bounds::new_mut(num(1.0), num(10.0)).unwrap();
    assert_eq!(bounds.set_min(num(11.0)), Err(expected.clone()));
    assert_eq!(bounds.set_max(num(0.5)), Err(expected));
    assert_eq!(bounds.min(), num(1.0));
    assert_eq!(bounds.max(), num(10.0));
}
