use char_stat::{
    CharStatError, CsInvalidValue, CsLogicIssue, Decimal, ModCalcMode, ModCalcStage, ModCommon,
    ModStackConf, ModType, Modifier,
};

fn num(x: f64) -> Decimal {
    Decimal::from_units((x * 1e9).round() as i128)
}

#[test]
fn modifier_expired_modifiers() {
    let common = ModCommon::new(num(1.5), ModCalcMode::Mul, ModCalcStage::Base).unwrap();
    let mod_1 = Modifier::new_expiring(common, 50);

    assert!(!mod_1.has_expired(49));
    assert!(mod_1.has_expired(50));
    assert!(mod_1.has_expired(51));

    let mod_2 = Modifier::new_persistent(common);

    let stack = ModStackConf::new(0, 160, 0, 2).unwrap();
    let mod_3 = Modifier::new_stacked(common, stack);

    let _v = vec![mod_1, mod_2, mod_3];
}

#[test]
fn modifier_nan_handling() {
    let common = ModCommon::new(Decimal::Nan, ModCalcMode::Mul, ModCalcStage::Base);

    let expected: CharStatError = CsInvalidValue::Nan("value".to_string()).into();
    assert_eq!(common, Err(expected));
}

#[test]
fn invalid_calc_for_modmult_stage() {
    let add = ModCalcMode::Add;
    let sub = ModCalcMode::Sub;
    let mul = ModCalcMode::Mul;
    let div = ModCalcMode::Div;

    let common = ModCommon::new(num(1.5), mul, ModCalcStage::ModMult);
    let expected: CharStatError = CsLogicIssue::InvalidModifierMode(mul, vec![add, sub]).into();
    assert_eq!(common, Err(expected));

    let common = ModCommon::new(num(1.5), div, ModCalcStage::ModMult);
    let expected: CharStatError = CsLogicIssue::InvalidModifierMode(div, vec![add, sub]).into();
    assert_eq!(common, Err(expected));
}

#[test]
fn stacked_mod() {
    let common = ModCommon::new(num(2.0), ModCalcMode::Add, ModCalcStage::Base).unwrap();
    let conf = ModStackConf::new(0, 16, 0, 2).unwrap();
    let mut modif = Modifier::new_stacked(common, conf);

    assert_eq!(modif.stack_inc(), Ok(()));
    assert_eq!(modif.stack(), Ok(1));
    assert_eq!(modif.stack_inc(), Ok(()));
    assert_eq!(modif.stack(), Ok(2));

    let expected: CharStatError = CsInvalidValue::AboveMaximum("stack_value".to_string()).into();
    assert_eq!(modif.stack_inc(), Err(expected));

    assert_eq!(modif.update_stack_ts(20), Ok(()));
    assert_eq!(modif.stack(), Ok(1));
    assert_eq!(modif.update_stack_ts(500), Ok(()));
    assert_eq!(modif.stack(), Ok(0));

    let expected: CharStatError = CsInvalidValue::BelowMinimum("stack_value".to_string()).into();
    assert_eq!(modif.stack_dec(), Err(expected));
}

#[test]
fn stack_conf_rejects_zero_duration() {
    let expected: CharStatError = CsInvalidValue::CannotBeZero("duration".to_string()).into();
    assert_eq!(ModStackConf::new(0, 0, 0, 2), Err(expected));

    let expected: CharStatError = CsInvalidValue::AboveMaximum("stack_value".to_string()).into();
    assert_eq!(ModStackConf::new(0, 10, 2, 2), Err(expected));
}

#[test]
fn stack_ops_on_wrong_lifecycle() {
    let common = ModCommon::new(num(1.0), ModCalcMode::Add, ModCalcStage::Base).unwrap();
    let mut persistent = Modifier::new_persistent(common);

    let expected: CharStatError = CsLogicIssue::InvalidModifierType(
        ModType::Persistent,
        "Stacked".to_string(),
    )
        .into();
    assert_eq!(persistent.stack(), Err(expected.clone()));
    assert_eq!(persistent.stack_inc(), Err(expected.clone()));
    assert_eq!(persistent.stack_dec(), Err(expected.clone()));
    assert_eq!(persistent.update_stack_ts(5), Err(expected));

    let mut stacked = Modifier::new_stacked(common, ModStackConf::new(10, 5, 1, 3).unwrap());
    let expected: CharStatError = CsLogicIssue::TimeTravel.into();
    assert_eq!(stacked.update_stack_ts(9), Err(expected));
    assert_eq!(stacked.stack(), Ok(1));

    assert_eq!(stacked.expiration_ts(), None);
    let expiring = Modifier::new_expiring(common, 7);
    assert_eq!(expiring.expiration_ts(), Some(7));
}
