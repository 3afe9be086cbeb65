use char_stat::{Bounds, CharStatError, CsInvalidValue, CsLogicIssue, Decimal, ModCalcMode,
    ModCalcStage, ModCommon, ModConf, Modifier, RoundingHelper};

fn num(x: f64) -> Decimal {
    Decimal::from_units((x * 1e9).round() as i128)
}

#[test]
fn mod_mgr_basic_functional() {
    // bounds are applied to the sum of modifiers' values, therefore the
    // minimum bound must be <= 0.0, because the modifier list will start
    // empty.
    let bounds_mgr = Bounds::new_const(num(0.0), num(1.0)).unwrap();
    let mut mod_mgr = ModConf::new(
        ModCalcStage::Base,
        bounds_mgr,
        RoundingHelper::new_none(),
        false,
        false,
    );

    let common = ModCommon::new(num(1.0), ModCalcMode::Add, ModCalcStage::Base).unwrap();
    let modifier = Modifier::new_persistent(common);
    let base_value = num(69.0);
    assert_eq!(mod_mgr.value(), num(0.0));

    mod_mgr.append_mod(base_value, modifier).unwrap();
    assert_eq!(mod_mgr.value(), num(1.0));
}

#[test]
fn mod_mgr_nan_handling() {
    let bounds_mgr = Bounds::new_const(num(0.0), num(1.0)).unwrap();
    let mut mod_mgr = ModConf::new(
        ModCalcStage::Base,
        bounds_mgr,
        RoundingHelper::new_none(),
        false,
        false,
    );

    let common = ModCommon::new(num(1.0), ModCalcMode::Add, ModCalcStage::Base).unwrap();
    let modifier = Modifier::new_persistent(common);

    let base_value = Decimal::Nan;
    let expected = CsInvalidValue::Nan("value".to_string()).into();

    assert_eq!(mod_mgr.append_mod(base_value, modifier), Err::<(), CharStatError>(expected));
}

#[test]
fn mod_mgr_expired_modifiers() {
    let stage = ModCalcStage::Base;
    let mode = ModCalcMode::Add;
    let bounds = Bounds::new_const(num(0.0), num(10.0)).unwrap();
    let rounding = RoundingHelper::new_none();
    let mut mgr = ModConf::new(stage, bounds, rounding, false, false);

    let common = ModCommon::new(num(1.0), mode, stage).unwrap();
    let common_2 = ModCommon::new(num(2.0), mode, stage).unwrap();

    let mod_1 = Modifier::new_expiring(common, 69);
    let mod_2 = Modifier::new_expiring(common_2, 100);

    mgr.append_mod_unchecked(num(0.0), mod_1);
    mgr.append_mod_unchecked(num(0.0), mod_2);

    mgr.remove_expired(50);
    mgr.update(num(0.0));
    assert_eq!(mgr.value(), num(3.0));

    mgr.remove_expired(75);
    mgr.update(num(0.0));
    assert_eq!(mgr.value(), num(2.0));

    mgr.remove_expired(100);
    mgr.update(num(0.0));
    assert_eq!(mgr.value(), num(0.0));
}

#[test]
fn aggregate_stays_within_effective_bounds() {
    // plain bounds: the sum 3.0 clamps to the maximum 1.0
    let bounds = Bounds::new_const(num(0.0), num(1.0)).unwrap();
    let mut mgr = ModConf::new(
        ModCalcStage::Base,
        bounds,
        RoundingHelper::new_none(),
        false,
        false,
    );
    let common = ModCommon::new(num(3.0), ModCalcMode::Add, ModCalcStage::Base).unwrap();
    mgr.append_mod(num(10.0), Modifier::new_persistent(common)).unwrap();
    assert_eq!(mgr.value(), num(1.0));

    // percent bounds scale with the reference magnitude: max 0.5 of 10.0 is
    // 5.0, and the sum 30.0 clamps to it
    let bounds = Bounds::new_const(num(-0.5), num(0.5)).unwrap();
    let mut mgr = ModConf::new(
        ModCalcStage::Base,
        bounds,
        RoundingHelper::new_none(),
        true,
        true,
    );
    let big = ModCommon::new(num(30.0), ModCalcMode::Add, ModCalcStage::Base).unwrap();
    mgr.append_mod(num(10.0), Modifier::new_persistent(big)).unwrap();
    assert_eq!(mgr.value(), num(5.0));
}

#[test]
fn mod_mgr_rejects_wrong_stage() {
    let bounds = Bounds::new_const(num(0.0), num(1.0)).unwrap();
    let mut mgr = ModConf::new(
        ModCalcStage::Upgrade,
        bounds,
        RoundingHelper::new_none(),
        false,
        false,
    );

    let common = ModCommon::new(num(1.0), ModCalcMode::Add, ModCalcStage::Base).unwrap();
    let modifier = Modifier::new_persistent(common);

    let expected: CharStatError =
        CsLogicIssue::InvalidModifierStage(ModCalcStage::Base, ModCalcStage::Upgrade).into();
    assert_eq!(mgr.append_mod(num(1.0), modifier), Err(expected));
    assert_eq!(mgr.value(), num(0.0));
}
