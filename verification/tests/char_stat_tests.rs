use char_stat::{BaseConf, BaseMultConf, Bounds, CharStat, CharStatError, CsInvalidValue,
    CsLogicIssue, CsMissingComponent, Decimal, ModCalcMode, ModCalcStage, ModCommon, ModConf,
    ModMultConf, Modifier, RoundingFnEnum, RoundingHelper, UpgradeConf};

fn num(x: f64) -> Decimal {
    Decimal::from_units((x * 1e9).round() as i128)
}

#[test]
fn lib_basic_functional() {
    let v_base: f64 = 10.0;
    let v_mult_b: f64 = 1.1;
    let v_mult_e: f64 = 1.0;
    let v_base_plus_mlt: f64 = v_base * (v_mult_b.powf(v_mult_e));
    let v_upgrade: f64 = 2.0;
    let v_final = v_base_plus_mlt + v_upgrade;

    let bounds_mult_b = Bounds::new_const(num(0.5), num(1.5)).unwrap();
    let bounds_mult_e = Bounds::new_mut(num(1.0), num(2.0)).unwrap();
    let ronud_helper = RoundingHelper::new(RoundingFnEnum::Round, Some(num(0.1)));
    let mult = BaseMultConf::new(
        num(v_mult_b),
        num(v_mult_e),
        bounds_mult_b,
        bounds_mult_e,
        ronud_helper,
    )
        .unwrap();

    let bounds_base = Bounds::new_const(num(4.0), num(20.0)).unwrap();
    let base = BaseConf::new(
        num(v_base),
        true,
        bounds_base,
        RoundingHelper::default(),
        Some(mult),
    )
        .unwrap();

    let bounds_up_mod = Bounds::new_const(num(-0.5), num(1.5)).unwrap();
    let rounding = RoundingHelper::new(RoundingFnEnum::NoRound, None);
    let up_mod = ModConf::new(ModCalcStage::Upgrade, bounds_up_mod, rounding, true, true);

    let bounds_upgr = Bounds::new_const(num(0.0), num(50.0)).unwrap();
    let rounding_fn = RoundingHelper::new_none();
    let mut upgrade = UpgradeConf::new(num(0.0), bounds_upgr, rounding_fn).unwrap();

    assert_eq!(base.value(), num(v_base_plus_mlt));

    let expected: CharStatError = CsInvalidValue::AboveMaximum("value".to_string()).into();
    assert_eq!(upgrade.set_value(num(69.0)), Err(expected));
    assert_eq!(upgrade.value(), num(0.0));

    assert_eq!(upgrade.set_value(num(v_upgrade)), Ok(()));

    let mut cs = CharStat::new(base, Some(upgrade), None, Some(up_mod), None, None);
    assert_eq!(cs.value(), num(v_final));

    assert_eq!(cs.set_upgrade_value(num(v_upgrade + 2.0)), Ok(()));
    assert_eq!(cs.upgrade_raw(), Ok(num(v_upgrade + 2.0)));

    assert_eq!(cs.value(), num(v_final + 2.0));

    let modifier = Modifier::new_persistent(
        ModCommon::new(num(0.5), ModCalcMode::Mul, ModCalcStage::Upgrade).unwrap(),
    );
    assert_eq!(cs.append_modifier(modifier), Ok(()));
    assert_eq!(cs.value(), num(v_final + 4.0));
}

#[test]
fn modifiers() {
    let v_base: f64 = 10.0;
    let v_upgrade: f64 = 2.0;

    let v_base_mod = 0.1;
    let v_upgrade_mod = 0.25;
    let v_base_and_up_mod = 0.05;
    let v_mod_mult = 1.0;

    let common_b = ModCommon::new(num(v_base_mod), ModCalcMode::Mul, ModCalcStage::Base).unwrap();
    let common_u =
        ModCommon::new(num(v_upgrade_mod), ModCalcMode::Mul, ModCalcStage::Upgrade).unwrap();
    let common_bau = ModCommon::new(
        num(v_base_and_up_mod),
        ModCalcMode::Mul,
        ModCalcStage::BasePlusUpgrade,
    )
        .unwrap();
    let common_mm =
        ModCommon::new(num(v_mod_mult), ModCalcMode::Add, ModCalcStage::ModMult).unwrap();

    let mod_base = Modifier::new_expiring(common_b, 24);
    let mod_upgrade = Modifier::new_expiring(common_u, 49);
    let mod_base_and_up = Modifier::new_expiring(common_bau, 74);
    let mod_mod_mlt = Modifier::new_expiring(common_mm, 99);

    let bounds_base = Bounds::new_const(num(v_base), num(v_base)).unwrap();
    let bounds_upgrade = Bounds::new_const(num(v_upgrade), num(v_upgrade)).unwrap();
    let bounds_mod_base = Bounds::new_const(num(0.0), num(1.0)).unwrap();
    let bounds_mod_upgrade = Bounds::new_const(num(0.0), num(1.0)).unwrap();
    let bounds_mod_base_plus_upgrade = Bounds::new_const(num(0.0), num(1.0)).unwrap();
    let bounds_mod_mult = Bounds::new_const(num(0.0), num(1.0)).unwrap();

    let rounding_fn = RoundingHelper::new_none();

    let base = BaseConf::new(num(v_base), false, bounds_base, rounding_fn.clone(), None).unwrap();
    let upgrade = Some(UpgradeConf::new(num(v_upgrade), bounds_upgrade, rounding_fn.clone()).unwrap());
    let mod_of_base = Some(ModConf::new(
        ModCalcStage::Base,
        bounds_mod_base,
        rounding_fn.clone(),
        false,
        false,
    ));
    let mod_of_upgrade = Some(ModConf::new(
        ModCalcStage::Base,
        bounds_mod_upgrade,
        rounding_fn.clone(),
        false,
        false,
    ));
    let mod_of_base_plus_upgrade = Some(ModConf::new(
        ModCalcStage::Base,
        bounds_mod_base_plus_upgrade,
        rounding_fn.clone(),
        false,
        false,
    ));
    let mod_mult = Some(ModMultConf::new(bounds_mod_mult));

    let mut cs = CharStat::new(
        base,
        upgrade,
        mod_of_base,
        mod_of_upgrade,
        mod_of_base_plus_upgrade,
        mod_mult,
    );
    assert_eq!(cs.append_modifier(mod_base), Ok(()));
    assert_eq!(cs.append_modifier(mod_upgrade), Ok(()));
    assert_eq!(cs.append_modifier(mod_base_and_up), Ok(()));
    assert_eq!(cs.append_modifier(mod_mod_mlt), Ok(()));

    let mod_mult = 1.0 + v_mod_mult;

    let res_base_mod = v_base * (v_base_mod * mod_mult);
    let res_up_mod = v_upgrade * (v_upgrade_mod * mod_mult);
    let res_base_and_up_mod = (v_base + v_upgrade) * (v_base_and_up_mod * mod_mult);

    assert_eq!(cs.base(), num(v_base + res_base_mod));
    assert_eq!(cs.upgrade().unwrap(), num(v_upgrade + res_up_mod));
    assert_eq!(
        cs.value(),
        num(v_base + v_upgrade + res_base_mod + res_up_mod + res_base_and_up_mod)
    );

    assert_eq!(cs.set_ts(25), Ok(()));
    assert_eq!(cs.base(), num(v_base));
    assert_eq!(cs.value(), num(v_base + v_upgrade + res_up_mod + res_base_and_up_mod));

    assert_eq!(cs.set_ts(50), Ok(()));
    assert_eq!(cs.value(), num(v_base + v_upgrade + res_base_and_up_mod));

    assert_eq!(cs.set_ts(75), Ok(()));
    assert_eq!(cs.value(), num(v_base + v_upgrade));
}

#[test]
fn lib_nan_handling() {
    // RoundingHelper
    let bad_rh = RoundingHelper::new(RoundingFnEnum::Round, Some(Decimal::Nan));
    assert_eq!(bad_rh.precision, None);
    let ronuding_helper = RoundingHelper::new(RoundingFnEnum::Round, Some(num(0.1)));
    assert_eq!(ronuding_helper.precision, Some(num(0.1)));
}

#[test]
fn time_travel() {
    let bounds = Bounds::new_const(num(0.0), num(1.0)).unwrap();
    let base = BaseConf::new(num(0.0), true, bounds, RoundingHelper::new_none(), None).unwrap();
    let mut cs = CharStat::new_minimal(base);
    assert_eq!(cs.set_ts(100), Ok(()));

    let err = Err(CsLogicIssue::TimeTravel.into());
    assert_eq!(cs.set_ts(0), err);

    cs.set_ts_unchecked(0);
    assert_eq!(cs.set_ts(5), Ok(()));
}

#[test]
fn append_modifier_without_target() {
    let bounds = Bounds::new_const(num(0.0), num(10.0)).unwrap();
    let base = BaseConf::new(num(5.0), true, bounds, RoundingHelper::new_none(), None).unwrap();
    let mut cs = CharStat::new_minimal(base);
    let before = cs.value();

    let mk = |stage: ModCalcStage| {
        Modifier::new_persistent(ModCommon::new(num(1.0), ModCalcMode::Add, stage).unwrap())
    };

    let expected: CharStatError = CsMissingComponent::ModOfBase.into();
    assert_eq!(cs.append_modifier(mk(ModCalcStage::Base)), Err(expected));

    // a modifier for the upgrade stage of a composer with no upgrade term
    let expected: CharStatError = CsMissingComponent::ModOfUpgrade.into();
    assert_eq!(cs.append_modifier(mk(ModCalcStage::Upgrade)), Err(expected));

    let expected: CharStatError = CsMissingComponent::ModOfBasePlusUpgrade.into();
    assert_eq!(cs.append_modifier(mk(ModCalcStage::BasePlusUpgrade)), Err(expected));

    let expected: CharStatError = CsMissingComponent::ModMult.into();
    assert_eq!(cs.append_modifier(mk(ModCalcStage::ModMult)), Err(expected));

    // the aggregate is unchanged
    assert_eq!(cs.value(), before);
}

#[test]
fn missing_components() {
    let bounds = Bounds::new_const(num(0.0), num(10.0)).unwrap();
    let base = BaseConf::new(num(5.0), true, bounds, RoundingHelper::new_none(), None).unwrap();
    let mut cs = CharStat::new_minimal(base);

    let expected: CharStatError = CsMissingComponent::BaseMult.into();
    assert_eq!(cs.set_mult_base(num(2.0)), Err(expected.clone()));
    assert_eq!(cs.set_mult_exponent(num(2.0)), Err(expected.clone()));
    assert_eq!(cs.set_mult_base_clamping(num(2.0)), Err(expected.clone()));
    assert_eq!(cs.set_mult_exponent_clamping(num(2.0)), Err(expected));

    let expected: CharStatError = CsMissingComponent::Upgrade.into();
    assert_eq!(cs.set_upgrade_value(num(1.0)), Err(expected.clone()));
    assert_eq!(cs.set_upgrade_value_clamping(num(1.0)), Err(expected.clone()));
    assert_eq!(cs.inc_upgrade_value(num(1.0)), Err(expected.clone()));
    assert_eq!(cs.dec_upgrade_value(num(1.0)), Err(expected.clone()));
    assert_eq!(cs.set_upgrade_bounds_min(num(1.0)), Err(expected.clone()));
    assert_eq!(cs.set_upgrade_bounds_max(num(1.0)), Err(expected.clone()));
    assert_eq!(cs.set_upgrade_bounds_min_const(), Err(expected.clone()));
    assert_eq!(cs.set_upgrade_bounds_max_const(), Err(expected.clone()));
    assert_eq!(cs.upgrade(), Err(expected.clone()));
    assert_eq!(cs.upgrade_raw(), Err(expected));
    assert_eq!(cs.upgrade_bounds_min(), None);
    assert_eq!(cs.upgrade_bounds_max(), None);
}

#[test]
fn try_new_validation() {
    let bounds = Bounds::new_const(num(0.0), num(10.0)).unwrap();
    let base = BaseConf::new(num(5.0), true, bounds, RoundingHelper::new_none(), None).unwrap();
    let agg_bounds = Bounds::new_const(num(0.0), num(1.0)).unwrap();
    let mod_conf = ModConf::new(
        ModCalcStage::Upgrade,
        agg_bounds.clone(),
        RoundingHelper::new_none(),
        false,
        false,
    );

    // upgrade-dependent aggregator without an upgrade term
    let expected: CharStatError = CsMissingComponent::Upgrade.into();
    let r = CharStat::try_new(base.clone(), None, None, Some(mod_conf.clone()), None, None);
    assert_eq!(r, Err(expected));

    // a multiplier with nothing to scale
    let expected =
        CharStatError::custom("the modifier multiplier requires at least one modifier aggregator"
            .to_string());
    let r = CharStat::try_new(
        base.clone(),
        None,
        None,
        None,
        None,
        Some(ModMultConf::new(agg_bounds.clone())),
    );
    assert_eq!(r, Err(expected));

    // a sound configuration
    let upgrade_bounds = Bounds::new_const(num(0.0), num(50.0)).unwrap();
    let upgrade = UpgradeConf::new(num(2.0), upgrade_bounds, RoundingHelper::new_none()).unwrap();
    let r = CharStat::try_new(base, Some(upgrade), None, Some(mod_conf), None, None);
    assert!(r.is_ok());
    assert_eq!(r.unwrap().value(), num(7.0));
}

#[test]
fn base_setters_through_composer() {
    let bounds = Bounds::new_mut(num(0.0), num(20.0)).unwrap();
    let base = BaseConf::new(num(10.0), true, bounds, RoundingHelper::new_none(), None).unwrap();
    let mut cs = CharStat::new_minimal(base);
    assert_eq!(cs.value(), num(10.0));

    assert_eq!(cs.set_base_value(num(12.0)), Ok(()));
    assert_eq!(cs.value(), num(12.0));
    assert_eq!(cs.base_raw(), num(12.0));

    let expected: CharStatError = CsInvalidValue::AboveMaximum("value".to_string()).into();
    assert_eq!(cs.set_base_value(num(25.0)), Err(expected));
    assert_eq!(cs.value(), num(12.0));

    assert_eq!(cs.set_base_value_clamping(num(25.0)), Ok(()));
    assert_eq!(cs.value(), num(20.0));

    assert_eq!(cs.set_base_bounds_min(num(1.0)), Ok(()));
    assert_eq!(cs.base_bounds_min(), num(1.0));
    assert_eq!(cs.set_base_bounds_max(num(30.0)), Ok(()));
    assert_eq!(cs.base_bounds_max(), num(30.0));

    cs.set_base_value_const();
    let expected: CharStatError = CsLogicIssue::FieldIsConst.into();
    assert_eq!(cs.set_base_value(num(5.0)), Err(expected));
    assert_eq!(cs.value(), num(20.0));
}

#[test]
fn accessor_idempotence() {
    let bounds = Bounds::new_const(num(4.0), num(20.0)).unwrap();
    let base = BaseConf::new(num(10.0), true, bounds, RoundingHelper::new_none(), None).unwrap();
    let upgrade_bounds = Bounds::new_const(num(0.0), num(50.0)).unwrap();
    let upgrade = UpgradeConf::new(num(2.0), upgrade_bounds, RoundingHelper::new_none()).unwrap();
    let cs = CharStat::new_no_mod(base, Some(upgrade));

    assert_eq!(cs.value(), cs.value());
    assert_eq!(cs.base(), cs.base());
    assert_eq!(cs.base_raw(), cs.base_raw());
    assert_eq!(cs.upgrade(), cs.upgrade());
    assert_eq!(cs.upgrade_raw(), cs.upgrade_raw());
    assert_eq!(cs.value(), num(12.0));
}
