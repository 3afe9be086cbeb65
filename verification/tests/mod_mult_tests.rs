use char_stat::{Bounds, Decimal, ModCalcMode, ModCalcStage, ModCommon, ModMultConf, Modifier};

fn num(x: f64) -> Decimal {
    Decimal::from_units((x * 1e9).round() as i128)
}

#[test]
fn mod_mult_basic_functional() {
    // bounds are applied to the sum of modifiers' values, therefore the
    // minimum bound must be <= 0.0, because the modifier list will start
    // empty.
    let bounds_mlt = Bounds::new_const(num(0.0), num(1.0)).unwrap();
    let mut mod_mult = ModMultConf::new(bounds_mlt);

    let common = ModCommon::new(num(1.0), ModCalcMode::Add, ModCalcStage::ModMult).unwrap();
    let modifier = Modifier::new_expiring(common, 9);

    // the returned value is incremented by 1.0 to turn it into multiplier
    assert_eq!(mod_mult.value(), num(1.0));

    mod_mult.append_mod(modifier).unwrap();
    assert_eq!(mod_mult.value(), num(2.0));

    mod_mult.remove_expired(100);
    assert_eq!(mod_mult.value(), num(1.0));
}
