//! The global-multiplier aggregator: it accepts additive and subtractive
//! modifiers only, and its cached factor is one plus the bounded sum, so that
//! an empty aggregator scales by exactly one.

use vstd::prelude::*;

verus! {

use crate::bounds::{set_max_result, set_min_result, Bounds};
use crate::errors::{is_invalid_mode_error, CharStatError, CsLogicIssue};
use crate::mod_mgr::surviving_mods;
use crate::modifier::{ModCalcMode, ModCalcStage, Modifier};
use crate::num::{add_spec, clamp_spec, le_spec, one_spec, sub_spec, zero_spec, Decimal};

/// The multiplier aggregator: its modifier list, the bounds on the summed
/// delta, and the cached factor.
#[derive(Debug, Clone, PartialEq)]
pub struct ModMultConf {
    pub value: Decimal,
    pub bounds: Bounds,
    pub mod_vec: Vec<Modifier>,
}

/// One modifier folded into the running delta: added when its mode is `Add`,
/// subtracted otherwise.
pub open spec fn mult_contribution(acc: Decimal, m: Modifier) -> Decimal {
    if m.common.mode is Add {
        add_spec(acc, m.common.value)
    } else {
        sub_spec(acc, m.common.value)
    }
}

/// The modifier list folded left to right into a delta, starting from zero.
pub open spec fn mult_mods_sum(mods: Seq<Modifier>) -> Decimal
    decreases mods.len(),
{
    if mods.len() == 0 {
        zero_spec()
    } else {
        mult_contribution(mult_mods_sum(mods.drop_last()), mods.last())
    }
}

/// The factor the aggregator caches: one plus the delta clamped into the
/// bounds. Kept opaque: callers reason about the factor as a value.
#[verifier::opaque]
pub open spec fn mult_value_spec(mods: Seq<Modifier>, bounds: Bounds) -> Decimal {
    add_spec(clamp_spec(mult_mods_sum(mods), bounds.v_min, bounds.v_max), one_spec())
}

/// Neutrality law: with no modifiers attached, and bounds that admit zero,
/// the recomputed factor is exactly one.
pub proof fn lemma_mult_neutral_empty(bounds: Bounds)
    requires
        !bounds.v_min.is_nan_spec(),
        !bounds.v_max.is_nan_spec(),
        le_spec(bounds.v_min, zero_spec()),
        le_spec(zero_spec(), bounds.v_max),
    ensures
        mult_value_spec(Seq::<Modifier>::empty(), bounds) == one_spec(),
{
    reveal(mult_value_spec);
    assert(mult_mods_sum(Seq::<Modifier>::empty()) == zero_spec());
    assert(clamp_spec(zero_spec(), bounds.v_min, bounds.v_max) == zero_spec());
}

/// Factor bounding law: whenever the bounds are finite and ordered and the
/// summed delta is defined, the factor lies between one plus the lower bound
/// and one plus the upper bound.
pub proof fn lemma_mult_factor_within(mods: Seq<Modifier>, bounds: Bounds)
    requires
        bounds.v_min.wf(),
        bounds.v_max.wf(),
        bounds.v_min.is_finite(),
        bounds.v_max.is_finite(),
        le_spec(bounds.v_min, bounds.v_max),
        !mult_mods_sum(mods).is_nan_spec(),
    ensures
        le_spec(
            add_spec(bounds.v_min, one_spec()),
            mult_value_spec(mods, bounds),
        ),
        le_spec(
            mult_value_spec(mods, bounds),
            add_spec(bounds.v_max, one_spec()),
        ),
{
    reveal(mult_value_spec);
    let s = mult_mods_sum(mods);
    let clamped = clamp_spec(s, bounds.v_min, bounds.v_max);
    crate::num::lemma_clamp_within(s, bounds.v_min, bounds.v_max);
    crate::num::lemma_add_monotone(bounds.v_min, one_spec(), clamped, one_spec());
    crate::num::lemma_add_monotone(clamped, one_spec(), bounds.v_max, one_spec());
}

impl ModMultConf {
    /// The cached factor is representable, the bounds are sound, and every
    /// held modifier is sound.
    pub open spec fn wf(self) -> bool {
        &&& self.value.wf()
        &&& self.bounds.wf()
        &&& forall|i: int| 0 <= i < self.mod_vec@.len() ==> (#[trigger] self.mod_vec@[i]).wf()
    }

    /// Builds an empty aggregator; its factor starts at exactly one.
    pub fn new(bounds: Bounds) -> (r: Self)
        requires
            bounds.wf(),
        ensures
            r.value == one_spec(),
            r.bounds == bounds,
            r.mod_vec@ == Seq::<Modifier>::empty(),
            r.wf(),
    {
        let mod_vec: Vec<Modifier> = Vec::new();
        proof {
            assert(mod_vec@ =~= Seq::<Modifier>::empty());
        }
        ModMultConf { value: Decimal::one(), bounds, mod_vec }
    }

    /// Appends a modifier after checking that it targets the multiplier
    /// stage with an additive or subtractive mode, then recomputes the
    /// factor.
    pub fn append_mod(&mut self, modifier: Modifier) -> (r: Result<(), CharStatError>)
        requires
            old(self).wf(),
            modifier.wf(),
        ensures
            modifier.common.stage != ModCalcStage::ModMult ==> r == Err::<(), CharStatError>(
                CharStatError::LogicIssue(
                    CsLogicIssue::InvalidModifierStage(modifier.common.stage, ModCalcStage::ModMult),
                ),
            ) && *final(self) == *old(self),
            modifier.common.stage == ModCalcStage::ModMult && (modifier.common.mode is Mul
                || modifier.common.mode is Div) ==> (r matches Err(e) && is_invalid_mode_error(
                e,
                modifier.common.mode,
            ) && *final(self) == *old(self)),
            modifier.common.stage == ModCalcStage::ModMult && !(modifier.common.mode is Mul
                || modifier.common.mode is Div) ==> r == Ok::<(), CharStatError>(())
                && final(self).mod_vec@ == old(self).mod_vec@.push(modifier) && *final(self) == (
            ModMultConf {
                value: mult_value_spec(old(self).mod_vec@.push(modifier), old(self).bounds),
                mod_vec: final(self).mod_vec,
                ..*old(self)
            }),
            final(self).wf(),
    {
        let stage = modifier.calc_stage();
        let mode = modifier.calc_mode();
        if stage != ModCalcStage::ModMult {
            return Err(CsLogicIssue::InvalidModifierStage(stage, ModCalcStage::ModMult).into());
        }
        if let ModCalcMode::Mul | ModCalcMode::Div = mode {
            let mut accepted: Vec<ModCalcMode> = Vec::new();
            accepted.push(ModCalcMode::Add);
            accepted.push(ModCalcMode::Sub);
            proof {
                assert(accepted@ =~= seq![ModCalcMode::Add, ModCalcMode::Sub]);
            }
            return Err(CsLogicIssue::InvalidModifierMode(mode, accepted).into());
        }
        self.append_mod_unchecked(modifier);
        Ok(())
    }

    /// Reads the cached factor.
    pub fn value(&self) -> (r: Decimal)
        ensures
            r == self.value,
    {
        self.value
    }

    /// Drops every modifier expired at `ts`, keeping the order of the rest,
    /// and recomputes the factor.
    pub fn remove_expired(&mut self, ts: u64)
        requires
            old(self).wf(),
        ensures
            final(self).mod_vec@ == surviving_mods(old(self).mod_vec@, ts),
            *final(self) == (ModMultConf {
                value: mult_value_spec(surviving_mods(old(self).mod_vec@, ts), old(self).bounds),
                mod_vec: final(self).mod_vec,
                ..*old(self)
            }),
            final(self).wf(),
    {
        let ghost orig = self.mod_vec@;
        let mut kept: Vec<Modifier> = Vec::new();
        proof {
            assert(orig.take(0) =~= Seq::<Modifier>::empty());
            assert(kept@ =~= surviving_mods(orig.take(0), ts));
        }
        let mut i: usize = 0;
        while i < self.mod_vec.len()
            invariant
                i <= self.mod_vec@.len(),
                self.mod_vec@ == orig,
                old(self).wf(),
                *self == *old(self),
                kept@ == surviving_mods(orig.take(i as int), ts),
                forall|j: int| 0 <= j < kept@.len() ==> (#[trigger] kept@[j]).wf(),
            decreases self.mod_vec@.len() - i,
        {
            let m = self.mod_vec[i];
            if !m.has_expired(ts) {
                kept.push(m);
            }
            proof {
                assert(orig.take(i + 1).drop_last() =~= orig.take(i as int));
                assert(orig.take(i + 1).last() == orig[i as int]);
            }
            i = i + 1;
        }
        proof {
            assert(orig.take(orig.len() as int) =~= orig);
        }
        self.mod_vec = kept;
        self.update();
    }

    /// Appends a modifier without the stage and mode checks (for callers
    /// that have already dispatched), then recomputes the factor.
    pub(crate) fn append_mod_unchecked(&mut self, modifier: Modifier)
        requires
            old(self).wf(),
            modifier.wf(),
        ensures
            final(self).mod_vec@ == old(self).mod_vec@.push(modifier),
            *final(self) == (ModMultConf {
                value: mult_value_spec(old(self).mod_vec@.push(modifier), old(self).bounds),
                mod_vec: final(self).mod_vec,
                ..*old(self)
            }),
            final(self).wf(),
    {
        self.mod_vec.push(modifier);
        self.update();
    }

    /// Recomputes the cached factor: the delta summed in order, clamped into
    /// the bounds, plus one.
    pub(crate) fn update(&mut self)
        requires
            old(self).wf(),
        ensures
            *final(self) == (ModMultConf {
                value: mult_value_spec(old(self).mod_vec@, old(self).bounds),
                ..*old(self)
            }),
            final(self).wf(),
    {
        proof {
            reveal(mult_value_spec);
        }
        let ghost orig = self.mod_vec@;
        let mut tmp = Decimal::zero();
        proof {
            assert(orig.take(0) =~= Seq::<Modifier>::empty());
        }
        let mut i: usize = 0;
        while i < self.mod_vec.len()
            invariant
                i <= self.mod_vec@.len(),
                self.mod_vec@ == orig,
                old(self).wf(),
                *self == *old(self),
                tmp.wf(),
                tmp == mult_mods_sum(orig.take(i as int)),
            decreases self.mod_vec@.len() - i,
        {
            let m = self.mod_vec[i];
            assert(m == orig[i as int]);
            if let ModCalcMode::Add = m.calc_mode() {
                tmp = tmp.plus(m.value());
            } else {
                tmp = tmp.minus(m.value());
            }
            proof {
                assert(orig.take(i + 1).drop_last() =~= orig.take(i as int));
                assert(orig.take(i + 1).last() == orig[i as int]);
            }
            i = i + 1;
        }
        proof {
            assert(orig.take(orig.len() as int) =~= orig);
        }
        let clamped = tmp.clamp_to(self.bounds.v_min, self.bounds.v_max);
        self.value = clamped.plus(Decimal::one());
    }
}

// bounds
impl ModMultConf {
    /// Moves the lower bound; see [`Bounds::set_min`].
    pub fn set_bounds_min(&mut self, new_val: Decimal) -> (r: Result<(), CharStatError>)
        requires
            old(self).wf(),
            new_val.wf(),
        ensures
            *final(self) == (ModMultConf { bounds: final(self).bounds, ..*old(self) }),
            set_min_result(old(self).bounds, final(self).bounds, r, new_val),
            final(self).wf(),
    {
        self.bounds.set_min(new_val)
    }

    /// Moves the upper bound; see [`Bounds::set_max`].
    pub fn set_bounds_max(&mut self, new_val: Decimal) -> (r: Result<(), CharStatError>)
        requires
            old(self).wf(),
            new_val.wf(),
        ensures
            *final(self) == (ModMultConf { bounds: final(self).bounds, ..*old(self) }),
            set_max_result(old(self).bounds, final(self).bounds, r, new_val),
            final(self).wf(),
    {
        self.bounds.set_max(new_val)
    }

    /// Freezes the lower bound.
    pub fn set_bounds_min_const(&mut self)
        ensures
            *final(self) == (ModMultConf {
                bounds: Bounds { is_min_mut: false, ..old(self).bounds },
                ..*old(self)
            }),
    {
        self.bounds.set_min_const();
    }

    /// Freezes the upper bound.
    pub fn set_bounds_max_const(&mut self)
        ensures
            *final(self) == (ModMultConf {
                bounds: Bounds { is_max_mut: false, ..old(self).bounds },
                ..*old(self)
            }),
    {
        self.bounds.set_max_const();
    }

    pub fn bounds_min(&self) -> (r: Decimal)
        ensures
            r == self.bounds.v_min,
    {
        self.bounds.min()
    }

    pub fn bounds_max(&self) -> (r: Decimal)
        ensures
            r == self.bounds.v_max,
    {
        self.bounds.max()
    }
}

} // verus!
