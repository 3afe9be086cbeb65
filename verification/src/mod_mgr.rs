//! A modifier aggregator: a growable list of modifiers reduced, against a
//! reference magnitude, into a single bounded, rounded cached value.

use vstd::prelude::*;

verus! {

use crate::bounds::{set_max_result, set_min_result, Bounds};
use crate::errors::{is_nan_error, CharStatError, CsInvalidValue, CsLogicIssue};
use crate::modifier::{ModCalcMode, ModCalcStage, Modifier};
use crate::num::{add_spec, clamp_spec, div_spec, le_spec, mul_spec, sub_spec, zero_spec, Decimal};
use crate::rounding::{apply_rounding_spec, RoundingHelper};

/// A stage's aggregator: its modifier list, the bounds on the aggregate (each
/// end optionally read as a percentage of the reference magnitude), rounding,
/// and the cached aggregate.
#[derive(Debug, Clone, PartialEq)]
pub struct ModConf {
    pub value: Decimal,
    pub stage: ModCalcStage,
    pub bounds: Bounds,
    pub rounding_fn: RoundingHelper,
    pub mod_vec: Vec<Modifier>,
    pub is_min_percent: bool,
    pub is_max_percent: bool,
}

/// One modifier folded into the running sum: added, subtracted, multiplied by
/// the reference magnitude, or dividing the reference magnitude.
pub open spec fn contribution(acc: Decimal, m: Modifier, refm: Decimal) -> Decimal {
    match m.common.mode {
        ModCalcMode::Add => add_spec(acc, m.common.value),
        ModCalcMode::Sub => sub_spec(acc, m.common.value),
        ModCalcMode::Mul => add_spec(acc, mul_spec(m.common.value, refm)),
        ModCalcMode::Div => add_spec(acc, div_spec(refm, m.common.value)),
    }
}

/// The modifier list folded left to right into a sum, starting from zero.
pub open spec fn mods_sum(mods: Seq<Modifier>, refm: Decimal) -> Decimal
    decreases mods.len(),
{
    if mods.len() == 0 {
        zero_spec()
    } else {
        contribution(mods_sum(mods.drop_last(), refm), mods.last(), refm)
    }
}

/// One end of the effective bounds: the configured end, scaled by the
/// reference magnitude when it is read as a percentage.
pub open spec fn effective_bound(end: Decimal, refm: Decimal, is_percent: bool) -> Decimal {
    if is_percent {
        mul_spec(end, refm)
    } else {
        end
    }
}

/// The aggregate an aggregator caches: the modifier sum, rounded, then
/// clamped into the effective bounds. Kept opaque: callers reason about the
/// aggregate as a value.
#[verifier::opaque]
pub open spec fn agg_value_spec(
    mods: Seq<Modifier>,
    refm: Decimal,
    bounds: Bounds,
    rf: RoundingHelper,
    is_min_percent: bool,
    is_max_percent: bool,
) -> Decimal {
    clamp_spec(
        apply_rounding_spec(rf, mods_sum(mods, refm)),
        effective_bound(bounds.v_min, refm, is_min_percent),
        effective_bound(bounds.v_max, refm, is_max_percent),
    )
}

/// The modifiers of `mods` that have not expired at `ts`, in order.
pub open spec fn surviving_mods(mods: Seq<Modifier>, ts: u64) -> Seq<Modifier>
    decreases mods.len(),
{
    if mods.len() == 0 {
        mods
    } else {
        let rest = surviving_mods(mods.drop_last(), ts);
        if mods.last().has_expired_spec(ts) {
            rest
        } else {
            rest.push(mods.last())
        }
    }
}

/// Sweep completeness: after a sweep at `ts`, no surviving modifier reports
/// itself expired at `ts`, nor at any earlier time.
pub proof fn lemma_survivors_not_expired(mods: Seq<Modifier>, ts: u64, ts2: u64)
    requires
        ts2 <= ts,
    ensures
        forall|i: int|
            0 <= i < surviving_mods(mods, ts).len() ==> !(#[trigger] surviving_mods(mods, ts)[i])
                .has_expired_spec(ts2),
    decreases mods.len(),
{
    if mods.len() > 0 {
        lemma_survivors_not_expired(mods.drop_last(), ts, ts2);
        let rest = surviving_mods(mods.drop_last(), ts);
        let all = surviving_mods(mods, ts);
        if !mods.last().has_expired_spec(ts) {
            assert(all == rest.push(mods.last()));
            assert forall|i: int| 0 <= i < all.len() implies !(#[trigger] all[i]).has_expired_spec(
                ts2,
            ) by {
                if i < rest.len() {
                    assert(all[i] == rest[i]);
                } else {
                    assert(all[i] == mods.last());
                }
            }
        }
    }
}

/// Aggregate bounding law: whenever the effective bounds are defined and
/// ordered and the rounded modifier sum is defined, the cached aggregate
/// lies within the effective bounds.
pub proof fn lemma_aggregate_within_effective_bounds(
    mods: Seq<Modifier>,
    refm: Decimal,
    bounds: Bounds,
    rf: RoundingHelper,
    is_min_percent: bool,
    is_max_percent: bool,
)
    requires
        !effective_bound(bounds.v_min, refm, is_min_percent).is_nan_spec(),
        !effective_bound(bounds.v_max, refm, is_max_percent).is_nan_spec(),
        le_spec(
            effective_bound(bounds.v_min, refm, is_min_percent),
            effective_bound(bounds.v_max, refm, is_max_percent),
        ),
        !apply_rounding_spec(rf, mods_sum(mods, refm)).is_nan_spec(),
    ensures
        le_spec(
            effective_bound(bounds.v_min, refm, is_min_percent),
            agg_value_spec(mods, refm, bounds, rf, is_min_percent, is_max_percent),
        ),
        le_spec(
            agg_value_spec(mods, refm, bounds, rf, is_min_percent, is_max_percent),
            effective_bound(bounds.v_max, refm, is_max_percent),
        ),
{
    reveal(agg_value_spec);
    crate::num::lemma_clamp_within(
        apply_rounding_spec(rf, mods_sum(mods, refm)),
        effective_bound(bounds.v_min, refm, is_min_percent),
        effective_bound(bounds.v_max, refm, is_max_percent),
    );
}

impl ModConf {
    /// The cached value is representable, the components are sound, and every
    /// held modifier is sound.
    pub open spec fn wf(self) -> bool {
        &&& self.value.wf()
        &&& self.bounds.wf()
        &&& self.rounding_fn.wf()
        &&& forall|i: int| 0 <= i < self.mod_vec@.len() ==> (#[trigger] self.mod_vec@[i]).wf()
    }

    /// Builds an empty aggregator for the given stage; its cached value
    /// starts at zero.
    pub fn new(
        stage: ModCalcStage,
        bounds: Bounds,
        rounding_fn: RoundingHelper,
        is_min_percent: bool,
        is_max_percent: bool,
    ) -> (r: Self)
        requires
            bounds.wf(),
            rounding_fn.wf(),
        ensures
            r == (ModConf {
                value: zero_spec(),
                stage,
                bounds,
                rounding_fn,
                mod_vec: r.mod_vec,
                is_min_percent,
                is_max_percent,
            }),
            r.mod_vec@ == Seq::<Modifier>::empty(),
            r.wf(),
    {
        let mod_vec: Vec<Modifier> = Vec::new();
        proof {
            assert(mod_vec@ =~= Seq::<Modifier>::empty());
        }
        ModConf {
            value: Decimal::zero(),
            stage,
            bounds,
            rounding_fn,
            mod_vec,
            is_min_percent,
            is_max_percent,
        }
    }

    /// Appends a modifier after checking that its stage matches this
    /// aggregator and that the reference magnitude is defined, then
    /// recomputes the aggregate against that magnitude.
    pub fn append_mod(&mut self, value: Decimal, modifier: Modifier) -> (r: Result<
        (),
        CharStatError,
    >)
        requires
            old(self).wf(),
            value.wf(),
            modifier.wf(),
        ensures
            modifier.common.stage != old(self).stage ==> r == Err::<(), CharStatError>(
                CharStatError::LogicIssue(
                    CsLogicIssue::InvalidModifierStage(modifier.common.stage, old(self).stage),
                ),
            ) && *final(self) == *old(self),
            modifier.common.stage == old(self).stage && value.is_nan_spec() ==> (r matches Err(e)
                && is_nan_error(e, "value"@) && *final(self) == *old(self)),
            modifier.common.stage == old(self).stage && !value.is_nan_spec() ==> r == Ok::<
                (),
                CharStatError,
            >(()) && final(self).mod_vec@ == old(self).mod_vec@.push(modifier) && *final(self) == (
            ModConf {
                value: agg_value_spec(
                    old(self).mod_vec@.push(modifier),
                    value,
                    old(self).bounds,
                    old(self).rounding_fn,
                    old(self).is_min_percent,
                    old(self).is_max_percent,
                ),
                mod_vec: final(self).mod_vec,
                ..*old(self)
            }),
            final(self).wf(),
    {
        let stage = modifier.calc_stage();
        if stage != self.stage {
            return Err(CsLogicIssue::InvalidModifierStage(stage, self.stage).into());
        }
        if value.is_nan() {
            return Err(CsInvalidValue::Nan("value".to_owned()).into());
        }
        self.mod_vec.push(modifier);
        self.update(value);
        Ok(())
    }

    /// Appends a modifier without the stage check (for callers that have
    /// already dispatched by stage), then recomputes the aggregate.
    pub fn append_mod_unchecked(&mut self, value: Decimal, modifier: Modifier)
        requires
            old(self).wf(),
            value.wf(),
            modifier.wf(),
        ensures
            final(self).mod_vec@ == old(self).mod_vec@.push(modifier),
            *final(self) == (ModConf {
                value: agg_value_spec(
                    old(self).mod_vec@.push(modifier),
                    value,
                    old(self).bounds,
                    old(self).rounding_fn,
                    old(self).is_min_percent,
                    old(self).is_max_percent,
                ),
                mod_vec: final(self).mod_vec,
                ..*old(self)
            }),
            final(self).wf(),
    {
        self.mod_vec.push(modifier);
        self.update(value);
    }

    /// Reads the cached aggregate.
    pub fn value(&self) -> (r: Decimal)
        ensures
            r == self.value,
    {
        self.value
    }

    /// Drops every modifier expired at `ts`, keeping the order of the rest.
    /// The cached aggregate is left as it was: callers recompute it against
    /// their reference magnitude.
    pub fn remove_expired(&mut self, ts: u64)
        requires
            old(self).wf(),
        ensures
            final(self).mod_vec@ == surviving_mods(old(self).mod_vec@, ts),
            *final(self) == (ModConf { mod_vec: final(self).mod_vec, ..*old(self) }),
            final(self).wf(),
    {
        let ghost orig = self.mod_vec@;
        let mut kept: Vec<Modifier> = Vec::new();
        proof {
            assert(orig.take(0) =~= Seq::<Modifier>::empty());
            assert(kept@ =~= surviving_mods(orig.take(0), ts));
        }
        let mut i: usize = 0;
        while i < self.mod_vec.len()
            invariant
                i <= self.mod_vec@.len(),
                self.mod_vec@ == orig,
                old(self).wf(),
                *self == *old(self),
                kept@ == surviving_mods(orig.take(i as int), ts),
                forall|j: int| 0 <= j < kept@.len() ==> (#[trigger] kept@[j]).wf(),
            decreases self.mod_vec@.len() - i,
        {
            let m = self.mod_vec[i];
            if !m.has_expired(ts) {
                kept.push(m);
            }
            proof {
                assert(orig.take(i + 1).drop_last() =~= orig.take(i as int));
                assert(orig.take(i + 1).last() == orig[i as int]);
            }
            i = i + 1;
        }
        proof {
            assert(orig.take(orig.len() as int) =~= orig);
        }
        self.mod_vec = kept;
    }

    /// Recomputes the cached aggregate against the given reference magnitude:
    /// the modifiers are folded in order into a sum, the sum is rounded, and
    /// the result is clamped into the effective bounds.
    pub fn update(&mut self, value: Decimal)
        requires
            old(self).wf(),
            value.wf(),
        ensures
            *final(self) == (ModConf {
                value: agg_value_spec(
                    old(self).mod_vec@,
                    value,
                    old(self).bounds,
                    old(self).rounding_fn,
                    old(self).is_min_percent,
                    old(self).is_max_percent,
                ),
                ..*old(self)
            }),
            final(self).value.wf(),
            final(self).wf(),
    {
        proof {
            reveal(agg_value_spec);
        }
        let ghost orig = self.mod_vec@;
        let mut tmp = Decimal::zero();
        proof {
            assert(orig.take(0) =~= Seq::<Modifier>::empty());
        }
        let mut i: usize = 0;
        while i < self.mod_vec.len()
            invariant
                i <= self.mod_vec@.len(),
                self.mod_vec@ == orig,
                old(self).wf(),
                *self == *old(self),
                value.wf(),
                tmp.wf(),
                tmp == mods_sum(orig.take(i as int), value),
            decreases self.mod_vec@.len() - i,
        {
            let m = self.mod_vec[i];
            assert(m == orig[i as int]);
            match m.calc_mode() {
                ModCalcMode::Add => {
                    tmp = tmp.plus(m.value());
                },
                ModCalcMode::Sub => {
                    tmp = tmp.minus(m.value());
                },
                ModCalcMode::Mul => {
                    tmp = tmp.plus(m.value().times(value));
                },
                ModCalcMode::Div => {
                    tmp = tmp.plus(value.divided_by(m.value()));
                },
            }
            proof {
                assert(orig.take(i + 1).drop_last() =~= orig.take(i as int));
                assert(orig.take(i + 1).last() == orig[i as int]);
            }
            i = i + 1;
        }
        proof {
            assert(orig.take(orig.len() as int) =~= orig);
        }
        let mut eff_min = self.bounds.min();
        let mut eff_max = self.bounds.max();
        if self.is_min_percent {
            eff_min = eff_min.times(value);
        }
        if self.is_max_percent {
            eff_max = eff_max.times(value);
        }
        let rounded = self.rounding_fn.do_rounding(tmp);
        self.value = rounded.clamp_to(eff_min, eff_max);
    }

    /// Replaces the rounding policy; the cached aggregate is left as it was.
    pub fn set_rounding(&mut self, new_val: RoundingHelper)
        requires
            new_val.wf(),
        ensures
            *final(self) == (ModConf { rounding_fn: new_val, ..*old(self) }),
    {
        self.rounding_fn = new_val;
    }
}

// bounds
impl ModConf {
    /// Moves the lower bound; see [`Bounds::set_min`].
    pub fn set_bounds_min(&mut self, new_val: Decimal) -> (r: Result<(), CharStatError>)
        requires
            old(self).wf(),
            new_val.wf(),
        ensures
            *final(self) == (ModConf { bounds: final(self).bounds, ..*old(self) }),
            set_min_result(old(self).bounds, final(self).bounds, r, new_val),
            final(self).wf(),
    {
        self.bounds.set_min(new_val)
    }

    /// Moves the upper bound; see [`Bounds::set_max`].
    pub fn set_bounds_max(&mut self, new_val: Decimal) -> (r: Result<(), CharStatError>)
        requires
            old(self).wf(),
            new_val.wf(),
        ensures
            *final(self) == (ModConf { bounds: final(self).bounds, ..*old(self) }),
            set_max_result(old(self).bounds, final(self).bounds, r, new_val),
            final(self).wf(),
    {
        self.bounds.set_max(new_val)
    }

    /// Freezes the lower bound.
    pub fn set_bounds_min_const(&mut self)
        ensures
            *final(self) == (ModConf {
                bounds: Bounds { is_min_mut: false, ..old(self).bounds },
                ..*old(self)
            }),
    {
        self.bounds.set_min_const();
    }

    /// Freezes the upper bound.
    pub fn set_bounds_max_const(&mut self)
        ensures
            *final(self) == (ModConf {
                bounds: Bounds { is_max_mut: false, ..old(self).bounds },
                ..*old(self)
            }),
    {
        self.bounds.set_max_const();
    }

    pub fn bounds_min(&self) -> (r: Decimal)
        ensures
            r == self.bounds.v_min,
    {
        self.bounds.min()
    }

    pub fn bounds_max(&self) -> (r: Decimal)
        ensures
            r == self.bounds.v_max,
    {
        self.bounds.max()
    }
}

} // verus!
