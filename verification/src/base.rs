//! The scaled base term: a bounded, optionally mutable scalar, optionally
//! post-multiplied by a power-law multiplier, then rounded at read time.

use vstd::prelude::*;

verus! {

use crate::base_mult::{
    set_base_clamping_result, set_base_result, set_exponent_clamping_result, set_exponent_result,
    BaseMultConf,
};
use crate::bounds::{accepted_by, check_inval, check_inval_result, Bounds};
use crate::errors::{is_nan_error, CharStatError, CsInvalidValue, CsLogicIssue, CsMissingComponent};
use crate::num::{clamp_spec, mul_spec, Decimal};
use crate::rounding::{apply_rounding_spec, RoundingHelper};

/// The base value with its mutability flag, bounds, read-time rounding and
/// optional multiplier.
#[derive(Debug, Clone, PartialEq, Structural)]
pub struct BaseConf {
    pub value: Decimal,
    pub is_mut: bool,
    pub bounds: Bounds,
    pub rounding_fn: RoundingHelper,
    pub mult: Option<BaseMultConf>,
}

/// What reading the base term returns: the raw value, multiplied by the
/// cached factor when a multiplier is attached, rounded under the term's
/// policy. Kept opaque: callers reason about the read as a value.
#[verifier::opaque]
pub open spec fn base_value_spec(b: BaseConf) -> Decimal {
    apply_rounding_spec(
        b.rounding_fn,
        match b.mult {
            Some(m) => mul_spec(b.value, m.multiplier),
            None => b.value,
        },
    )
}

/// Reading the base term depends only on its raw value, its rounding policy
/// and its multiplier — not on the mutability flag or the bounds.
pub proof fn lemma_base_value_same(a: BaseConf, b: BaseConf)
    requires
        a.value == b.value,
        a.rounding_fn == b.rounding_fn,
        a.mult == b.mult,
    ensures
        base_value_spec(a) == base_value_spec(b),
{
    reveal(base_value_spec);
}

impl BaseConf {
    /// The raw value is a defined, representable number and every component
    /// is sound.
    pub open spec fn wf(self) -> bool {
        &&& self.value.wf()
        &&& !self.value.is_nan_spec()
        &&& self.bounds.wf()
        &&& self.rounding_fn.wf()
        &&& self.mult matches Some(m) ==> m.wf()
    }

    /// Builds a base term, validating the value strictly against the bounds.
    pub fn new(
        value: Decimal,
        is_mut: bool,
        bounds: Bounds,
        rounding_fn: RoundingHelper,
        mult: Option<BaseMultConf>,
    ) -> (r: Result<Self, CharStatError>)
        requires
            value.wf(),
            bounds.wf(),
            rounding_fn.wf(),
            mult matches Some(m) ==> m.wf(),
        ensures
            !accepted_by(value, bounds) ==> (r matches Err(e) && check_inval_result(
                Err(e),
                value,
                bounds,
                "value"@,
            )),
            accepted_by(value, bounds) ==> r == Ok::<Self, CharStatError>(
                BaseConf { value, is_mut, bounds, rounding_fn, mult },
            ),
            r matches Ok(b) ==> b.wf(),
    {
        if let Err(e) = check_inval(value, &bounds, "value") {
            return Err(e);
        }
        Ok(BaseConf { value, is_mut, bounds, rounding_fn, mult })
    }

    /// Builds a base term, clamping the value into the bounds; only an
    /// undefined value is rejected.
    pub fn new_clamping(
        value: Decimal,
        is_mut: bool,
        bounds: Bounds,
        rounding_fn: RoundingHelper,
        mult: Option<BaseMultConf>,
    ) -> (r: Result<Self, CharStatError>)
        requires
            value.wf(),
            bounds.wf(),
            rounding_fn.wf(),
            mult matches Some(m) ==> m.wf(),
        ensures
            value.is_nan_spec() ==> (r matches Err(e) && is_nan_error(e, "value"@)),
            !value.is_nan_spec() ==> r == Ok::<Self, CharStatError>(
                BaseConf {
                    value: clamp_spec(value, bounds.v_min, bounds.v_max),
                    is_mut,
                    bounds,
                    rounding_fn,
                    mult,
                },
            ),
            r matches Ok(b) ==> b.wf(),
    {
        if value.is_nan() {
            return Err(CsInvalidValue::Nan("value".to_owned()).into());
        }
        let value = value.clamp_to(bounds.v_min, bounds.v_max);
        Ok(BaseConf { value, is_mut, bounds, rounding_fn, mult })
    }

    /// Replaces the raw value after strict validation; refused while the
    /// value is immutable.
    pub fn set_value(&mut self, value: Decimal) -> (r: Result<(), CharStatError>)
        requires
            old(self).wf(),
            value.wf(),
        ensures
            !old(self).is_mut ==> r == Err::<(), CharStatError>(
                CharStatError::LogicIssue(CsLogicIssue::FieldIsConst),
            ) && *final(self) == *old(self),
            old(self).is_mut && !accepted_by(value, old(self).bounds) ==> (r matches Err(e)
                && check_inval_result(Err(e), value, old(self).bounds, "value"@) && *final(self)
                == *old(self)),
            old(self).is_mut && accepted_by(value, old(self).bounds) ==> r == Ok::<
                (),
                CharStatError,
            >(()) && *final(self) == (BaseConf { value, ..*old(self) }),
            final(self).wf(),
    {
        if !self.is_mut {
            return Err(CsLogicIssue::FieldIsConst.into());
        }
        if let Err(e) = check_inval(value, &self.bounds, "value") {
            return Err(e);
        }
        self.value = value;
        Ok(())
    }

    /// Replaces the raw value, clamped into the bounds; refused while the
    /// value is immutable or on an undefined value.
    pub fn set_value_clamping(&mut self, value: Decimal) -> (r: Result<(), CharStatError>)
        requires
            old(self).wf(),
            value.wf(),
        ensures
            !old(self).is_mut ==> r == Err::<(), CharStatError>(
                CharStatError::LogicIssue(CsLogicIssue::FieldIsConst),
            ) && *final(self) == *old(self),
            old(self).is_mut && value.is_nan_spec() ==> (r matches Err(e) && is_nan_error(
                e,
                "value"@,
            ) && *final(self) == *old(self)),
            old(self).is_mut && !value.is_nan_spec() ==> r == Ok::<(), CharStatError>(())
                && *final(self) == (BaseConf {
                value: clamp_spec(value, old(self).bounds.v_min, old(self).bounds.v_max),
                ..*old(self)
            }),
            final(self).wf(),
    {
        if !self.is_mut {
            return Err(CsLogicIssue::FieldIsConst.into());
        }
        if value.is_nan() {
            return Err(CsInvalidValue::Nan("value".to_owned()).into());
        }
        self.value = value.clamp_to(self.bounds.v_min, self.bounds.v_max);
        Ok(())
    }

    /// Reads the term: raw value times the cached factor (when a multiplier
    /// is attached), rounded.
    pub fn value(&self) -> (r: Decimal)
        requires
            self.wf(),
        ensures
            r == base_value_spec(*self),
            r.wf(),
    {
        proof {
            reveal(base_value_spec);
        }
        let mut out = self.value;
        if let Some(mlt) = &self.mult {
            out = mlt.calculate(out);
        }
        self.rounding_fn.do_rounding(out)
    }

    /// Freezes the raw value: a one-way transition.
    pub fn set_value_const(&mut self)
        ensures
            *final(self) == (BaseConf { is_mut: false, ..*old(self) }),
    {
        self.is_mut = false;
    }

    /// Replaces the read-time rounding policy.
    pub fn set_rounding(&mut self, new_val: RoundingHelper)
        requires
            new_val.wf(),
        ensures
            *final(self) == (BaseConf { rounding_fn: new_val, ..*old(self) }),
    {
        self.rounding_fn = new_val;
    }
}

// bounds
impl BaseConf {
    /// Moves the lower bound; see [`Bounds::set_min`].
    pub fn set_bounds_min(&mut self, new_val: Decimal) -> (r: Result<(), CharStatError>)
        requires
            old(self).wf(),
            new_val.wf(),
        ensures
            *final(self) == (BaseConf { bounds: final(self).bounds, ..*old(self) }),
            crate::bounds::set_min_result(old(self).bounds, final(self).bounds, r, new_val),
            final(self).wf(),
    {
        self.bounds.set_min(new_val)
    }

    /// Moves the upper bound; see [`Bounds::set_max`].
    pub fn set_bounds_max(&mut self, new_val: Decimal) -> (r: Result<(), CharStatError>)
        requires
            old(self).wf(),
            new_val.wf(),
        ensures
            *final(self) == (BaseConf { bounds: final(self).bounds, ..*old(self) }),
            crate::bounds::set_max_result(old(self).bounds, final(self).bounds, r, new_val),
            final(self).wf(),
    {
        self.bounds.set_max(new_val)
    }

    /// Freezes the lower bound.
    pub fn set_bounds_min_const(&mut self)
        ensures
            *final(self) == (BaseConf {
                bounds: Bounds { is_min_mut: false, ..old(self).bounds },
                ..*old(self)
            }),
    {
        self.bounds.set_min_const();
    }

    /// Freezes the upper bound.
    pub fn set_bounds_max_const(&mut self)
        ensures
            *final(self) == (BaseConf {
                bounds: Bounds { is_max_mut: false, ..old(self).bounds },
                ..*old(self)
            }),
    {
        self.bounds.set_max_const();
    }

    pub fn bounds_min(&self) -> (r: Decimal)
        ensures
            r == self.bounds.v_min,
    {
        self.bounds.min()
    }

    pub fn bounds_max(&self) -> (r: Decimal)
        ensures
            r == self.bounds.v_max,
    {
        self.bounds.max()
    }
}

// multiplier
impl BaseConf {
    /// Replaces the multiplier's base; refused when no multiplier is
    /// attached.
    pub fn set_mult_base(&mut self, new_val: Decimal) -> (r: Result<(), CharStatError>)
        requires
            old(self).wf(),
            new_val.wf(),
        ensures
            old(self).mult is None ==> r == Err::<(), CharStatError>(
                CharStatError::MissingComponent(CsMissingComponent::BaseMult),
            ) && *final(self) == *old(self),
            old(self).mult matches Some(m) ==> (final(self).mult matches Some(m2)
                && set_base_result(m, m2, r, new_val) && *final(self) == (BaseConf {
                mult: final(self).mult,
                ..*old(self)
            })),
            final(self).wf(),
    {
        if let Some(mlt) = &mut self.mult {
            return mlt.set_base(new_val);
        }
        Err(CsMissingComponent::BaseMult.into())
    }

    /// Replaces the multiplier's exponent; refused when no multiplier is
    /// attached.
    pub fn set_mult_exponent(&mut self, new_val: Decimal) -> (r: Result<(), CharStatError>)
        requires
            old(self).wf(),
            new_val.wf(),
        ensures
            old(self).mult is None ==> r == Err::<(), CharStatError>(
                CharStatError::MissingComponent(CsMissingComponent::BaseMult),
            ) && *final(self) == *old(self),
            old(self).mult matches Some(m) ==> (final(self).mult matches Some(m2)
                && set_exponent_result(m, m2, r, new_val) && *final(self) == (BaseConf {
                mult: final(self).mult,
                ..*old(self)
            })),
            final(self).wf(),
    {
        if let Some(mlt) = &mut self.mult {
            return mlt.set_exponent(new_val);
        }
        Err(CsMissingComponent::BaseMult.into())
    }

    /// Replaces the multiplier's base, clamped into its bounds; refused when
    /// no multiplier is attached.
    pub fn set_mult_base_clamping(&mut self, new_val: Decimal) -> (r: Result<(), CharStatError>)
        requires
            old(self).wf(),
            new_val.wf(),
        ensures
            old(self).mult is None ==> r == Err::<(), CharStatError>(
                CharStatError::MissingComponent(CsMissingComponent::BaseMult),
            ) && *final(self) == *old(self),
            old(self).mult matches Some(m) ==> (final(self).mult matches Some(m2)
                && set_base_clamping_result(m, m2, r, new_val) && *final(self) == (BaseConf {
                mult: final(self).mult,
                ..*old(self)
            })),
            final(self).wf(),
    {
        if let Some(mlt) = &mut self.mult {
            return mlt.set_base_clamping(new_val);
        }
        Err(CsMissingComponent::BaseMult.into())
    }

    /// Replaces the multiplier's exponent, clamped into its bounds; refused
    /// when no multiplier is attached.
    pub fn set_mult_exponent_clamping(&mut self, new_val: Decimal) -> (r: Result<
        (),
        CharStatError,
    >)
        requires
            old(self).wf(),
            new_val.wf(),
        ensures
            old(self).mult is None ==> r == Err::<(), CharStatError>(
                CharStatError::MissingComponent(CsMissingComponent::BaseMult),
            ) && *final(self) == *old(self),
            old(self).mult matches Some(m) ==> (final(self).mult matches Some(m2)
                && set_exponent_clamping_result(m, m2, r, new_val) && *final(self) == (BaseConf {
                mult: final(self).mult,
                ..*old(self)
            })),
            final(self).wf(),
    {
        if let Some(mlt) = &mut self.mult {
            return mlt.set_exponent_clamping(new_val);
        }
        Err(CsMissingComponent::BaseMult.into())
    }
}

} // verus!
