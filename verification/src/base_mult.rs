//! The power-law multiplier of the base term: a bounded base and a bounded
//! exponent, with a cached factor `base ^ exponent` kept rounded under the
//! component's own policy.

use vstd::prelude::*;

verus! {

use crate::bounds::{accepted_by, check_inval, check_inval_result, Bounds};
use crate::errors::{is_nan_error, CharStatError, CsInvalidValue};
use crate::num::{add_spec, clamp_spec, mul_spec, pow_spec, sub_spec, Decimal};
use crate::rounding::{apply_rounding_spec, RoundingHelper};

/// A bounded power-law multiplier with its cached factor.
#[derive(Debug, Clone, PartialEq, Structural)]
pub struct BaseMultConf {
    pub base: Decimal,
    pub exponent: Decimal,
    pub rounding_fn: RoundingHelper,
    pub bounds_base: Bounds,
    pub bounds_exp: Bounds,
    pub multiplier: Decimal,
}

/// The factor a multiplier configuration caches: `base ^ exponent`, rounded
/// under its policy. Kept opaque: callers reason about the factor as a value.
#[verifier::opaque]
pub open spec fn factor_spec(base: Decimal, exponent: Decimal, rf: RoundingHelper) -> Decimal {
    apply_rounding_spec(rf, pow_spec(base, exponent))
}

/// What a base update reports and leaves behind: strict validation against
/// the base bounds under the name `base`, an unchanged configuration on
/// failure, and the stored base plus a recomputed factor on success.
pub open spec fn set_base_result(
    pre: BaseMultConf,
    post: BaseMultConf,
    r: Result<(), CharStatError>,
    new_val: Decimal,
) -> bool {
    &&& new_val.is_nan_spec() ==> (r matches Err(e) && is_nan_error(e, "base"@) && post == pre)
    &&& !accepted_by(new_val, pre.bounds_base) ==> r is Err && post == pre
    &&& accepted_by(new_val, pre.bounds_base) ==> r == Ok::<(), CharStatError>(()) && post == (
    BaseMultConf {
        base: new_val,
        multiplier: factor_spec(new_val, pre.exponent, pre.rounding_fn),
        ..pre
    })
}

/// As [`set_base_result`], for the exponent under the name `exponent`.
pub open spec fn set_exponent_result(
    pre: BaseMultConf,
    post: BaseMultConf,
    r: Result<(), CharStatError>,
    new_val: Decimal,
) -> bool {
    &&& new_val.is_nan_spec() ==> (r matches Err(e) && is_nan_error(e, "exponent"@) && post == pre)
    &&& !accepted_by(new_val, pre.bounds_exp) ==> r is Err && post == pre
    &&& accepted_by(new_val, pre.bounds_exp) ==> r == Ok::<(), CharStatError>(()) && post == (
    BaseMultConf {
        exponent: new_val,
        multiplier: factor_spec(pre.base, new_val, pre.rounding_fn),
        ..pre
    })
}

/// What a clamping base update leaves behind: only an undefined value is
/// rejected; otherwise the base is clamped into its bounds and the factor
/// recomputed.
pub open spec fn set_base_clamping_result(
    pre: BaseMultConf,
    post: BaseMultConf,
    r: Result<(), CharStatError>,
    new_val: Decimal,
) -> bool {
    &&& new_val.is_nan_spec() ==> (r matches Err(e) && is_nan_error(e, "base"@) && post == pre)
    &&& !new_val.is_nan_spec() ==> r == Ok::<(), CharStatError>(()) && post == (BaseMultConf {
        base: clamp_spec(new_val, pre.bounds_base.v_min, pre.bounds_base.v_max),
        multiplier: factor_spec(
            clamp_spec(new_val, pre.bounds_base.v_min, pre.bounds_base.v_max),
            pre.exponent,
            pre.rounding_fn,
        ),
        ..pre
    })
}

/// As [`set_base_clamping_result`], for the exponent.
pub open spec fn set_exponent_clamping_result(
    pre: BaseMultConf,
    post: BaseMultConf,
    r: Result<(), CharStatError>,
    new_val: Decimal,
) -> bool {
    &&& new_val.is_nan_spec() ==> (r matches Err(e) && is_nan_error(e, "exponent"@) && post == pre)
    &&& !new_val.is_nan_spec() ==> r == Ok::<(), CharStatError>(()) && post == (BaseMultConf {
        exponent: clamp_spec(new_val, pre.bounds_exp.v_min, pre.bounds_exp.v_max),
        multiplier: factor_spec(
            pre.base,
            clamp_spec(new_val, pre.bounds_exp.v_min, pre.bounds_exp.v_max),
            pre.rounding_fn,
        ),
        ..pre
    })
}

impl BaseMultConf {
    /// Components are sound, the base and exponent are defined, and the
    /// cached factor matches the current base, exponent and policy.
    pub open spec fn wf(self) -> bool {
        &&& self.base.wf()
        &&& !self.base.is_nan_spec()
        &&& self.exponent.wf()
        &&& !self.exponent.is_nan_spec()
        &&& self.bounds_base.wf()
        &&& self.bounds_exp.wf()
        &&& self.rounding_fn.wf()
        &&& self.multiplier.wf()
        &&& self.multiplier == factor_spec(self.base, self.exponent, self.rounding_fn)
    }

    /// Builds a multiplier; the base and the exponent are validated strictly
    /// against their own bounds, base first.
    pub fn new(
        base: Decimal,
        exponent: Decimal,
        bounds_base: Bounds,
        bounds_exp: Bounds,
        rounding_fn: RoundingHelper,
    ) -> (r: Result<Self, CharStatError>)
        requires
            base.wf(),
            exponent.wf(),
            bounds_base.wf(),
            bounds_exp.wf(),
            rounding_fn.wf(),
        ensures
            !accepted_by(base, bounds_base) ==> (r matches Err(e) && check_inval_result(
                Err(e),
                base,
                bounds_base,
                "base"@,
            )),
            accepted_by(base, bounds_base) && !accepted_by(exponent, bounds_exp) ==> (r matches Err(
                e,
            ) && check_inval_result(Err(e), exponent, bounds_exp, "exponent"@)),
            accepted_by(base, bounds_base) && accepted_by(exponent, bounds_exp) ==> r == Ok::<
                Self,
                CharStatError,
            >(
                BaseMultConf {
                    base,
                    exponent,
                    rounding_fn,
                    bounds_base,
                    bounds_exp,
                    multiplier: factor_spec(base, exponent, rounding_fn),
                },
            ),
            r matches Ok(c) ==> c.wf(),
    {
        if let Err(e) = check_inval(base, &bounds_base, "base") {
            return Err(e);
        }
        if let Err(e) = check_inval(exponent, &bounds_exp, "exponent") {
            return Err(e);
        }
        proof {
            reveal(factor_spec);
        }
        let multiplier = rounding_fn.do_rounding(base.powf(exponent));
        Ok(BaseMultConf { base, exponent, rounding_fn, bounds_base, bounds_exp, multiplier })
    }

    /// Builds a multiplier, clamping the base and the exponent into their
    /// bounds; only an undefined input is rejected.
    pub fn new_clamping(
        base: Decimal,
        exponent: Decimal,
        bounds_base: Bounds,
        bounds_exp: Bounds,
        rounding_fn: RoundingHelper,
    ) -> (r: Result<Self, CharStatError>)
        requires
            base.wf(),
            exponent.wf(),
            bounds_base.wf(),
            bounds_exp.wf(),
            rounding_fn.wf(),
        ensures
            base.is_nan_spec() ==> (r matches Err(e) && is_nan_error(e, "base"@)),
            !base.is_nan_spec() && exponent.is_nan_spec() ==> (r matches Err(e) && is_nan_error(
                e,
                "exponent"@,
            )),
            !base.is_nan_spec() && !exponent.is_nan_spec() ==> r == Ok::<Self, CharStatError>(
                BaseMultConf {
                    base: clamp_spec(base, bounds_base.v_min, bounds_base.v_max),
                    exponent: clamp_spec(exponent, bounds_exp.v_min, bounds_exp.v_max),
                    rounding_fn,
                    bounds_base,
                    bounds_exp,
                    multiplier: factor_spec(
                        clamp_spec(base, bounds_base.v_min, bounds_base.v_max),
                        clamp_spec(exponent, bounds_exp.v_min, bounds_exp.v_max),
                        rounding_fn,
                    ),
                },
            ),
            r matches Ok(c) ==> c.wf(),
    {
        if base.is_nan() {
            return Err(CsInvalidValue::Nan("base".to_owned()).into());
        }
        if exponent.is_nan() {
            return Err(CsInvalidValue::Nan("exponent".to_owned()).into());
        }
        proof {
            reveal(factor_spec);
        }
        let base = base.clamp_to(bounds_base.v_min, bounds_base.v_max);
        let exponent = exponent.clamp_to(bounds_exp.v_min, bounds_exp.v_max);
        let multiplier = rounding_fn.do_rounding(base.powf(exponent));
        Ok(BaseMultConf { base, exponent, rounding_fn, bounds_base, bounds_exp, multiplier })
    }

    /// Multiplies a value by the cached factor.
    pub fn calculate(&self, value: Decimal) -> (r: Decimal)
        requires
            self.wf(),
            value.wf(),
        ensures
            r == mul_spec(value, self.multiplier),
            r.wf(),
    {
        value.times(self.multiplier)
    }

    /// Replaces the base after strict validation and recomputes the factor.
    pub fn set_base(&mut self, base: Decimal) -> (r: Result<(), CharStatError>)
        requires
            old(self).wf(),
            base.wf(),
        ensures
            set_base_result(*old(self), *final(self), r, base),
            final(self).wf(),
    {
        if let Err(e) = check_inval(base, &self.bounds_base, "base") {
            return Err(e);
        }
        self.base = base;
        self.update();
        Ok(())
    }

    /// Replaces the base, clamped into its bounds, and recomputes the factor.
    pub fn set_base_clamping(&mut self, base: Decimal) -> (r: Result<(), CharStatError>)
        requires
            old(self).wf(),
            base.wf(),
        ensures
            set_base_clamping_result(*old(self), *final(self), r, base),
            final(self).wf(),
    {
        if base.is_nan() {
            return Err(CsInvalidValue::Nan("base".to_owned()).into());
        }
        self.base = base.clamp_to(self.bounds_base.v_min, self.bounds_base.v_max);
        self.update();
        Ok(())
    }

    /// Raises the base by the given amount, validated strictly.
    pub fn inc_base(&mut self, new_val: Decimal) -> (r: Result<(), CharStatError>)
        requires
            old(self).wf(),
            new_val.wf(),
        ensures
            set_base_result(*old(self), *final(self), r, add_spec(old(self).base, new_val)),
            final(self).wf(),
    {
        let target = self.base.plus(new_val);
        self.set_base(target)
    }

    /// Lowers the base by the given amount, validated strictly.
    pub fn dec_base(&mut self, new_val: Decimal) -> (r: Result<(), CharStatError>)
        requires
            old(self).wf(),
            new_val.wf(),
        ensures
            set_base_result(*old(self), *final(self), r, sub_spec(old(self).base, new_val)),
            final(self).wf(),
    {
        let target = self.base.minus(new_val);
        self.set_base(target)
    }

    /// Replaces the exponent after strict validation and recomputes the
    /// factor.
    pub fn set_exponent(&mut self, exponent: Decimal) -> (r: Result<(), CharStatError>)
        requires
            old(self).wf(),
            exponent.wf(),
        ensures
            set_exponent_result(*old(self), *final(self), r, exponent),
            final(self).wf(),
    {
        if let Err(e) = check_inval(exponent, &self.bounds_exp, "exponent") {
            return Err(e);
        }
        self.exponent = exponent;
        self.update();
        Ok(())
    }

    /// Replaces the exponent, clamped into its bounds, and recomputes the
    /// factor.
    pub fn set_exponent_clamping(&mut self, exponent: Decimal) -> (r: Result<(), CharStatError>)
        requires
            old(self).wf(),
            exponent.wf(),
        ensures
            set_exponent_clamping_result(*old(self), *final(self), r, exponent),
            final(self).wf(),
    {
        if exponent.is_nan() {
            return Err(CsInvalidValue::Nan("exponent".to_owned()).into());
        }
        self.exponent = exponent.clamp_to(self.bounds_exp.v_min, self.bounds_exp.v_max);
        self.update();
        Ok(())
    }

    /// Raises the exponent by the given amount, validated strictly.
    pub fn inc_exp(&mut self, new_val: Decimal) -> (r: Result<(), CharStatError>)
        requires
            old(self).wf(),
            new_val.wf(),
        ensures
            set_exponent_result(*old(self), *final(self), r, add_spec(old(self).exponent, new_val)),
            final(self).wf(),
    {
        let target = self.exponent.plus(new_val);
        self.set_exponent(target)
    }

    /// Lowers the exponent by the given amount, validated strictly.
    pub fn dec_exp(&mut self, new_val: Decimal) -> (r: Result<(), CharStatError>)
        requires
            old(self).wf(),
            new_val.wf(),
        ensures
            set_exponent_result(*old(self), *final(self), r, sub_spec(old(self).exponent, new_val)),
            final(self).wf(),
    {
        let target = self.exponent.minus(new_val);
        self.set_exponent(target)
    }

    /// Replaces the rounding policy and recomputes the factor under it.
    pub fn set_rounding(&mut self, new_val: RoundingHelper)
        requires
            old(self).wf(),
            new_val.wf(),
        ensures
            *final(self) == (BaseMultConf {
                rounding_fn: new_val,
                multiplier: factor_spec(old(self).base, old(self).exponent, new_val),
                ..*old(self)
            }),
            final(self).wf(),
    {
        self.rounding_fn = new_val;
        self.update();
    }

    /// Recomputes the cached factor from the current base, exponent and
    /// policy.
    fn update(&mut self)
        requires
            old(self).base.wf(),
            old(self).exponent.wf(),
            old(self).rounding_fn.wf(),
        ensures
            *final(self) == (BaseMultConf {
                multiplier: factor_spec(old(self).base, old(self).exponent, old(self).rounding_fn),
                ..*old(self)
            }),
            final(self).multiplier.wf(),
    {
        proof {
            reveal(factor_spec);
        }
        let val = self.base.powf(self.exponent);
        let mlt = self.rounding_fn.do_rounding(val);
        self.multiplier = mlt;
    }
}

} // verus!
