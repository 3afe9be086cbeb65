//! The upgrade term: a bounded scalar with no multiplier, rounded at write
//! time rather than at read time.

use vstd::prelude::*;

verus! {

use crate::bounds::{
    accepted_by, check_inval, check_inval_result, set_max_result, set_min_result, Bounds,
};
use crate::errors::{is_nan_error, CharStatError, CsInvalidValue};
use crate::num::{clamp_spec, Decimal};
use crate::rounding::{apply_rounding_spec, RoundingHelper};

/// The upgrade value with its bounds and write-time rounding.
#[derive(Debug, Clone, PartialEq, Structural)]
pub struct UpgradeConf {
    pub value: Decimal,
    pub bounds: Bounds,
    pub rounding_fn: RoundingHelper,
}

impl UpgradeConf {
    /// The stored value is representable and every component is sound.
    pub open spec fn wf(self) -> bool {
        &&& self.value.wf()
        &&& self.bounds.wf()
        &&& self.rounding_fn.wf()
    }

    /// Builds an upgrade term: the value is validated strictly against the
    /// bounds, then stored rounded.
    pub fn new(value: Decimal, bounds: Bounds, rounding_fn: RoundingHelper) -> (r: Result<
        Self,
        CharStatError,
    >)
        requires
            value.wf(),
            bounds.wf(),
            rounding_fn.wf(),
        ensures
            !accepted_by(value, bounds) ==> (r matches Err(e) && check_inval_result(
                Err(e),
                value,
                bounds,
                "value"@,
            )),
            accepted_by(value, bounds) ==> r == Ok::<Self, CharStatError>(
                UpgradeConf { value: apply_rounding_spec(rounding_fn, value), bounds, rounding_fn },
            ),
            r matches Ok(u) ==> u.wf(),
    {
        if let Err(e) = check_inval(value, &bounds, "value") {
            return Err(e);
        }
        let value = rounding_fn.do_rounding(value);
        Ok(UpgradeConf { value, bounds, rounding_fn })
    }

    /// Builds an upgrade term: an undefined value is rejected, and the value
    /// is stored rounded, then clamped into the bounds.
    pub fn new_clamping(value: Decimal, bounds: Bounds, rounding_fn: RoundingHelper) -> (r: Result<
        Self,
        CharStatError,
    >)
        requires
            value.wf(),
            bounds.wf(),
            rounding_fn.wf(),
        ensures
            value.is_nan_spec() ==> (r matches Err(e) && is_nan_error(e, "value"@)),
            !value.is_nan_spec() ==> r == Ok::<Self, CharStatError>(
                UpgradeConf {
                    value: clamp_spec(
                        apply_rounding_spec(rounding_fn, value),
                        bounds.v_min,
                        bounds.v_max,
                    ),
                    bounds,
                    rounding_fn,
                },
            ),
            r matches Ok(u) ==> u.wf(),
    {
        if value.is_nan() {
            return Err(CsInvalidValue::Nan("value".to_owned()).into());
        }
        let value = rounding_fn.do_rounding(value);
        let value = value.clamp_to(bounds.v_min, bounds.v_max);
        Ok(UpgradeConf { value, bounds, rounding_fn })
    }

    /// Replaces the value after strict validation; the accepted value is
    /// stored rounded.
    pub fn set_value(&mut self, value: Decimal) -> (r: Result<(), CharStatError>)
        requires
            old(self).wf(),
            value.wf(),
        ensures
            !accepted_by(value, old(self).bounds) ==> (r matches Err(e) && check_inval_result(
                Err(e),
                value,
                old(self).bounds,
                "value"@,
            ) && *final(self) == *old(self)),
            accepted_by(value, old(self).bounds) ==> r == Ok::<(), CharStatError>(())
                && *final(self) == (UpgradeConf {
                value: apply_rounding_spec(old(self).rounding_fn, value),
                ..*old(self)
            }),
            final(self).wf(),
    {
        if let Err(e) = check_inval(value, &self.bounds, "value") {
            return Err(e);
        }
        let value = self.rounding_fn.do_rounding(value);
        self.value = value;
        Ok(())
    }

    /// Replaces the value: an undefined value is rejected, and the value is
    /// stored rounded, then clamped into the bounds.
    pub fn set_value_clamping(&mut self, value: Decimal) -> (r: Result<(), CharStatError>)
        requires
            old(self).wf(),
            value.wf(),
        ensures
            value.is_nan_spec() ==> (r matches Err(e) && is_nan_error(e, "value"@) && *final(self)
                == *old(self)),
            !value.is_nan_spec() ==> r == Ok::<(), CharStatError>(()) && *final(self) == (
            UpgradeConf {
                value: clamp_spec(
                    apply_rounding_spec(old(self).rounding_fn, value),
                    old(self).bounds.v_min,
                    old(self).bounds.v_max,
                ),
                ..*old(self)
            }),
            final(self).wf(),
    {
        if value.is_nan() {
            return Err(CsInvalidValue::Nan("value".to_owned()).into());
        }
        let value = self.rounding_fn.do_rounding(value);
        self.value = value.clamp_to(self.bounds.v_min, self.bounds.v_max);
        Ok(())
    }

    /// Reads the stored (already rounded) value.
    pub fn value(&self) -> (r: Decimal)
        ensures
            r == self.value,
    {
        self.value
    }
}

// bounds
impl UpgradeConf {
    /// Moves the lower bound; see [`Bounds::set_min`].
    pub fn set_bounds_min(&mut self, new_val: Decimal) -> (r: Result<(), CharStatError>)
        requires
            old(self).wf(),
            new_val.wf(),
        ensures
            *final(self) == (UpgradeConf { bounds: final(self).bounds, ..*old(self) }),
            set_min_result(old(self).bounds, final(self).bounds, r, new_val),
            final(self).wf(),
    {
        self.bounds.set_min(new_val)
    }

    /// Moves the upper bound; see [`Bounds::set_max`].
    pub fn set_bounds_max(&mut self, new_val: Decimal) -> (r: Result<(), CharStatError>)
        requires
            old(self).wf(),
            new_val.wf(),
        ensures
            *final(self) == (UpgradeConf { bounds: final(self).bounds, ..*old(self) }),
            set_max_result(old(self).bounds, final(self).bounds, r, new_val),
            final(self).wf(),
    {
        self.bounds.set_max(new_val)
    }

    /// Freezes the lower bound.
    pub fn set_bounds_min_const(&mut self)
        ensures
            *final(self) == (UpgradeConf {
                bounds: Bounds { is_min_mut: false, ..old(self).bounds },
                ..*old(self)
            }),
    {
        self.bounds.set_min_const();
    }

    /// Freezes the upper bound.
    pub fn set_bounds_max_const(&mut self)
        ensures
            *final(self) == (UpgradeConf {
                bounds: Bounds { is_max_mut: false, ..old(self).bounds },
                ..*old(self)
            }),
    {
        self.bounds.set_max_const();
    }

    pub fn bounds_min(&self) -> (r: Decimal)
        ensures
            r == self.bounds.v_min,
    {
        self.bounds.min()
    }

    pub fn bounds_max(&self) -> (r: Decimal)
        ensures
            r == self.bounds.v_max,
    {
        self.bounds.max()
    }
}

} // verus!
