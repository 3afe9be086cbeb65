//! An inclusive numeric range whose two ends can each be frozen: a mutability
//! flag only ever moves from mutable to immutable.

use vstd::prelude::*;

verus! {

use crate::errors::{
    is_above_max_error, is_below_min_error, is_nan_error, CharStatError, CsInvalidValue,
    CsLogicIssue,
};
use crate::num::{ge_spec, gt_spec, le_spec, lt_spec, Decimal};

/// `v` passes strict validation against `b`: it is defined, not below the
/// minimum, and not above the maximum.
pub open spec fn accepted_by(v: Decimal, b: Bounds) -> bool {
    &&& !v.is_nan_spec()
    &&& !lt_spec(v, b.v_min)
    &&& !gt_spec(v, b.v_max)
}

/// What strict validation of `v` against `b` reports under the parameter
/// name: undefined first, then below-minimum, then above-maximum, else
/// acceptance.
pub open spec fn check_inval_result(
    r: Result<(), CharStatError>,
    v: Decimal,
    b: Bounds,
    name: Seq<char>,
) -> bool {
    &&& v.is_nan_spec() ==> (r matches Err(e) && is_nan_error(e, name))
    &&& !v.is_nan_spec() && lt_spec(v, b.v_min) ==> (r matches Err(e) && is_below_min_error(
        e,
        name,
    ))
    &&& !v.is_nan_spec() && !lt_spec(v, b.v_min) && gt_spec(v, b.v_max) ==> (r matches Err(e)
        && is_above_max_error(e, name))
    &&& accepted_by(v, b) ==> r == Ok::<(), CharStatError>(())
}

/// What moving the minimum reports and leaves behind: a frozen minimum wins,
/// then an undefined value, then an inverted ordering; on success only the
/// minimum moves.
pub open spec fn set_min_result(
    pre: Bounds,
    post: Bounds,
    r: Result<(), CharStatError>,
    new_val: Decimal,
) -> bool {
    &&& !pre.is_min_mut ==> r == Err::<(), CharStatError>(
        CharStatError::LogicIssue(CsLogicIssue::FieldIsConst),
    ) && post == pre
    &&& pre.is_min_mut && new_val.is_nan_spec() ==> (r matches Err(e) && is_nan_error(
        e,
        "new_val"@,
    ) && post == pre)
    &&& pre.is_min_mut && !new_val.is_nan_spec() && gt_spec(new_val, pre.v_max) ==> r == Err::<
        (),
        CharStatError,
    >(CharStatError::LogicIssue(CsLogicIssue::MinGreaterThanMax)) && post == pre
    &&& pre.is_min_mut && !new_val.is_nan_spec() && le_spec(new_val, pre.v_max) ==> r == Ok::<
        (),
        CharStatError,
    >(()) && post == (Bounds { v_min: new_val, ..pre })
}

/// As [`set_min_result`], for the maximum: on success only the maximum moves.
pub open spec fn set_max_result(
    pre: Bounds,
    post: Bounds,
    r: Result<(), CharStatError>,
    new_val: Decimal,
) -> bool {
    &&& !pre.is_max_mut ==> r == Err::<(), CharStatError>(
        CharStatError::LogicIssue(CsLogicIssue::FieldIsConst),
    ) && post == pre
    &&& pre.is_max_mut && new_val.is_nan_spec() ==> (r matches Err(e) && is_nan_error(
        e,
        "new_val"@,
    ) && post == pre)
    &&& pre.is_max_mut && !new_val.is_nan_spec() && gt_spec(pre.v_min, new_val) ==> r == Err::<
        (),
        CharStatError,
    >(CharStatError::LogicIssue(CsLogicIssue::MinGreaterThanMax)) && post == pre
    &&& pre.is_max_mut && !new_val.is_nan_spec() && ge_spec(new_val, pre.v_min) ==> r == Ok::<
        (),
        CharStatError,
    >(()) && post == (Bounds { v_max: new_val, ..pre })
}

/// Strict validation of a value against a range, reporting the failure under
/// the given parameter name.
pub(crate) fn check_inval(value: Decimal, bounds: &Bounds, name: &str) -> (r: Result<
    (),
    CharStatError,
>)
    ensures
        check_inval_result(r, value, *bounds, name@),
{
    if value.is_nan() {
        return Err(CsInvalidValue::Nan(name.to_owned()).into());
    }
    if value.lt(bounds.v_min) {
        return Err(CsInvalidValue::BelowMinimum(name.to_owned()).into());
    }
    if value.gt(bounds.v_max) {
        return Err(CsInvalidValue::AboveMaximum(name.to_owned()).into());
    }
    Ok(())
}

/// The allowed minimum and maximum, with one mutability flag per end.
#[derive(Debug, Clone, Copy, PartialEq, Structural)]
pub struct Bounds {
    pub v_min: Decimal,
    pub v_max: Decimal,
    pub is_min_mut: bool,
    pub is_max_mut: bool,
}

impl Bounds {
    /// Both ends are defined, representable numbers in order.
    pub open spec fn wf(self) -> bool {
        &&& self.v_min.wf()
        &&& self.v_max.wf()
        &&& !self.v_min.is_nan_spec()
        &&& !self.v_max.is_nan_spec()
        &&& le_spec(self.v_min, self.v_max)
    }

    /// What every constructor returns: an undefined end is rejected (minimum
    /// first), inverted ends are rejected, and otherwise the range is built
    /// with the given mutability flags.
    pub open spec fn new_result_spec(
        r: Result<Bounds, CharStatError>,
        v_min: Decimal,
        v_max: Decimal,
        is_min_mut: bool,
        is_max_mut: bool,
    ) -> bool {
        &&& v_min.is_nan_spec() ==> (r matches Err(e) && is_nan_error(e, "v_min"@))
        &&& !v_min.is_nan_spec() && v_max.is_nan_spec() ==> (r matches Err(e) && is_nan_error(
            e,
            "v_max"@,
        ))
        &&& !v_min.is_nan_spec() && !v_max.is_nan_spec() && gt_spec(v_min, v_max) ==> r == Err::<
            Bounds,
            CharStatError,
        >(CharStatError::LogicIssue(CsLogicIssue::MinGreaterThanMax))
        &&& !v_min.is_nan_spec() && !v_max.is_nan_spec() && le_spec(v_min, v_max) ==> r == Ok::<
            Bounds,
            CharStatError,
        >(Bounds { v_min, v_max, is_min_mut, is_max_mut })
    }

    /// Builds a range with the given mutability flags.
    pub fn new(v_min: Decimal, v_max: Decimal, is_min_mut: bool, is_max_mut: bool) -> (r: Result<
        Self,
        CharStatError,
    >)
        requires
            v_min.wf(),
            v_max.wf(),
        ensures
            Bounds::new_result_spec(r, v_min, v_max, is_min_mut, is_max_mut),
            r matches Ok(b) ==> b.wf(),
    {
        if let Err(e) = Bounds::check_nan(v_min, "v_min") {
            return Err(e);
        }
        if let Err(e) = Bounds::check_nan(v_max, "v_max") {
            return Err(e);
        }
        if let Err(e) = Bounds::check_values(v_min, v_max) {
            return Err(e);
        }
        Ok(Bounds { v_min, v_max, is_min_mut, is_max_mut })
    }

    /// Builds a range whose two ends are immutable.
    pub fn new_const(v_min: Decimal, v_max: Decimal) -> (r: Result<Self, CharStatError>)
        requires
            v_min.wf(),
            v_max.wf(),
        ensures
            Bounds::new_result_spec(r, v_min, v_max, false, false),
            r matches Ok(b) ==> b.wf(),
    {
        if let Err(e) = Bounds::check_nan(v_min, "v_min") {
            return Err(e);
        }
        if let Err(e) = Bounds::check_nan(v_max, "v_max") {
            return Err(e);
        }
        if let Err(e) = Bounds::check_values(v_min, v_max) {
            return Err(e);
        }
        Ok(Bounds { v_min, v_max, is_min_mut: false, is_max_mut: false })
    }

    /// Builds a range whose two ends are mutable.
    pub fn new_mut(v_min: Decimal, v_max: Decimal) -> (r: Result<Self, CharStatError>)
        requires
            v_min.wf(),
            v_max.wf(),
        ensures
            Bounds::new_result_spec(r, v_min, v_max, true, true),
            r matches Ok(b) ==> b.wf(),
    {
        if let Err(e) = Bounds::check_nan(v_min, "v_min") {
            return Err(e);
        }
        if let Err(e) = Bounds::check_nan(v_max, "v_max") {
            return Err(e);
        }
        if let Err(e) = Bounds::check_values(v_min, v_max) {
            return Err(e);
        }
        Ok(Bounds { v_min, v_max, is_min_mut: true, is_max_mut: true })
    }

    /// Moves the minimum; refused on a frozen minimum, an undefined value, or
    /// a value above the maximum.
    pub fn set_min(&mut self, new_val: Decimal) -> (r: Result<(), CharStatError>)
        requires
            old(self).wf(),
            new_val.wf(),
        ensures
            set_min_result(*old(self), *final(self), r, new_val),
            final(self).wf(),
    {
        if !self.is_min_mut {
            return Err(CsLogicIssue::FieldIsConst.into());
        }
        if let Err(e) = Bounds::check_nan(new_val, "new_val") {
            return Err(e);
        }
        if let Err(e) = Bounds::check_values(new_val, self.v_max) {
            return Err(e);
        }
        self.v_min = new_val;
        Ok(())
    }

    /// Moves the maximum; refused on a frozen maximum, an undefined value, or
    /// a value below the minimum.
    pub fn set_max(&mut self, new_val: Decimal) -> (r: Result<(), CharStatError>)
        requires
            old(self).wf(),
            new_val.wf(),
        ensures
            set_max_result(*old(self), *final(self), r, new_val),
            final(self).wf(),
    {
        if !self.is_max_mut {
            return Err(CsLogicIssue::FieldIsConst.into());
        }
        if let Err(e) = Bounds::check_nan(new_val, "new_val") {
            return Err(e);
        }
        if let Err(e) = Bounds::check_values(self.v_min, new_val) {
            return Err(e);
        }
        self.v_max = new_val;
        Ok(())
    }

    /// Freezes the minimum: a one-way transition.
    pub fn set_min_const(&mut self)
        ensures
            *final(self) == (Bounds { is_min_mut: false, ..*old(self) }),
    {
        self.is_min_mut = false;
    }

    /// Freezes the maximum: a one-way transition.
    pub fn set_max_const(&mut self)
        ensures
            *final(self) == (Bounds { is_max_mut: false, ..*old(self) }),
    {
        self.is_max_mut = false;
    }

    pub fn min(&self) -> (r: Decimal)
        ensures
            r == self.v_min,
    {
        self.v_min
    }

    pub fn max(&self) -> (r: Decimal)
        ensures
            r == self.v_max,
    {
        self.v_max
    }

    fn check_nan(value: Decimal, name: &str) -> (r: Result<(), CharStatError>)
        ensures
            value.is_nan_spec() ==> (r matches Err(e) && is_nan_error(e, name@)),
            !value.is_nan_spec() ==> r == Ok::<(), CharStatError>(()),
    {
        if value.is_nan() {
            return Err(CsInvalidValue::Nan(name.to_owned()).into());
        }
        Ok(())
    }

    fn check_values(min: Decimal, max: Decimal) -> (r: Result<(), CharStatError>)
        ensures
            gt_spec(min, max) ==> r == Err::<(), CharStatError>(
                CharStatError::LogicIssue(CsLogicIssue::MinGreaterThanMax),
            ),
            !gt_spec(min, max) ==> r == Ok::<(), CharStatError>(()),
    {
        if min.gt(max) {
            return Err(CsLogicIssue::MinGreaterThanMax.into());
        }
        Ok(())
    }
}

} // verus!
