//! Rounding policy: a rounding function plus an optional quantization
//! precision. With a precision `p`, a value is divided by `p`, rounded to a
//! whole number, and multiplied back.

use vstd::prelude::*;

verus! {

use crate::num::{
    ceil_spec, div_spec, floor_spec, mul_spec, round_spec, round_te_spec, trunc_spec, Decimal,
};

/// The rounding function applied by a [`RoundingHelper`]. `NoRound` passes
/// values through unchanged.
#[derive(Debug, Clone, Copy, PartialEq, Eq, Structural)]
pub enum RoundingFnEnum {
    Round,
    RoundTiesEven,
    Floor,
    Ceil,
    Trunk,
    NoRound,
}

/// The chosen rounding function applied to a value.
pub open spec fn round_fn_spec(f: RoundingFnEnum, v: Decimal) -> Decimal {
    match f {
        RoundingFnEnum::Round => round_spec(v),
        RoundingFnEnum::RoundTiesEven => round_te_spec(v),
        RoundingFnEnum::Floor => floor_spec(v),
        RoundingFnEnum::Ceil => ceil_spec(v),
        RoundingFnEnum::Trunk => trunc_spec(v),
        RoundingFnEnum::NoRound => v,
    }
}

impl RoundingFnEnum {
    fn do_rounding(self, val: Decimal) -> (r: Decimal)
        requires
            val.wf(),
        ensures
            r == round_fn_spec(self, val),
            r.wf(),
    {
        match self {
            RoundingFnEnum::Round => val.round(),
            RoundingFnEnum::RoundTiesEven => val.round_ties_even(),
            RoundingFnEnum::Floor => val.floor(),
            RoundingFnEnum::Ceil => val.ceil(),
            RoundingFnEnum::Trunk => val.trunc(),
            RoundingFnEnum::NoRound => val,
        }
    }
}

/// A rounding function together with an optional quantization precision.
#[derive(Debug, Clone, PartialEq, Structural)]
pub struct RoundingHelper {
    pub function: RoundingFnEnum,
    pub precision: Option<Decimal>,
}

/// What applying a rounding policy returns: the value untouched when the
/// function is `NoRound`; otherwise the value — first divided by the
/// precision, when one is set — rounded, and multiplied back. Kept opaque:
/// callers reason about the rounded value as a value.
#[verifier::opaque]
pub open spec fn apply_rounding_spec(h: RoundingHelper, v: Decimal) -> Decimal {
    if h.function is NoRound {
        v
    } else {
        match h.precision {
            Some(p) => mul_spec(round_fn_spec(h.function, div_spec(v, p)), p),
            None => round_fn_spec(h.function, v),
        }
    }
}

impl RoundingHelper {
    /// A set precision is a defined, representable number.
    pub open spec fn wf(self) -> bool {
        self.precision matches Some(p) ==> p.wf() && !p.is_nan_spec()
    }

    /// Builds a policy; an undefined precision is silently discarded rather
    /// than rejected.
    pub fn new(function: RoundingFnEnum, precision: Option<Decimal>) -> (r: Self)
        requires
            precision matches Some(p) ==> p.wf(),
        ensures
            r.function == function,
            r.precision == (match precision {
                Some(p) => if p.is_nan_spec() {
                    None
                } else {
                    Some(p)
                },
                None => None::<Decimal>,
            }),
            r.wf(),
    {
        let kept: Option<Decimal> = match precision {
            Some(p) => if p.is_nan() {
                None
            } else {
                Some(p)
            },
            None => None,
        };
        RoundingHelper { function, precision: kept }
    }

    /// The policy that passes every value through unchanged.
    pub fn new_none() -> (r: Self)
        ensures
            r.function == RoundingFnEnum::NoRound,
            r.precision == None::<Decimal>,
            r.wf(),
    {
        RoundingHelper { function: RoundingFnEnum::NoRound, precision: None }
    }

    /// Applies the policy to a value.
    pub fn do_rounding(&self, value: Decimal) -> (r: Decimal)
        requires
            self.wf(),
            value.wf(),
        ensures
            r == apply_rounding_spec(*self, value),
            r.wf(),
    {
        proof {
            reveal(apply_rounding_spec);
        }
        if let RoundingFnEnum::NoRound = self.function {
            return value;
        }
        if let Some(prec) = self.precision {
            let scaled: Decimal = value.divided_by(prec);
            let rounded: Decimal = self.function.do_rounding(scaled);
            return rounded.times(prec);
        }
        self.function.do_rounding(value)
    }
}

impl Default for RoundingHelper {
    fn default() -> (r: Self)
        ensures
            r.function == RoundingFnEnum::NoRound,
            r.precision == None::<Decimal>,
            r.wf(),
    {
        RoundingHelper { function: RoundingFnEnum::NoRound, precision: None }
    }
}

} // verus!
