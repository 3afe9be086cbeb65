//! Fixed-point decimal numbers.
//!
//! A [`Decimal`] holds a signed count of billionths (`units`), so the finite
//! value `units / 10^9` carries nine decimal places exactly. Finite magnitudes
//! are capped at `MAX_UNITS`; arithmetic that would leave the representable
//! range saturates to the infinite values, and undefined operations (such as
//! dividing zero by zero) produce [`Decimal::Nan`], which every comparison
//! treats as unordered. Each operation is specified exactly by a spec function
//! of the same name.

use vstd::prelude::*;

verus! {

use vstd::arithmetic::div_mod::lemma_fundamental_div_mod;

/// Number of units in 1.0: finite values are integer multiples of 10^-9.
pub const SCALE: i128 = 1_000_000_000;

/// Largest magnitude, in units, that a finite value may hold (a multiple of
/// `SCALE`, so rounding a representable value stays representable).
pub const MAX_UNITS: i128 = 1_000_000_000_000_000_000;

/// A fixed-point decimal number: finite billionths, a signed infinity, or an
/// undefined value.
#[derive(Debug, Clone, Copy, PartialEq, Eq, Structural)]
pub enum Decimal {
    /// The undefined value; compares as unordered, propagates through arithmetic.
    Nan,
    /// Below every finite value.
    NegInf,
    /// The finite value `units / SCALE`.
    Finite { units: i128 },
    /// Above every finite value.
    Inf,
}

impl Decimal {
    /// A finite value stays within the representable magnitude.
    pub open spec fn wf(self) -> bool {
        match self {
            Decimal::Finite { units } => -MAX_UNITS <= units <= MAX_UNITS,
            _ => true,
        }
    }

    pub open spec fn is_finite(self) -> bool {
        self is Finite
    }

    pub open spec fn is_nan_spec(self) -> bool {
        self is Nan
    }

    /// The unit count of a finite value.
    pub open spec fn units_of(self) -> int {
        self->units as int
    }
}

/// The magnitude of an integer.
pub open spec fn mag_of(x: int) -> int {
    if x < 0 {
        -x
    } else {
        x
    }
}

/// The finite value with the given unit count, saturated to an infinity when
/// it lies outside the representable range.
pub open spec fn fin_of(u: int) -> Decimal {
    if u > MAX_UNITS as int {
        Decimal::Inf
    } else if u < -(MAX_UNITS as int) {
        Decimal::NegInf
    } else {
        Decimal::Finite { units: u as i128 }
    }
}

pub open spec fn zero_spec() -> Decimal {
    Decimal::Finite { units: 0 }
}

pub open spec fn one_spec() -> Decimal {
    Decimal::Finite { units: SCALE }
}

/// Negation: exact on finite values, swaps the infinities.
pub open spec fn neg_spec(a: Decimal) -> Decimal {
    match a {
        Decimal::Nan => Decimal::Nan,
        Decimal::NegInf => Decimal::Inf,
        Decimal::Inf => Decimal::NegInf,
        Decimal::Finite { units } => Decimal::Finite { units: (-(units as int)) as i128 },
    }
}

/// Addition: exact on finite values until the range cap, where it saturates;
/// opposite infinities are undefined.
pub open spec fn add_spec(a: Decimal, b: Decimal) -> Decimal {
    match (a, b) {
        (Decimal::Nan, _) => Decimal::Nan,
        (_, Decimal::Nan) => Decimal::Nan,
        (Decimal::Inf, Decimal::NegInf) => Decimal::Nan,
        (Decimal::NegInf, Decimal::Inf) => Decimal::Nan,
        (Decimal::Inf, _) => Decimal::Inf,
        (_, Decimal::Inf) => Decimal::Inf,
        (Decimal::NegInf, _) => Decimal::NegInf,
        (_, Decimal::NegInf) => Decimal::NegInf,
        (Decimal::Finite { units: ua }, Decimal::Finite { units: ub }) => fin_of(
            ua as int + ub as int,
        ),
    }
}

pub open spec fn sub_spec(a: Decimal, b: Decimal) -> Decimal {
    add_spec(a, neg_spec(b))
}

/// Multiplication: the product of the magnitudes is truncated to units, the
/// sign is applied, and an out-of-range result saturates. An infinity times
/// zero is undefined.
pub open spec fn mul_spec(a: Decimal, b: Decimal) -> Decimal {
    match (a, b) {
        (Decimal::Nan, _) => Decimal::Nan,
        (_, Decimal::Nan) => Decimal::Nan,
        (Decimal::Inf, Decimal::Inf) => Decimal::Inf,
        (Decimal::Inf, Decimal::NegInf) => Decimal::NegInf,
        (Decimal::NegInf, Decimal::Inf) => Decimal::NegInf,
        (Decimal::NegInf, Decimal::NegInf) => Decimal::Inf,
        (Decimal::Inf, Decimal::Finite { units }) => inf_times_units(units as int, false),
        (Decimal::Finite { units }, Decimal::Inf) => inf_times_units(units as int, false),
        (Decimal::NegInf, Decimal::Finite { units }) => inf_times_units(units as int, true),
        (Decimal::Finite { units }, Decimal::NegInf) => inf_times_units(units as int, true),
        (Decimal::Finite { units: ua }, Decimal::Finite { units: ub }) => {
            let m = mag_of(ua as int) * mag_of(ub as int) / (SCALE as int);
            if (ua < 0) != (ub < 0) {
                fin_of(-m)
            } else {
                fin_of(m)
            }
        },
    }
}

/// An infinity (negative when `neg`) multiplied by a finite unit count.
pub open spec fn inf_times_units(u: int, neg: bool) -> Decimal {
    if u == 0 {
        Decimal::Nan
    } else if (u < 0) != neg {
        Decimal::NegInf
    } else {
        Decimal::Inf
    }
}

/// Division: the quotient of the magnitudes is scaled and truncated to units,
/// the sign is applied, and an out-of-range result saturates. A finite value
/// divided by zero is the infinity carrying the dividend's sign; zero by zero
/// and infinity by infinity are undefined; a finite value divided by an
/// infinity is zero.
pub open spec fn div_spec(a: Decimal, b: Decimal) -> Decimal {
    match (a, b) {
        (Decimal::Nan, _) => Decimal::Nan,
        (_, Decimal::Nan) => Decimal::Nan,
        (Decimal::Inf, Decimal::Inf) => Decimal::Nan,
        (Decimal::Inf, Decimal::NegInf) => Decimal::Nan,
        (Decimal::NegInf, Decimal::Inf) => Decimal::Nan,
        (Decimal::NegInf, Decimal::NegInf) => Decimal::Nan,
        (Decimal::Inf, Decimal::Finite { units }) => if units < 0 {
            Decimal::NegInf
        } else {
            Decimal::Inf
        },
        (Decimal::NegInf, Decimal::Finite { units }) => if units < 0 {
            Decimal::Inf
        } else {
            Decimal::NegInf
        },
        (Decimal::Finite { units: _ }, Decimal::Inf) => zero_spec(),
        (Decimal::Finite { units: _ }, Decimal::NegInf) => zero_spec(),
        (Decimal::Finite { units: ua }, Decimal::Finite { units: ub }) => {
            if ub == 0 {
                if ua == 0 {
                    Decimal::Nan
                } else if ua < 0 {
                    Decimal::NegInf
                } else {
                    Decimal::Inf
                }
            } else {
                let q = mag_of(ua as int) * (SCALE as int) / mag_of(ub as int);
                if (ua < 0) != (ub < 0) {
                    fin_of(-q)
                } else {
                    fin_of(q)
                }
            }
        },
    }
}

/// Strict order: false whenever either side is undefined.
pub open spec fn lt_spec(a: Decimal, b: Decimal) -> bool {
    match (a, b) {
        (Decimal::Nan, _) => false,
        (_, Decimal::Nan) => false,
        (Decimal::NegInf, Decimal::NegInf) => false,
        (Decimal::NegInf, _) => true,
        (_, Decimal::NegInf) => false,
        (Decimal::Inf, _) => false,
        (_, Decimal::Inf) => true,
        (Decimal::Finite { units: ua }, Decimal::Finite { units: ub }) => ua < ub,
    }
}

/// Non-strict order: false whenever either side is undefined.
pub open spec fn le_spec(a: Decimal, b: Decimal) -> bool {
    match (a, b) {
        (Decimal::Nan, _) => false,
        (_, Decimal::Nan) => false,
        (Decimal::NegInf, _) => true,
        (_, Decimal::NegInf) => false,
        (_, Decimal::Inf) => true,
        (Decimal::Inf, _) => false,
        (Decimal::Finite { units: ua }, Decimal::Finite { units: ub }) => ua <= ub,
    }
}

pub open spec fn gt_spec(a: Decimal, b: Decimal) -> bool {
    lt_spec(b, a)
}

pub open spec fn ge_spec(a: Decimal, b: Decimal) -> bool {
    le_spec(b, a)
}

/// Clamping: the lower bound wins when the value lies below it, then the upper
/// bound when the value lies above it; an undefined value passes through.
pub open spec fn clamp_spec(v: Decimal, lo: Decimal, hi: Decimal) -> Decimal {
    if lt_spec(v, lo) {
        lo
    } else if gt_spec(v, hi) {
        hi
    } else {
        v
    }
}

/// `b` raised to the natural power `n`: the left fold of `n` multiplications
/// starting from one, so truncation behaves exactly as repeated `mul_spec`.
pub open spec fn pow_nat_spec(b: Decimal, n: nat) -> Decimal
    decreases n,
{
    if n == 0 {
        one_spec()
    } else {
        mul_spec(pow_nat_spec(b, (n - 1) as nat), b)
    }
}

/// Exponentiation. It is defined for whole-number exponents: a negative one
/// takes the reciprocal of the positive power, and a fractional or infinite
/// exponent (or an undefined base) yields the undefined value.
pub open spec fn pow_spec(b: Decimal, e: Decimal) -> Decimal {
    if b.is_nan_spec() {
        Decimal::Nan
    } else if !(e is Finite) {
        Decimal::Nan
    } else if mag_of(e.units_of()) % (SCALE as int) != 0 {
        Decimal::Nan
    } else {
        let n = mag_of(e.units_of()) / (SCALE as int);
        if e.units_of() < 0 {
            div_spec(one_spec(), pow_nat_spec(b, n as nat))
        } else {
            pow_nat_spec(b, n as nat)
        }
    }
}

/// The largest multiple of `SCALE` that is at most `u`.
pub open spec fn floor_units(u: int) -> int {
    if u >= 0 {
        (u / (SCALE as int)) * (SCALE as int)
    } else {
        if (-u) % (SCALE as int) == 0 {
            u
        } else {
            -(((-u) / (SCALE as int) + 1) * (SCALE as int))
        }
    }
}

/// The smallest multiple of `SCALE` that is at least `u`.
pub open spec fn ceil_units(u: int) -> int {
    -floor_units(-u)
}

/// The multiple of `SCALE` nearest to `u` on the side of zero.
pub open spec fn trunc_units(u: int) -> int {
    if u >= 0 {
        floor_units(u)
    } else {
        ceil_units(u)
    }
}

/// A non-negative `m` rounded to a multiple of `SCALE`, ties away from zero.
pub open spec fn round_mag(m: int) -> int {
    if 2 * (m % (SCALE as int)) >= SCALE as int {
        (m / (SCALE as int) + 1) * (SCALE as int)
    } else {
        (m / (SCALE as int)) * (SCALE as int)
    }
}

/// The multiple of `SCALE` nearest to `u`, ties away from zero.
pub open spec fn round_units(u: int) -> int {
    if u >= 0 {
        round_mag(u)
    } else {
        -round_mag(-u)
    }
}

/// A non-negative `m` rounded to a multiple of `SCALE`, ties to the even
/// multiple.
pub open spec fn round_te_mag(m: int) -> int {
    let q = m / (SCALE as int);
    let r = m % (SCALE as int);
    if 2 * r > SCALE as int {
        (q + 1) * (SCALE as int)
    } else if 2 * r < SCALE as int {
        q * (SCALE as int)
    } else if q % 2 == 0 {
        q * (SCALE as int)
    } else {
        (q + 1) * (SCALE as int)
    }
}

/// The multiple of `SCALE` nearest to `u`, ties to the even multiple.
pub open spec fn round_te_units(u: int) -> int {
    if u >= 0 {
        round_te_mag(u)
    } else {
        -round_te_mag(-u)
    }
}

/// Lifts a rounding of unit counts to `Decimal`: finite values are rounded,
/// everything else passes through.
pub open spec fn lift_rounding(a: Decimal, rounded: int) -> Decimal {
    match a {
        Decimal::Finite { units: _ } => Decimal::Finite { units: rounded as i128 },
        _ => a,
    }
}

pub open spec fn floor_spec(a: Decimal) -> Decimal {
    lift_rounding(a, floor_units(a.units_of()))
}

pub open spec fn ceil_spec(a: Decimal) -> Decimal {
    lift_rounding(a, ceil_units(a.units_of()))
}

pub open spec fn trunc_spec(a: Decimal) -> Decimal {
    lift_rounding(a, trunc_units(a.units_of()))
}

pub open spec fn round_spec(a: Decimal) -> Decimal {
    lift_rounding(a, round_units(a.units_of()))
}

pub open spec fn round_te_spec(a: Decimal) -> Decimal {
    lift_rounding(a, round_te_units(a.units_of()))
}

/// Division and remainder facts for a magnitude within range: rounding down
/// stays below, and rounding up stays within the cap because the cap is a
/// multiple of `SCALE`.
proof fn lemma_mag_div(m: int)
    requires
        0 <= m <= MAX_UNITS as int,
    ensures
        0 <= m / (SCALE as int),
        m % (SCALE as int) == 0 ==> (m / (SCALE as int)) * (SCALE as int) == m,
        0 <= (m / (SCALE as int)) * (SCALE as int) <= m,
        m % (SCALE as int) != 0 ==> (m / (SCALE as int) + 1) * (SCALE as int) <= MAX_UNITS as int,
{
    let s = SCALE as int;
    let q = m / s;
    let r = m % s;
    lemma_fundamental_div_mod(m, s);
    assert(q * s == m - r);
    if r != 0 {
        assert((q + 1) * s <= 1000000000000000000int) by (nonlinear_arith)
            requires
                m == q * s + r,
                0 < r < s,
                s == 1000000000int,
                m <= 1000000000000000000int,
        ;
    }
}

/// The rounded magnitude is a sound magnitude again: non-negative and capped.
proof fn lemma_round_mag_range(m: int)
    requires
        0 <= m <= MAX_UNITS as int,
    ensures
        0 <= round_mag(m) <= MAX_UNITS as int,
        0 <= round_te_mag(m) <= MAX_UNITS as int,
        0 <= (m / (SCALE as int)) * (SCALE as int) <= MAX_UNITS as int,
        m % (SCALE as int) != 0 ==> 0 <= (m / (SCALE as int) + 1) * (SCALE as int)
            <= MAX_UNITS as int,
{
    lemma_mag_div(m);
}

/// Rounds a magnitude down to a multiple of `SCALE`.
fn floor_mag_exec(m: u128) -> (r: u128)
    requires
        m <= MAX_UNITS as u128,
    ensures
        r as int == (m as int / (SCALE as int)) * (SCALE as int),
        r <= MAX_UNITS as u128,
{
    proof {
        lemma_mag_div(m as int);
    }
    (m / (SCALE as u128)) * (SCALE as u128)
}

/// Rounds a magnitude up to a multiple of `SCALE`.
fn ceil_mag_exec(m: u128) -> (r: u128)
    requires
        m <= MAX_UNITS as u128,
    ensures
        r as int == (if m as int % (SCALE as int) == 0 {
            m as int
        } else {
            (m as int / (SCALE as int) + 1) * (SCALE as int)
        }),
        r <= MAX_UNITS as u128,
{
    proof {
        lemma_mag_div(m as int);
    }
    let q: u128 = m / (SCALE as u128);
    if m % (SCALE as u128) == 0 {
        m
    } else {
        (q + 1) * (SCALE as u128)
    }
}

/// Rounds a magnitude to the nearest multiple of `SCALE`, ties away from zero.
fn round_mag_exec(m: u128) -> (r: u128)
    requires
        m <= MAX_UNITS as u128,
    ensures
        r as int == round_mag(m as int),
        r <= MAX_UNITS as u128,
{
    proof {
        lemma_round_mag_range(m as int);
    }
    let q: u128 = m / (SCALE as u128);
    let rem: u128 = m % (SCALE as u128);
    if 2 * rem >= SCALE as u128 {
        (q + 1) * (SCALE as u128)
    } else {
        q * (SCALE as u128)
    }
}

/// Rounds a magnitude to the nearest multiple of `SCALE`, ties to the even
/// multiple.
fn round_te_mag_exec(m: u128) -> (r: u128)
    requires
        m <= MAX_UNITS as u128,
    ensures
        r as int == round_te_mag(m as int),
        r <= MAX_UNITS as u128,
{
    proof {
        lemma_round_mag_range(m as int);
    }
    let q: u128 = m / (SCALE as u128);
    let rem: u128 = m % (SCALE as u128);
    if 2 * rem > SCALE as u128 {
        (q + 1) * (SCALE as u128)
    } else if 2 * rem < SCALE as u128 {
        q * (SCALE as u128)
    } else if q % 2 == 0 {
        q * (SCALE as u128)
    } else {
        (q + 1) * (SCALE as u128)
    }
}

/// Clamping law: between defined, ordered bounds, the clamp of any defined
/// value lies within the bounds.
pub proof fn lemma_clamp_within(v: Decimal, lo: Decimal, hi: Decimal)
    requires
        !lo.is_nan_spec(),
        !hi.is_nan_spec(),
        le_spec(lo, hi),
        !v.is_nan_spec(),
    ensures
        le_spec(lo, clamp_spec(v, lo, hi)),
        le_spec(clamp_spec(v, lo, hi), hi),
{
}

/// Monotonicity of (saturating) addition on finite values: growing either
/// summand cannot shrink the sum.
pub proof fn lemma_add_monotone(a: Decimal, b: Decimal, a2: Decimal, b2: Decimal)
    requires
        a.wf(),
        b.wf(),
        a2.wf(),
        b2.wf(),
        a.is_finite(),
        b.is_finite(),
        a2.is_finite(),
        b2.is_finite(),
        le_spec(a, a2),
        le_spec(b, b2),
    ensures
        le_spec(add_spec(a, b), add_spec(a2, b2)),
{
}

/// A lower bound survives one (saturating) addition: when the true summands
/// are finite with a finite sum, the sum of their lower bounds — possibly
/// already saturated low — stays below it.
pub proof fn lemma_add_lower_mono(lo: Decimal, lo2: Decimal, x: Decimal, x2: Decimal)
    requires
        x.wf(),
        x2.wf(),
        x.is_finite(),
        x2.is_finite(),
        add_spec(x, x2).is_finite(),
        lo.wf(),
        !lo.is_nan_spec(),
        !(lo is Inf),
        lo2.wf(),
        lo2.is_finite(),
        le_spec(lo, x),
        le_spec(lo2, x2),
    ensures
        le_spec(add_spec(lo, lo2), add_spec(x, x2)),
        !(add_spec(lo, lo2) is Inf),
        !add_spec(lo, lo2).is_nan_spec(),
{
}

/// An upper bound survives one (saturating) addition: when the true summands
/// are finite with a finite sum, the sum of their upper bounds — possibly
/// already saturated high — stays above it.
pub proof fn lemma_add_upper_mono(hi: Decimal, hi2: Decimal, x: Decimal, x2: Decimal)
    requires
        x.wf(),
        x2.wf(),
        x.is_finite(),
        x2.is_finite(),
        add_spec(x, x2).is_finite(),
        hi.wf(),
        !hi.is_nan_spec(),
        !(hi is NegInf),
        hi2.wf(),
        hi2.is_finite(),
        le_spec(x, hi),
        le_spec(x2, hi2),
    ensures
        le_spec(add_spec(x, x2), add_spec(hi, hi2)),
        !(add_spec(hi, hi2) is NegInf),
        !add_spec(hi, hi2).is_nan_spec(),
{
}

impl Decimal {
    /// The finite value with the given unit count; saturates outside the
    /// representable range.
    pub fn from_units(units: i128) -> (r: Decimal)
        ensures
            r == fin_of(units as int),
            r.wf(),
    {
        if units > MAX_UNITS {
            Decimal::Inf
        } else if units < -MAX_UNITS {
            Decimal::NegInf
        } else {
            Decimal::Finite { units }
        }
    }

    /// The finite value equal to the given integer; saturates outside the
    /// representable range.
    pub fn from_int(v: i64) -> (r: Decimal)
        ensures
            r == fin_of(v as int * SCALE as int),
            r.wf(),
    {
        let wide: i128 = (v as i128) * SCALE;
        Decimal::from_units(wide)
    }

    pub fn zero() -> (r: Decimal)
        ensures
            r == zero_spec(),
            r.wf(),
    {
        Decimal::Finite { units: 0 }
    }

    pub fn one() -> (r: Decimal)
        ensures
            r == one_spec(),
            r.wf(),
    {
        Decimal::Finite { units: SCALE }
    }

    /// Whether this is the undefined value.
    pub fn is_nan(&self) -> (r: bool)
        ensures
            r == self.is_nan_spec(),
    {
        matches!(self, Decimal::Nan)
    }

    pub fn negated(self) -> (r: Decimal)
        requires
            self.wf(),
        ensures
            r == neg_spec(self),
            r.wf(),
    {
        match self {
            Decimal::Nan => Decimal::Nan,
            Decimal::NegInf => Decimal::Inf,
            Decimal::Inf => Decimal::NegInf,
            Decimal::Finite { units } => Decimal::Finite { units: -units },
        }
    }

    pub fn plus(self, other: Decimal) -> (r: Decimal)
        requires
            self.wf(),
            other.wf(),
        ensures
            r == add_spec(self, other),
            r.wf(),
    {
        match (self, other) {
            (Decimal::Nan, _) => Decimal::Nan,
            (_, Decimal::Nan) => Decimal::Nan,
            (Decimal::Inf, Decimal::NegInf) => Decimal::Nan,
            (Decimal::NegInf, Decimal::Inf) => Decimal::Nan,
            (Decimal::Inf, _) => Decimal::Inf,
            (_, Decimal::Inf) => Decimal::Inf,
            (Decimal::NegInf, _) => Decimal::NegInf,
            (_, Decimal::NegInf) => Decimal::NegInf,
            (Decimal::Finite { units: ua }, Decimal::Finite { units: ub }) => {
                let sum: i128 = ua + ub;
                Decimal::from_units(sum)
            },
        }
    }

    pub fn minus(self, other: Decimal) -> (r: Decimal)
        requires
            self.wf(),
            other.wf(),
        ensures
            r == sub_spec(self, other),
            r.wf(),
    {
        self.plus(other.negated())
    }

    pub fn lt(self, other: Decimal) -> (r: bool)
        ensures
            r == lt_spec(self, other),
    {
        match (self, other) {
            (Decimal::Nan, _) => false,
            (_, Decimal::Nan) => false,
            (Decimal::NegInf, Decimal::NegInf) => false,
            (Decimal::NegInf, _) => true,
            (_, Decimal::NegInf) => false,
            (Decimal::Inf, _) => false,
            (_, Decimal::Inf) => true,
            (Decimal::Finite { units: ua }, Decimal::Finite { units: ub }) => ua < ub,
        }
    }

    pub fn le(self, other: Decimal) -> (r: bool)
        ensures
            r == le_spec(self, other),
    {
        match (self, other) {
            (Decimal::Nan, _) => false,
            (_, Decimal::Nan) => false,
            (Decimal::NegInf, _) => true,
            (_, Decimal::NegInf) => false,
            (_, Decimal::Inf) => true,
            (Decimal::Inf, _) => false,
            (Decimal::Finite { units: ua }, Decimal::Finite { units: ub }) => ua <= ub,
        }
    }

    pub fn gt(self, other: Decimal) -> (r: bool)
        ensures
            r == gt_spec(self, other),
    {
        other.lt(self)
    }

    pub fn ge(self, other: Decimal) -> (r: bool)
        ensures
            r == ge_spec(self, other),
    {
        other.le(self)
    }

    /// Clamps the value between the two bounds, checking the lower one first.
    pub fn clamp_to(self, lo: Decimal, hi: Decimal) -> (r: Decimal)
        ensures
            r == clamp_spec(self, lo, hi),
    {
        if self.lt(lo) {
            lo
        } else if self.gt(hi) {
            hi
        } else {
            self
        }
    }

    pub fn times(self, other: Decimal) -> (r: Decimal)
        requires
            self.wf(),
            other.wf(),
        ensures
            r == mul_spec(self, other),
            r.wf(),
    {
        match (self, other) {
            (Decimal::Nan, _) => Decimal::Nan,
            (_, Decimal::Nan) => Decimal::Nan,
            (Decimal::Inf, Decimal::Inf) => Decimal::Inf,
            (Decimal::Inf, Decimal::NegInf) => Decimal::NegInf,
            (Decimal::NegInf, Decimal::Inf) => Decimal::NegInf,
            (Decimal::NegInf, Decimal::NegInf) => Decimal::Inf,
            (Decimal::Inf, Decimal::Finite { units }) => inf_times(units, false),
            (Decimal::Finite { units }, Decimal::Inf) => inf_times(units, false),
            (Decimal::NegInf, Decimal::Finite { units }) => inf_times(units, true),
            (Decimal::Finite { units }, Decimal::NegInf) => inf_times(units, true),
            (Decimal::Finite { units: ua }, Decimal::Finite { units: ub }) => {
                let neg: bool = (ua < 0) != (ub < 0);
                let ma: u128 = mag_u128(ua);
                let mb: u128 = mag_u128(ub);
                proof {
                    assert((ma as int) * (mb as int) <= 1000000000000000000000000000000000000int)
                        by (nonlinear_arith)
                        requires
                            0 <= ma as int <= 1000000000000000000int,
                            0 <= mb as int <= 1000000000000000000int,
                    ;
                }
                let p: u128 = ma * mb;
                let q: u128 = p / (SCALE as u128);
                signed_from_mag(q, neg)
            },
        }
    }

    pub fn divided_by(self, other: Decimal) -> (r: Decimal)
        requires
            self.wf(),
            other.wf(),
        ensures
            r == div_spec(self, other),
            r.wf(),
    {
        match (self, other) {
            (Decimal::Nan, _) => Decimal::Nan,
            (_, Decimal::Nan) => Decimal::Nan,
            (Decimal::Inf, Decimal::Inf) => Decimal::Nan,
            (Decimal::Inf, Decimal::NegInf) => Decimal::Nan,
            (Decimal::NegInf, Decimal::Inf) => Decimal::Nan,
            (Decimal::NegInf, Decimal::NegInf) => Decimal::Nan,
            (Decimal::Inf, Decimal::Finite { units }) => if units < 0 {
                Decimal::NegInf
            } else {
                Decimal::Inf
            },
            (Decimal::NegInf, Decimal::Finite { units }) => if units < 0 {
                Decimal::Inf
            } else {
                Decimal::NegInf
            },
            (Decimal::Finite { units: _ }, Decimal::Inf) => Decimal::Finite { units: 0 },
            (Decimal::Finite { units: _ }, Decimal::NegInf) => Decimal::Finite { units: 0 },
            (Decimal::Finite { units: ua }, Decimal::Finite { units: ub }) => {
                if ub == 0 {
                    if ua == 0 {
                        Decimal::Nan
                    } else if ua < 0 {
                        Decimal::NegInf
                    } else {
                        Decimal::Inf
                    }
                } else {
                    let neg: bool = (ua < 0) != (ub < 0);
                    let ma: u128 = mag_u128(ua);
                    let mb: u128 = mag_u128(ub);
                    proof {
                        assert((ma as int) * 1000000000int <= 1000000000000000000000000000int)
                            by (nonlinear_arith)
                            requires
                                0 <= ma as int <= 1000000000000000000int,
                        ;
                    }
                    let scaled: u128 = ma * (SCALE as u128);
                    let q: u128 = scaled / mb;
                    signed_from_mag(q, neg)
                }
            },
        }
    }

    /// Rounds toward negative infinity to a whole number.
    pub fn floor(self) -> (r: Decimal)
        requires
            self.wf(),
        ensures
            r == floor_spec(self),
            r.wf(),
    {
        match self {
            Decimal::Finite { units } => {
                if units >= 0 {
                    let f: u128 = floor_mag_exec(units as u128);
                    Decimal::Finite { units: f as i128 }
                } else {
                    let c: u128 = ceil_mag_exec((-units) as u128);
                    Decimal::Finite { units: -(c as i128) }
                }
            },
            _ => self,
        }
    }

    /// Rounds toward positive infinity to a whole number.
    pub fn ceil(self) -> (r: Decimal)
        requires
            self.wf(),
        ensures
            r == ceil_spec(self),
            r.wf(),
    {
        match self {
            Decimal::Finite { units } => {
                if units >= 0 {
                    let c: u128 = ceil_mag_exec(units as u128);
                    Decimal::Finite { units: c as i128 }
                } else {
                    let f: u128 = floor_mag_exec((-units) as u128);
                    Decimal::Finite { units: -(f as i128) }
                }
            },
            _ => self,
        }
    }

    /// Rounds toward zero to a whole number.
    pub fn trunc(self) -> (r: Decimal)
        requires
            self.wf(),
        ensures
            r == trunc_spec(self),
            r.wf(),
    {
        match self {
            Decimal::Finite { units } => {
                if units >= 0 {
                    let f: u128 = floor_mag_exec(units as u128);
                    Decimal::Finite { units: f as i128 }
                } else {
                    let f: u128 = floor_mag_exec((-units) as u128);
                    Decimal::Finite { units: -(f as i128) }
                }
            },
            _ => self,
        }
    }

    /// Rounds to the nearest whole number, ties away from zero.
    pub fn round(self) -> (r: Decimal)
        requires
            self.wf(),
        ensures
            r == round_spec(self),
            r.wf(),
    {
        match self {
            Decimal::Finite { units } => {
                if units >= 0 {
                    let v: u128 = round_mag_exec(units as u128);
                    Decimal::Finite { units: v as i128 }
                } else {
                    let v: u128 = round_mag_exec((-units) as u128);
                    Decimal::Finite { units: -(v as i128) }
                }
            },
            _ => self,
        }
    }

    /// Rounds to the nearest whole number, ties to the even one.
    pub fn round_ties_even(self) -> (r: Decimal)
        requires
            self.wf(),
        ensures
            r == round_te_spec(self),
            r.wf(),
    {
        match self {
            Decimal::Finite { units } => {
                if units >= 0 {
                    let v: u128 = round_te_mag_exec(units as u128);
                    Decimal::Finite { units: v as i128 }
                } else {
                    let v: u128 = round_te_mag_exec((-units) as u128);
                    Decimal::Finite { units: -(v as i128) }
                }
            },
            _ => self,
        }
    }

    /// Raises the value to the given power, by repeated multiplication for a
    /// whole-number exponent; a fractional or infinite exponent yields the
    /// undefined value.
    pub fn powf(self, exponent: Decimal) -> (r: Decimal)
        requires
            self.wf(),
            exponent.wf(),
        ensures
            r == pow_spec(self, exponent),
            r.wf(),
    {
        if self.is_nan() {
            return Decimal::Nan;
        }
        match exponent {
            Decimal::Finite { units } => {
                let neg_exp: bool = units < 0;
                let mag: u128 = mag_u128(units);
                if mag % (SCALE as u128) != 0 {
                    return Decimal::Nan;
                }
                let n: u128 = mag / (SCALE as u128);
                let mut acc: Decimal = Decimal::one();
                let mut i: u128 = 0;
                while i < n
                    invariant
                        i <= n,
                        self.wf(),
                        acc.wf(),
                        acc == pow_nat_spec(self, i as nat),
                    decreases n - i,
                {
                    acc = acc.times(self);
                    i = i + 1;
                }
                if neg_exp {
                    Decimal::one().divided_by(acc)
                } else {
                    acc
                }
            },
            _ => Decimal::Nan,
        }
    }
}

/// An infinity (negative when `neg`) multiplied by the finite value with the
/// given unit count.
fn inf_times(units: i128, neg: bool) -> (r: Decimal)
    ensures
        r == inf_times_units(units as int, neg),
        r.wf(),
{
    if units == 0 {
        Decimal::Nan
    } else if (units < 0) != neg {
        Decimal::NegInf
    } else {
        Decimal::Inf
    }
}

/// The magnitude of an in-range unit count.
fn mag_u128(u: i128) -> (r: u128)
    requires
        -MAX_UNITS <= u <= MAX_UNITS,
    ensures
        r as int == mag_of(u as int),
        r <= MAX_UNITS as u128,
{
    if u < 0 {
        (-u) as u128
    } else {
        u as u128
    }
}

/// The value with the given magnitude in units and sign, saturated to an
/// infinity when out of range.
fn signed_from_mag(m: u128, neg: bool) -> (r: Decimal)
    ensures
        r == (if neg {
            fin_of(-(m as int))
        } else {
            fin_of(m as int)
        }),
        r.wf(),
{
    if m > MAX_UNITS as u128 {
        if neg {
            Decimal::NegInf
        } else {
            Decimal::Inf
        }
    } else {
        let mi: i128 = m as i128;
        if neg {
            Decimal::Finite { units: -mi }
        } else {
            Decimal::Finite { units: mi }
        }
    }
}

} // verus!
