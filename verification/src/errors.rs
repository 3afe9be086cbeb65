//! The error taxonomy: every fallible operation of the engine reports one of
//! these values to its immediate caller; nothing is retried or swallowed.

use vstd::prelude::*;

verus! {

use crate::modifier::{ModCalcMode, ModCalcStage, ModType};
use vstd::string::StringExecFns;

/// The top-level error type, one variant per error family.
#[derive(Debug, Clone, PartialEq)]
pub enum CharStatError {
    LogicIssue(CsLogicIssue),
    InvalidValue(CsInvalidValue),
    MissingComponent(CsMissingComponent),
    Other(String),
}

impl CharStatError {
    /// A free-form error carrying the given message.
    pub fn custom(msg: String) -> (r: Self)
        ensures
            r matches CharStatError::Other(m) && m@ == msg@,
    {
        CharStatError::Other(msg)
    }
}

/// A rule of the engine was broken: a mismatched modifier, inverted bounds, an
/// immutable field, or a backward clock.
#[derive(Debug, Clone, PartialEq)]
pub enum CsLogicIssue {
    /// Found stage, then expected stage.
    InvalidModifierStage(ModCalcStage, ModCalcStage),
    /// Found mode, then the accepted modes.
    InvalidModifierMode(ModCalcMode, Vec<ModCalcMode>),
    /// Found lifecycle, then the name of the expected one.
    InvalidModifierType(ModType, String),
    MinGreaterThanMax,
    FieldIsConst,
    TimeTravel,
}

/// A numeric input was rejected, together with the name of the offending
/// parameter.
#[derive(Debug, Clone, PartialEq, Eq)]
pub enum CsInvalidValue {
    BelowMinimum(String),
    AboveMaximum(String),
    CannotBeZero(String),
    Nan(String),
}

/// An operation needed an optional component that was never configured.
#[derive(Debug, Clone, Copy, PartialEq, Eq)]
pub enum CsMissingComponent {
    BaseMult,
    Upgrade,
    ModOfBase,
    ModOfUpgrade,
    ModOfBasePlusUpgrade,
    ModMult,
}

/// `e` reports an undefined numeric input under the given parameter name.
pub open spec fn is_nan_error(e: CharStatError, name: Seq<char>) -> bool {
    e matches CharStatError::InvalidValue(CsInvalidValue::Nan(n)) && n@ == name
}

/// `e` reports a value below the minimum under the given parameter name.
pub open spec fn is_below_min_error(e: CharStatError, name: Seq<char>) -> bool {
    e matches CharStatError::InvalidValue(CsInvalidValue::BelowMinimum(n)) && n@ == name
}

/// `e` reports a value above the maximum under the given parameter name.
pub open spec fn is_above_max_error(e: CharStatError, name: Seq<char>) -> bool {
    e matches CharStatError::InvalidValue(CsInvalidValue::AboveMaximum(n)) && n@ == name
}

/// `e` reports a zero configuration value under the given parameter name.
pub open spec fn is_zero_error(e: CharStatError, name: Seq<char>) -> bool {
    e matches CharStatError::InvalidValue(CsInvalidValue::CannotBeZero(n)) && n@ == name
}

/// `e` reports a modifier mode rejected for the multiplier stage, which
/// accepts additive and subtractive modifiers only.
pub open spec fn is_invalid_mode_error(e: CharStatError, mode: ModCalcMode) -> bool {
    e matches CharStatError::LogicIssue(CsLogicIssue::InvalidModifierMode(bad, accepted))
        && bad == mode && accepted@ == seq![ModCalcMode::Add, ModCalcMode::Sub]
}

/// `e` reports an operation on the wrong modifier lifecycle, which expected a
/// stacked modifier.
pub open spec fn is_not_stacked_error(e: CharStatError, found: ModType) -> bool {
    e matches CharStatError::LogicIssue(CsLogicIssue::InvalidModifierType(t, n)) && t == found
        && n@ == "Stacked"@
}

impl From<CsLogicIssue> for CharStatError {
    fn from(value: CsLogicIssue) -> (r: Self) {
        CharStatError::LogicIssue(value)
    }
}

impl vstd::std_specs::convert::FromSpecImpl<CsLogicIssue> for CharStatError {
    open spec fn obeys_from_spec() -> bool {
        true
    }

    open spec fn from_spec(value: CsLogicIssue) -> Self {
        CharStatError::LogicIssue(value)
    }
}

impl From<CsInvalidValue> for CharStatError {
    fn from(value: CsInvalidValue) -> (r: Self) {
        CharStatError::InvalidValue(value)
    }
}

impl vstd::std_specs::convert::FromSpecImpl<CsInvalidValue> for CharStatError {
    open spec fn obeys_from_spec() -> bool {
        true
    }

    open spec fn from_spec(value: CsInvalidValue) -> Self {
        CharStatError::InvalidValue(value)
    }
}

impl From<CsMissingComponent> for CharStatError {
    fn from(value: CsMissingComponent) -> (r: Self) {
        CharStatError::MissingComponent(value)
    }
}

impl vstd::std_specs::convert::FromSpecImpl<CsMissingComponent> for CharStatError {
    open spec fn obeys_from_spec() -> bool {
        true
    }

    open spec fn from_spec(value: CsMissingComponent) -> Self {
        CharStatError::MissingComponent(value)
    }
}

impl Default for CharStatError {
    fn default() -> (r: Self)
        ensures
            r matches CharStatError::Other(m) && m@ == "undefined error"@,
    {
        CharStatError::Other("undefined error".to_owned())
    }
}

/// The items joined left to right with a comma and a space between
/// neighbours.
pub open spec fn csv_of(items: Seq<Seq<char>>) -> Seq<char>
    decreases items.len(),
{
    if items.len() == 0 {
        Seq::empty()
    } else if items.len() == 1 {
        items[0]
    } else {
        csv_of(items.drop_last()) + ", "@ + items.last()
    }
}

/// Joins the items into one comma-separated line.
pub fn vec_to_csv_string(items: &Vec<String>) -> (r: String)
    ensures
        r@ == csv_of(items@.map_values(|s: String| s@)),
{
    let ghost views = items@.map_values(|s: String| s@);
    let mut out = String::new();
    if items.len() == 0 {
        assert(out@ =~= csv_of(views));
        return out;
    }
    out.append(items[0].as_str());
    assert(out@ =~= csv_of(views.take(1)));
    let mut i: usize = 1;
    while i < items.len()
        invariant
            1 <= i <= items.len(),
            views == items@.map_values(|s: String| s@),
            out@ == csv_of(views.take(i as int)),
        decreases items.len() - i,
    {
        out.append(", ");
        out.append(items[i].as_str());
        proof {
            assert(views.take(i + 1).drop_last() =~= views.take(i as int));
            assert(views.take(i + 1).last() == views[i as int]);
            assert(out@ =~= csv_of(views.take(i + 1)));
        }
        i = i + 1;
    }
    proof {
        assert(views.take(items@.len() as int) =~= views);
    }
    out
}

} // verus!
