//! A single modifier contribution: a value, an arithmetic mode, a target
//! stage, and a lifecycle (persistent, expiring at a timestamp, or stacking
//! with time-based decay).

use vstd::prelude::*;

verus! {

use crate::errors::{
    is_above_max_error, is_below_min_error, is_nan_error, is_not_stacked_error, is_zero_error,
    is_invalid_mode_error, CharStatError, CsInvalidValue, CsLogicIssue,
};
use crate::num::Decimal;

/// How a modifier's value combines into its stage's sum: added, subtracted,
/// multiplied by the reference magnitude, or dividing the reference magnitude.
#[derive(Debug, Clone, Copy, PartialEq, Eq, Structural)]
pub enum ModCalcMode {
    Add,
    Sub,
    Mul,
    Div,
}

/// Which part of the composition a modifier targets.
#[derive(Debug, Clone, Copy, PartialEq, Eq, Structural)]
pub enum ModCalcStage {
    Base,
    Upgrade,
    BasePlusUpgrade,
    ModMult,
}

/// Configuration of a stacking modifier: the effective multiplicity
/// `stack_value`, its cap, and the decay clock.
#[derive(Debug, Clone, Copy, PartialEq, Eq, Structural)]
pub struct ModStackConf {
    pub last_ts: u64,
    pub duration: u64,
    pub stack_value: u32,
    pub stack_max: u32,
}

impl ModStackConf {
    /// The decay period is non-zero and the multiplicity never exceeds its
    /// cap.
    pub open spec fn wf(self) -> bool {
        self.duration >= 1 && self.stack_value <= self.stack_max
    }

    /// Builds a stacking configuration; the decay period must be non-zero and
    /// the starting multiplicity must lie below its cap.
    pub fn new(last_ts: u64, duration: u64, stack_value: u32, stack_max: u32) -> (r: Result<
        Self,
        CharStatError,
    >)
        ensures
            duration == 0 ==> (r matches Err(e) && is_zero_error(e, "duration"@)),
            duration != 0 && stack_value >= stack_max ==> (r matches Err(e)
                && is_above_max_error(e, "stack_value"@)),
            duration != 0 && stack_value < stack_max ==> r == Ok::<Self, CharStatError>(
                ModStackConf { last_ts, duration, stack_value, stack_max },
            ),
            r matches Ok(c) ==> c.wf(),
    {
        if duration == 0 {
            return Err(CsInvalidValue::CannotBeZero("duration".to_owned()).into());
        }
        if stack_value >= stack_max {
            return Err(CsInvalidValue::AboveMaximum("stack_value".to_owned()).into());
        }
        Ok(ModStackConf { last_ts, duration, stack_value, stack_max })
    }
}

/// A modifier's lifecycle.
#[derive(Debug, Clone, Copy, PartialEq, Eq, Structural)]
pub enum ModType {
    /// Gone once the clock reaches `exp_ts`.
    Expiring { exp_ts: u64 },
    /// Never expires.
    Persistent,
    /// Never expires by itself, but its multiplicity decays over time.
    Stacked { conf: ModStackConf },
}

/// The stage-independent part of a modifier: its value, mode and stage.
#[derive(Debug, Clone, Copy, PartialEq, Structural)]
pub struct ModCommon {
    pub value: Decimal,
    pub mode: ModCalcMode,
    pub stage: ModCalcStage,
}

impl ModCommon {
    /// The value is a defined, representable number, and a multiplier-stage
    /// modifier is additive or subtractive.
    pub open spec fn wf(self) -> bool {
        &&& self.value.wf()
        &&& !self.value.is_nan_spec()
        &&& self.stage is ModMult ==> (self.mode is Add || self.mode is Sub)
    }

    /// Builds the common part; rejects an undefined value, and rejects the
    /// multiplying and dividing modes at the multiplier stage.
    pub fn new(value: Decimal, mode: ModCalcMode, stage: ModCalcStage) -> (r: Result<
        Self,
        CharStatError,
    >)
        requires
            value.wf(),
        ensures
            value.is_nan_spec() ==> (r matches Err(e) && is_nan_error(e, "value"@)),
            !value.is_nan_spec() && stage is ModMult && (mode is Mul || mode is Div)
                ==> (r matches Err(e) && is_invalid_mode_error(e, mode)),
            !value.is_nan_spec() && !(stage is ModMult && (mode is Mul || mode is Div)) ==> r
                == Ok::<Self, CharStatError>(ModCommon { value, mode, stage }),
            r matches Ok(c) ==> c.wf(),
    {
        if value.is_nan() {
            return Err(CsInvalidValue::Nan("value".to_owned()).into());
        }
        if let ModCalcStage::ModMult = stage {
            if let ModCalcMode::Mul | ModCalcMode::Div = mode {
                let mut accepted: Vec<ModCalcMode> = Vec::new();
                accepted.push(ModCalcMode::Add);
                accepted.push(ModCalcMode::Sub);
                proof {
                    assert(accepted@ =~= seq![ModCalcMode::Add, ModCalcMode::Sub]);
                }
                return Err(CsLogicIssue::InvalidModifierMode(mode, accepted).into());
            }
        }
        Ok(ModCommon { value, mode, stage })
    }
}

/// An instance of a modifier.
#[derive(Debug, Clone, Copy, PartialEq, Structural)]
pub struct Modifier {
    pub common: ModCommon,
    pub mod_type: ModType,
}

/// The multiplicity left after `periods` whole decay periods: a floor-at-zero
/// subtraction.
pub open spec fn decayed_count(count: u32, periods: int) -> u32 {
    if periods >= count {
        0u32
    } else {
        (count - periods) as u32
    }
}

/// Expiry monotonicity: a modifier expired at one time stays expired at
/// every later time.
pub proof fn lemma_expiry_monotonic(m: Modifier, ts1: u64, ts2: u64)
    requires
        ts1 <= ts2,
        m.has_expired_spec(ts1),
    ensures
        m.has_expired_spec(ts2),
{
}

/// Stacking saturation: in every sound modifier, a stacked multiplicity
/// never exceeds its cap (and, being unsigned, never falls below zero).
pub proof fn lemma_stack_saturation(m: Modifier)
    requires
        m.wf(),
        m.mod_type is Stacked,
    ensures
        m.mod_type matches ModType::Stacked { conf } && conf.stack_value <= conf.stack_max,
{
}

impl Modifier {
    /// The common part is sound, and a stacked lifecycle carries a sound
    /// configuration.
    pub open spec fn wf(self) -> bool {
        &&& self.common.wf()
        &&& self.mod_type matches ModType::Stacked { conf } ==> conf.wf()
    }

    /// Whether the modifier reports itself expired at time `ts`: only an
    /// expiring modifier whose expiry has been reached does.
    pub open spec fn has_expired_spec(self, ts: u64) -> bool {
        self.mod_type matches ModType::Expiring { exp_ts } && ts >= exp_ts
    }

    pub fn new_expiring(common: ModCommon, exp_ts: u64) -> (r: Modifier)
        ensures
            r == (Modifier { common, mod_type: ModType::Expiring { exp_ts } }),
            common.wf() ==> r.wf(),
    {
        Modifier { common, mod_type: ModType::Expiring { exp_ts } }
    }

    pub fn new_persistent(common: ModCommon) -> (r: Modifier)
        ensures
            r == (Modifier { common, mod_type: ModType::Persistent }),
            common.wf() ==> r.wf(),
    {
        Modifier { common, mod_type: ModType::Persistent }
    }

    pub fn new_stacked(common: ModCommon, conf: ModStackConf) -> (r: Modifier)
        ensures
            r == (Modifier { common, mod_type: ModType::Stacked { conf } }),
            common.wf() && conf.wf() ==> r.wf(),
    {
        Modifier { common, mod_type: ModType::Stacked { conf } }
    }

    pub fn has_expired(&self, ts: u64) -> (r: bool)
        ensures
            r == self.has_expired_spec(ts),
    {
        if let ModType::Expiring { exp_ts } = self.mod_type {
            return ts >= exp_ts;
        }
        false
    }

    /// The expiry timestamp of an expiring modifier.
    pub fn expiration_ts(&self) -> (r: Option<u64>)
        ensures
            r == (match self.mod_type {
                ModType::Expiring { exp_ts } => Some(exp_ts),
                _ => None::<u64>,
            }),
    {
        if let ModType::Expiring { exp_ts } = self.mod_type {
            return Some(exp_ts);
        }
        None
    }

    pub fn value(&self) -> (r: Decimal)
        ensures
            r == self.common.value,
    {
        self.common.value
    }

    pub fn calc_mode(&self) -> (r: ModCalcMode)
        ensures
            r == self.common.mode,
    {
        self.common.mode
    }

    pub fn calc_stage(&self) -> (r: ModCalcStage)
        ensures
            r == self.common.stage,
    {
        self.common.stage
    }

    /// The current multiplicity of a stacked modifier.
    pub fn stack(&self) -> (r: Result<u32, CharStatError>)
        ensures
            self.mod_type matches ModType::Stacked { conf } ==> r == Ok::<u32, CharStatError>(
                conf.stack_value,
            ),
            !(self.mod_type is Stacked) ==> (r matches Err(e) && is_not_stacked_error(
                e,
                self.mod_type,
            )),
    {
        if let ModType::Stacked { conf } = &self.mod_type {
            return Ok(conf.stack_value);
        }
        Err(CsLogicIssue::InvalidModifierType(self.mod_type, "Stacked".to_owned()).into())
    }

    /// Raises the multiplicity of a stacked modifier by one, up to its cap.
    pub fn stack_inc(&mut self) -> (r: Result<(), CharStatError>)
        ensures
            !(old(self).mod_type is Stacked) ==> (r matches Err(e) && is_not_stacked_error(
                e,
                old(self).mod_type,
            ) && *final(self) == *old(self)),
            old(self).mod_type matches ModType::Stacked { conf } ==> {
                &&& conf.stack_value >= conf.stack_max ==> (r matches Err(e) && is_above_max_error(
                    e,
                    "stack_value"@,
                ) && *final(self) == *old(self))
                &&& conf.stack_value < conf.stack_max ==> r == Ok::<(), CharStatError>(())
                    && *final(self) == (Modifier {
                    common: old(self).common,
                    mod_type: ModType::Stacked {
                        conf: ModStackConf { stack_value: (conf.stack_value + 1) as u32, ..conf },
                    },
                })
            },
            old(self).wf() ==> final(self).wf(),
    {
        if let ModType::Stacked { conf } = &mut self.mod_type {
            if conf.stack_value >= conf.stack_max {
                return Err(CsInvalidValue::AboveMaximum("stack_value".to_owned()).into());
            }
            conf.stack_value = conf.stack_value + 1;
            return Ok(());
        }
        Err(CsLogicIssue::InvalidModifierType(self.mod_type, "Stacked".to_owned()).into())
    }

    /// Lowers the multiplicity of a stacked modifier by one, down to zero.
    pub fn stack_dec(&mut self) -> (r: Result<(), CharStatError>)
        ensures
            !(old(self).mod_type is Stacked) ==> (r matches Err(e) && is_not_stacked_error(
                e,
                old(self).mod_type,
            ) && *final(self) == *old(self)),
            old(self).mod_type matches ModType::Stacked { conf } ==> {
                &&& conf.stack_value == 0 ==> (r matches Err(e) && is_below_min_error(
                    e,
                    "stack_value"@,
                ) && *final(self) == *old(self))
                &&& conf.stack_value > 0 ==> r == Ok::<(), CharStatError>(()) && *final(self) == (
                Modifier {
                    common: old(self).common,
                    mod_type: ModType::Stacked {
                        conf: ModStackConf { stack_value: (conf.stack_value - 1) as u32, ..conf },
                    },
                })
            },
            old(self).wf() ==> final(self).wf(),
    {
        if let ModType::Stacked { conf } = &mut self.mod_type {
            if conf.stack_value == 0 {
                return Err(CsInvalidValue::BelowMinimum("stack_value".to_owned()).into());
            }
            conf.stack_value = conf.stack_value - 1;
            return Ok(());
        }
        Err(CsLogicIssue::InvalidModifierType(self.mod_type, "Stacked".to_owned()).into())
    }

    /// Advances the decay clock of a stacked modifier to `ts`: every whole
    /// decay period elapsed since `last_ts` removes one stack, never below
    /// zero. The stored `last_ts` is left as it was.
    pub fn update_stack_ts(&mut self, ts: u64) -> (r: Result<(), CharStatError>)
        requires
            old(self).wf(),
        ensures
            !(old(self).mod_type is Stacked) ==> (r matches Err(e) && is_not_stacked_error(
                e,
                old(self).mod_type,
            ) && *final(self) == *old(self)),
            old(self).mod_type matches ModType::Stacked { conf } ==> {
                &&& conf.last_ts > ts ==> r == Err::<(), CharStatError>(
                    CharStatError::LogicIssue(CsLogicIssue::TimeTravel),
                ) && *final(self) == *old(self)
                &&& conf.last_ts <= ts ==> r == Ok::<(), CharStatError>(()) && *final(self) == (
                Modifier {
                    common: old(self).common,
                    mod_type: ModType::Stacked {
                        conf: ModStackConf {
                            stack_value: decayed_count(
                                conf.stack_value,
                                (ts - conf.last_ts) / (conf.duration as int),
                            ),
                            ..conf
                        },
                    },
                })
            },
            final(self).wf(),
    {
        if let ModType::Stacked { conf } = &mut self.mod_type {
            if conf.last_ts > ts {
                return Err(CsLogicIssue::TimeTravel.into());
            }
            let diff: u64 = ts - conf.last_ts;
            let periods: u64 = diff / conf.duration;
            let clear: u32 = if periods > u32::MAX as u64 {
                u32::MAX
            } else {
                periods as u32
            };
            conf.stack_value = if clear >= conf.stack_value {
                0
            } else {
                conf.stack_value - clear
            };
            return Ok(());
        }
        Err(CsLogicIssue::InvalidModifierType(self.mod_type, "Stacked".to_owned()).into())
    }
}

} // verus!
