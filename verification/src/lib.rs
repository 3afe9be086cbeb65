//! Game-statistics engine: a scaled base term, an optional upgrade term, and
//! per-stage aggregations of time-bounded modifiers, composed into one current
//! value behind a denormalized cache.
//!
//! All arithmetic runs on [`num::Decimal`], a fixed-point decimal number with
//! explicit undefined and infinite values, so every computation in the engine
//! carries an exact contract.

use vstd::prelude::*;

pub mod base;
pub mod base_mult;
pub mod bounds;
pub mod errors;
pub mod mod_mgr;
pub mod mod_mult;
pub mod modifier;
pub mod num;
pub mod rounding;
pub mod upgrade;

pub use crate::base::BaseConf;
pub use crate::base_mult::BaseMultConf;
pub use crate::bounds::Bounds;
pub use crate::errors::vec_to_csv_string;
pub use crate::errors::CharStatError;
pub use crate::errors::CsInvalidValue;
pub use crate::errors::CsLogicIssue;
pub use crate::errors::CsMissingComponent;
pub use crate::mod_mgr::ModConf;
pub use crate::mod_mult::ModMultConf;
pub use crate::modifier::ModCalcMode;
pub use crate::modifier::ModCalcStage;
pub use crate::modifier::ModCommon;
pub use crate::modifier::ModStackConf;
pub use crate::modifier::ModType;
pub use crate::modifier::Modifier;
pub use crate::num::Decimal;
pub use crate::rounding::RoundingFnEnum;
pub use crate::rounding::RoundingHelper;
pub use crate::upgrade::UpgradeConf;

verus! {

use crate::base::{base_value_spec, lemma_base_value_same};
use crate::base_mult::{
    set_base_clamping_result, set_base_result, set_exponent_clamping_result, set_exponent_result,
};
use crate::bounds::{accepted_by, check_inval_result, set_max_result, set_min_result};
use crate::mod_mgr::{agg_value_spec, surviving_mods};
use crate::mod_mult::mult_value_spec;
use crate::num::{add_spec, clamp_spec, le_spec, mul_spec, one_spec, sub_spec, zero_spec};
use crate::rounding::apply_rounding_spec;

/// An aggregator's cached value agrees with its modifier list, its own
/// configuration, and the given reference magnitude.
pub open spec fn agg_cache_ok(c: ModConf, refm: Decimal) -> bool {
    c.value == agg_value_spec(
        c.mod_vec@,
        refm,
        c.bounds,
        c.rounding_fn,
        c.is_min_percent,
        c.is_max_percent,
    )
}

/// Two aggregators share everything but their modifier list and cached value.
pub open spec fn same_agg_config(c: ModConf, c0: ModConf) -> bool {
    &&& c.stage == c0.stage
    &&& c.bounds == c0.bounds
    &&& c.rounding_fn == c0.rounding_fn
    &&& c.is_min_percent == c0.is_min_percent
    &&& c.is_max_percent == c0.is_max_percent
}

/// The current value as the composer caches it: the five component fields
/// summed left to right.
pub open spec fn current_sum_spec(s: CharStat) -> Decimal {
    add_spec(
        add_spec(
            add_spec(add_spec(s.val_base, s.val_base_mod), s.val_upgrade),
            s.val_upgrade_mod,
        ),
        s.val_base_plus_upgrade_mod,
    )
}

/// The root of the composition: the configured components, a monotonic
/// logical clock, and a denormalized cache of every intermediate value.
#[derive(Debug, Clone, PartialEq)]
pub struct CharStat {
    pub current_value: Decimal,
    pub time_stamp: u64,
    pub val_base: Decimal,
    pub val_base_mod: Decimal,
    pub val_upgrade: Decimal,
    pub val_upgrade_mod: Decimal,
    pub val_base_plus_upgrade_mod: Decimal,
    pub val_mod_mult: Decimal,
    pub base: BaseConf,
    pub upgrade: Option<UpgradeConf>,
    pub mod_of_base: Option<ModConf>,
    pub mod_of_upgrade: Option<ModConf>,
    pub mod_of_base_plus_upgrade: Option<ModConf>,
    pub mod_mult: Option<ModMultConf>,
}

impl CharStat {
    /// The structural configuration rules: the upgrade-dependent aggregators
    /// need an upgrade term, and the global multiplier needs at least one
    /// aggregator to scale.
    pub open spec fn config_ok(self) -> bool {
        &&& self.mod_of_upgrade is Some ==> self.upgrade is Some
        &&& self.mod_of_base_plus_upgrade is Some ==> self.upgrade is Some
        &&& self.mod_mult is Some ==> (self.mod_of_base is Some || self.mod_of_upgrade is Some
            || self.mod_of_base_plus_upgrade is Some)
    }

    /// The cache consistency rules below the root: every cached field equals
    /// the value recomputed from the components it depends on.
    pub open spec fn cache_ok_except_total(self) -> bool {
        &&& self.val_base == base_value_spec(self.base)
        &&& self.val_mod_mult == (match self.mod_mult {
            Some(m) => m.value,
            None => one_spec(),
        })
        &&& match self.mod_of_base {
            Some(c) => agg_cache_ok(c, self.val_base) && self.val_base_mod == mul_spec(
                c.value,
                self.val_mod_mult,
            ),
            None => self.val_base_mod == zero_spec(),
        }
        &&& self.val_upgrade == (match self.upgrade {
            Some(u) => u.value,
            None => zero_spec(),
        })
        &&& match self.mod_of_upgrade {
            Some(c) => agg_cache_ok(c, self.val_upgrade) && self.val_upgrade_mod == mul_spec(
                c.value,
                self.val_mod_mult,
            ),
            None => self.val_upgrade_mod == zero_spec(),
        }
        &&& match self.mod_of_base_plus_upgrade {
            Some(c) => agg_cache_ok(c, add_spec(self.val_base, self.val_upgrade))
                && self.val_base_plus_upgrade_mod == mul_spec(c.value, self.val_mod_mult),
            None => self.val_base_plus_upgrade_mod == zero_spec(),
        }
    }

    /// The full cache consistency rules: the fields below the root, and the
    /// current value as the sum of the five component fields.
    pub open spec fn cache_ok(self) -> bool {
        &&& self.cache_ok_except_total()
        &&& self.current_value == current_sum_spec(self)
    }

    /// Every component and cached field below the root is sound, the
    /// configuration rules hold, and the cache below the root is consistent.
    pub open spec fn wf_except_total(self) -> bool {
        &&& self.base.wf()
        &&& self.upgrade matches Some(u) ==> u.wf()
        &&& self.mod_of_base matches Some(c) ==> c.wf()
        &&& self.mod_of_upgrade matches Some(c) ==> c.wf()
        &&& self.mod_of_base_plus_upgrade matches Some(c) ==> c.wf()
        &&& self.mod_mult matches Some(m) ==> m.wf()
        &&& self.val_base.wf()
        &&& self.val_base_mod.wf()
        &&& self.val_upgrade.wf()
        &&& self.val_upgrade_mod.wf()
        &&& self.val_base_plus_upgrade_mod.wf()
        &&& self.val_mod_mult.wf()
        &&& self.config_ok()
        &&& self.cache_ok_except_total()
    }

    /// Every component and cached field is sound, the configuration rules
    /// hold, and the cache is consistent.
    pub open spec fn wf(self) -> bool {
        &&& self.wf_except_total()
        &&& self.current_value.wf()
        &&& self.current_value == current_sum_spec(self)
    }
}

// private recomputation helpers, leaf to root
impl CharStat {
    /// Recomputes the cached current value as the sum of the five component
    /// fields.
    fn update_current_value(&mut self)
        requires
            old(self).val_base.wf(),
            old(self).val_base_mod.wf(),
            old(self).val_upgrade.wf(),
            old(self).val_upgrade_mod.wf(),
            old(self).val_base_plus_upgrade_mod.wf(),
        ensures
            *final(self) == (CharStat {
                current_value: current_sum_spec(*old(self)),
                ..*old(self)
            }),
            final(self).current_value.wf(),
    {
        let a = self.val_base.plus(self.val_base_mod);
        let b = a.plus(self.val_upgrade);
        let c = b.plus(self.val_upgrade_mod);
        self.current_value = c.plus(self.val_base_plus_upgrade_mod);
    }

    /// Recomputes the base aggregator against the cached base value, then its
    /// scaled cache field.
    fn update_base_mod(&mut self)
        requires
            old(self).mod_of_base matches Some(c) && c.wf(),
            old(self).val_base.wf(),
            old(self).val_mod_mult.wf(),
        ensures
            old(self).mod_of_base matches Some(c0) ==> {
                &&& final(self).mod_of_base matches Some(c)
                &&& same_agg_config(c, c0)
                &&& c.mod_vec@ == c0.mod_vec@
                &&& agg_cache_ok(c, old(self).val_base)
                &&& c.wf()
                &&& final(self).val_base_mod == mul_spec(c.value, old(self).val_mod_mult)
                &&& final(self).val_base_mod.wf()
                &&& *final(self) == (CharStat {
                    mod_of_base: final(self).mod_of_base,
                    val_base_mod: final(self).val_base_mod,
                    ..*old(self)
                })
            },
    {
        let refm = self.val_base;
        let factor = self.val_mod_mult;
        match &mut self.mod_of_base {
            Some(mod_mgr) => {
                mod_mgr.update(refm);
                let v = mod_mgr.value();
                self.val_base_mod = v.times(factor);
            },
            None => {},
        }
    }

    /// Recomputes the upgrade aggregator against the cached upgrade value,
    /// then its scaled cache field.
    fn update_upgrade_mod(&mut self)
        requires
            old(self).mod_of_upgrade matches Some(c) && c.wf(),
            old(self).val_upgrade.wf(),
            old(self).val_mod_mult.wf(),
        ensures
            old(self).mod_of_upgrade matches Some(c0) ==> {
                &&& final(self).mod_of_upgrade matches Some(c)
                &&& same_agg_config(c, c0)
                &&& c.mod_vec@ == c0.mod_vec@
                &&& agg_cache_ok(c, old(self).val_upgrade)
                &&& c.wf()
                &&& final(self).val_upgrade_mod == mul_spec(c.value, old(self).val_mod_mult)
                &&& final(self).val_upgrade_mod.wf()
                &&& *final(self) == (CharStat {
                    mod_of_upgrade: final(self).mod_of_upgrade,
                    val_upgrade_mod: final(self).val_upgrade_mod,
                    ..*old(self)
                })
            },
    {
        let refm = self.val_upgrade;
        let factor = self.val_mod_mult;
        match &mut self.mod_of_upgrade {
            Some(mod_mgr) => {
                mod_mgr.update(refm);
                let v = mod_mgr.value();
                self.val_upgrade_mod = v.times(factor);
            },
            None => {},
        }
    }

    /// Recomputes the combined aggregator against the cached base plus
    /// upgrade, then its scaled cache field.
    fn update_base_plus_upgrade_mod(&mut self)
        requires
            old(self).mod_of_base_plus_upgrade matches Some(c) && c.wf(),
            old(self).val_base.wf(),
            old(self).val_upgrade.wf(),
            old(self).val_mod_mult.wf(),
        ensures
            old(self).mod_of_base_plus_upgrade matches Some(c0) ==> {
                &&& final(self).mod_of_base_plus_upgrade matches Some(c)
                &&& same_agg_config(c, c0)
                &&& c.mod_vec@ == c0.mod_vec@
                &&& agg_cache_ok(c, add_spec(old(self).val_base, old(self).val_upgrade))
                &&& c.wf()
                &&& final(self).val_base_plus_upgrade_mod == mul_spec(
                    c.value,
                    old(self).val_mod_mult,
                )
                &&& final(self).val_base_plus_upgrade_mod.wf()
                &&& *final(self) == (CharStat {
                    mod_of_base_plus_upgrade: final(self).mod_of_base_plus_upgrade,
                    val_base_plus_upgrade_mod: final(self).val_base_plus_upgrade_mod,
                    ..*old(self)
                })
            },
    {
        let refm = self.val_base.plus(self.val_upgrade);
        let factor = self.val_mod_mult;
        match &mut self.mod_of_base_plus_upgrade {
            Some(mod_mgr) => {
                mod_mgr.update(refm);
                let v = mod_mgr.value();
                self.val_base_plus_upgrade_mod = v.times(factor);
            },
            None => {},
        }
    }

    /// Recomputes the cached base value from the base term, then every
    /// aggregate that depends on it.
    fn update_base(&mut self)
        requires
            old(self).base.wf(),
            old(self).mod_of_base matches Some(c) ==> c.wf(),
            old(self).mod_of_base_plus_upgrade matches Some(c) ==> c.wf(),
            old(self).val_upgrade.wf(),
            old(self).val_mod_mult.wf(),
        ensures
            final(self).val_base == base_value_spec(old(self).base),
            final(self).val_base.wf(),
            old(self).mod_of_base matches Some(c0) ==> {
                &&& final(self).mod_of_base matches Some(c)
                &&& same_agg_config(c, c0)
                &&& c.mod_vec@ == c0.mod_vec@
                &&& agg_cache_ok(c, final(self).val_base)
                &&& c.wf()
                &&& final(self).val_base_mod == mul_spec(c.value, old(self).val_mod_mult)
                &&& final(self).val_base_mod.wf()
            },
            old(self).mod_of_base is None ==> final(self).mod_of_base is None && final(self).val_base_mod == old(self).val_base_mod,
            old(self).mod_of_base_plus_upgrade matches Some(c0) ==> {
                &&& final(self).mod_of_base_plus_upgrade matches Some(c)
                &&& same_agg_config(c, c0)
                &&& c.mod_vec@ == c0.mod_vec@
                &&& agg_cache_ok(c, add_spec(final(self).val_base, old(self).val_upgrade))
                &&& c.wf()
                &&& final(self).val_base_plus_upgrade_mod == mul_spec(
                    c.value,
                    old(self).val_mod_mult,
                )
                &&& final(self).val_base_plus_upgrade_mod.wf()
            },
            old(self).mod_of_base_plus_upgrade is None ==> final(self).mod_of_base_plus_upgrade
                is None && final(self).val_base_plus_upgrade_mod == old(self).val_base_plus_upgrade_mod,
            *final(self) == (CharStat {
                val_base: final(self).val_base,
                mod_of_base: final(self).mod_of_base,
                val_base_mod: final(self).val_base_mod,
                mod_of_base_plus_upgrade: final(self).mod_of_base_plus_upgrade,
                val_base_plus_upgrade_mod: final(self).val_base_plus_upgrade_mod,
                ..*old(self)
            }),
    {
        self.val_base = self.base.value();
        if self.mod_of_base.is_some() {
            self.update_base_mod();
        }
        if self.mod_of_base_plus_upgrade.is_some() {
            self.update_base_plus_upgrade_mod();
        }
    }

    /// Recomputes the cached upgrade value from the upgrade term, then every
    /// aggregate that depends on it; does nothing when no upgrade term is
    /// configured.
    fn update_upgrade(&mut self)
        requires
            old(self).upgrade matches Some(u) ==> u.wf(),
            old(self).mod_of_upgrade matches Some(c) ==> c.wf(),
            old(self).mod_of_base_plus_upgrade matches Some(c) ==> c.wf(),
            old(self).val_base.wf(),
            old(self).val_mod_mult.wf(),
        ensures
            old(self).upgrade is None ==> *final(self) == *old(self),
            old(self).upgrade matches Some(u) ==> {
                &&& final(self).val_upgrade == u.value
                &&& final(self).val_upgrade.wf()
                &&& (old(self).mod_of_upgrade matches Some(c0) ==> {
                    &&& final(self).mod_of_upgrade matches Some(c)
                    &&& same_agg_config(c, c0)
                    &&& c.mod_vec@ == c0.mod_vec@
                    &&& agg_cache_ok(c, final(self).val_upgrade)
                    &&& c.wf()
                    &&& final(self).val_upgrade_mod == mul_spec(c.value, old(self).val_mod_mult)
                    &&& final(self).val_upgrade_mod.wf()
                })
                &&& (old(self).mod_of_upgrade is None ==> final(self).mod_of_upgrade is None
                    && final(self).val_upgrade_mod == old(self).val_upgrade_mod)
                &&& (old(self).mod_of_base_plus_upgrade matches Some(c0) ==> {
                    &&& final(self).mod_of_base_plus_upgrade matches Some(c)
                    &&& same_agg_config(c, c0)
                    &&& c.mod_vec@ == c0.mod_vec@
                    &&& agg_cache_ok(c, add_spec(old(self).val_base, final(self).val_upgrade))
                    &&& c.wf()
                    &&& final(self).val_base_plus_upgrade_mod == mul_spec(
                        c.value,
                        old(self).val_mod_mult,
                    )
                    &&& final(self).val_base_plus_upgrade_mod.wf()
                })
                &&& (old(self).mod_of_base_plus_upgrade is None ==> final(self).mod_of_base_plus_upgrade is None && final(self).val_base_plus_upgrade_mod == old(self).val_base_plus_upgrade_mod)
                &&& *final(self) == (CharStat {
                    val_upgrade: final(self).val_upgrade,
                    mod_of_upgrade: final(self).mod_of_upgrade,
                    val_upgrade_mod: final(self).val_upgrade_mod,
                    mod_of_base_plus_upgrade: final(self).mod_of_base_plus_upgrade,
                    val_base_plus_upgrade_mod: final(self).val_base_plus_upgrade_mod,
                    ..*old(self)
                })
            },
    {
        let v = match &self.upgrade {
            Some(upgrade) => upgrade.value(),
            None => {
                return;
            },
        };
        self.val_upgrade = v;
        if self.mod_of_upgrade.is_some() {
            self.update_upgrade_mod();
        }
        if self.mod_of_base_plus_upgrade.is_some() {
            self.update_base_plus_upgrade_mod();
        }
    }
}

/// A freshly constructed composer holds the given components (each
/// aggregator keeps its configuration and modifier list) with the clock at
/// zero; the cached fields follow from [`CharStat::wf`].
pub open spec fn constructed_state(
    r: CharStat,
    base: BaseConf,
    upgrade: Option<UpgradeConf>,
    mod_of_base: Option<ModConf>,
    mod_of_upgrade: Option<ModConf>,
    mod_of_base_plus_upgrade: Option<ModConf>,
    mod_mult: Option<ModMultConf>,
) -> bool {
    &&& r.time_stamp == 0
    &&& r.base == base
    &&& r.upgrade == upgrade
    &&& r.mod_mult == mod_mult
    &&& (mod_of_base matches Some(c0) ==> (r.mod_of_base matches Some(c) && same_agg_config(c, c0)
        && c.mod_vec@ == c0.mod_vec@))
    &&& (mod_of_base is None ==> r.mod_of_base is None)
    &&& (mod_of_upgrade matches Some(c0) ==> (r.mod_of_upgrade matches Some(c)
        && same_agg_config(c, c0) && c.mod_vec@ == c0.mod_vec@))
    &&& (mod_of_upgrade is None ==> r.mod_of_upgrade is None)
    &&& (mod_of_base_plus_upgrade matches Some(c0) ==> (r.mod_of_base_plus_upgrade matches Some(c)
        && same_agg_config(c, c0) && c.mod_vec@ == c0.mod_vec@))
    &&& (mod_of_base_plus_upgrade is None ==> r.mod_of_base_plus_upgrade is None)
}

// construction
impl CharStat {
    /// Builds a composer from its components. The configuration rules are
    /// preconditions here; [`CharStat::try_new`] checks them at run time
    /// instead.
    pub fn new(
        base: BaseConf,
        upgrade: Option<UpgradeConf>,
        mod_of_base: Option<ModConf>,
        mod_of_upgrade: Option<ModConf>,
        mod_of_base_plus_upgrade: Option<ModConf>,
        mod_mult: Option<ModMultConf>,
    ) -> (r: Self)
        requires
            base.wf(),
            upgrade matches Some(u) ==> u.wf(),
            mod_of_base matches Some(c) ==> c.wf(),
            mod_of_upgrade matches Some(c) ==> c.wf(),
            mod_of_base_plus_upgrade matches Some(c) ==> c.wf(),
            mod_mult matches Some(m) ==> m.wf(),
            mod_of_upgrade is Some ==> upgrade is Some,
            mod_of_base_plus_upgrade is Some ==> upgrade is Some,
            mod_mult is Some ==> (mod_of_base is Some || mod_of_upgrade is Some
                || mod_of_base_plus_upgrade is Some),
        ensures
            constructed_state(
                r,
                base,
                upgrade,
                mod_of_base,
                mod_of_upgrade,
                mod_of_base_plus_upgrade,
                mod_mult,
            ),
            r.wf(),
    {
        let val_mod_mult = match &mod_mult {
            Some(tmp) => tmp.value(),
            None => Decimal::one(),
        };
        let mut out = CharStat {
            current_value: Decimal::zero(),
            time_stamp: 0,
            val_base: Decimal::zero(),
            val_base_mod: Decimal::zero(),
            val_upgrade: Decimal::zero(),
            val_upgrade_mod: Decimal::zero(),
            val_base_plus_upgrade_mod: Decimal::zero(),
            val_mod_mult,
            base,
            upgrade,
            mod_of_base,
            mod_of_upgrade,
            mod_of_base_plus_upgrade,
            mod_mult,
        };
        out.update_base();
        out.update_upgrade();
        out.update_current_value();
        out
    }

    /// Builds a composer after checking the configuration rules at run time:
    /// an upgrade-dependent aggregator without an upgrade term, or a global
    /// multiplier without any aggregator, is a configuration error.
    pub fn try_new(
        base: BaseConf,
        upgrade: Option<UpgradeConf>,
        mod_of_base: Option<ModConf>,
        mod_of_upgrade: Option<ModConf>,
        mod_of_base_plus_upgrade: Option<ModConf>,
        mod_mult: Option<ModMultConf>,
    ) -> (r: Result<Self, CharStatError>)
        requires
            base.wf(),
            upgrade matches Some(u) ==> u.wf(),
            mod_of_base matches Some(c) ==> c.wf(),
            mod_of_upgrade matches Some(c) ==> c.wf(),
            mod_of_base_plus_upgrade matches Some(c) ==> c.wf(),
            mod_mult matches Some(m) ==> m.wf(),
        ensures
            upgrade is None && (mod_of_upgrade is Some || mod_of_base_plus_upgrade is Some) ==> r
                == Err::<Self, CharStatError>(
                CharStatError::MissingComponent(CsMissingComponent::Upgrade),
            ),
            !(upgrade is None && (mod_of_upgrade is Some || mod_of_base_plus_upgrade is Some))
                && mod_mult is Some && mod_of_base is None && mod_of_upgrade is None
                && mod_of_base_plus_upgrade is None ==> (r matches Err(e) && e matches
                CharStatError::Other(msg) && msg@ == "the modifier multiplier requires at least one modifier aggregator"@),
            !(upgrade is None && (mod_of_upgrade is Some || mod_of_base_plus_upgrade is Some)) && !(
            mod_mult is Some && mod_of_base is None && mod_of_upgrade is None
                && mod_of_base_plus_upgrade is None) ==> (r matches Ok(cs) && constructed_state(
                cs,
                base,
                upgrade,
                mod_of_base,
                mod_of_upgrade,
                mod_of_base_plus_upgrade,
                mod_mult,
            ) && cs.wf()),
    {
        if upgrade.is_none() && (mod_of_upgrade.is_some() || mod_of_base_plus_upgrade.is_some()) {
            return Err(CsMissingComponent::Upgrade.into());
        }
        if mod_mult.is_some() && mod_of_base.is_none() && mod_of_upgrade.is_none()
            && mod_of_base_plus_upgrade.is_none() {
            return Err(
                CharStatError::custom(
                    "the modifier multiplier requires at least one modifier aggregator".to_owned(),
                ),
            );
        }
        Ok(
            CharStat::new(
                base,
                upgrade,
                mod_of_base,
                mod_of_upgrade,
                mod_of_base_plus_upgrade,
                mod_mult,
            ),
        )
    }

    /// Builds a composer holding only a base term.
    pub fn new_minimal(base: BaseConf) -> (r: Self)
        requires
            base.wf(),
        ensures
            constructed_state(r, base, None, None, None, None, None),
            r.wf(),
    {
        let mut out = CharStat {
            current_value: Decimal::zero(),
            time_stamp: 0,
            val_base: Decimal::zero(),
            val_base_mod: Decimal::zero(),
            val_upgrade: Decimal::zero(),
            val_upgrade_mod: Decimal::zero(),
            val_base_plus_upgrade_mod: Decimal::zero(),
            val_mod_mult: Decimal::one(),
            base,
            upgrade: None,
            mod_of_base: None,
            mod_of_upgrade: None,
            mod_of_base_plus_upgrade: None,
            mod_mult: None,
        };
        out.update_base();
        out.update_current_value();
        out
    }

    /// Builds a composer holding a base term and an optional upgrade term,
    /// with no modifier aggregation.
    pub fn new_no_mod(base: BaseConf, upgrade: Option<UpgradeConf>) -> (r: Self)
        requires
            base.wf(),
            upgrade matches Some(u) ==> u.wf(),
        ensures
            constructed_state(r, base, upgrade, None, None, None, None),
            r.wf(),
    {
        let mut out = CharStat {
            current_value: Decimal::zero(),
            time_stamp: 0,
            val_base: Decimal::zero(),
            val_base_mod: Decimal::zero(),
            val_upgrade: Decimal::zero(),
            val_upgrade_mod: Decimal::zero(),
            val_base_plus_upgrade_mod: Decimal::zero(),
            val_mod_mult: Decimal::one(),
            base,
            upgrade,
            mod_of_base: None,
            mod_of_upgrade: None,
            mod_of_base_plus_upgrade: None,
            mod_mult: None,
        };
        out.update_base();
        out.update_upgrade();
        out.update_current_value();
        out
    }
}

// reads
impl CharStat {
    /// The current (total) value. Reading recomputes nothing, so two reads
    /// without an intervening mutation return the same value.
    pub fn value(&self) -> (r: Decimal)
        ensures
            r == self.current_value,
    {
        self.current_value
    }

    /// The base component with its aggregate applied when a base aggregator
    /// is configured, else the raw base component.
    pub fn base(&self) -> (r: Decimal)
        requires
            self.wf(),
        ensures
            self.mod_of_base is Some ==> r == add_spec(self.val_base, self.val_base_mod),
            self.mod_of_base is None ==> r == self.val_base,
    {
        if self.mod_of_base.is_some() {
            return self.val_base.plus(self.val_base_mod);
        }
        self.val_base
    }

    /// The raw cached base component, without modifiers.
    pub fn base_raw(&self) -> (r: Decimal)
        ensures
            r == self.val_base,
    {
        self.val_base
    }

    /// The upgrade component with its aggregate applied when an upgrade
    /// aggregator is configured; refused when no upgrade term exists.
    pub fn upgrade(&self) -> (r: Result<Decimal, CharStatError>)
        requires
            self.wf(),
        ensures
            self.upgrade is Some && self.mod_of_upgrade is Some ==> r == Ok::<
                Decimal,
                CharStatError,
            >(add_spec(self.val_upgrade, self.val_upgrade_mod)),
            self.upgrade is Some && self.mod_of_upgrade is None ==> r == Ok::<
                Decimal,
                CharStatError,
            >(self.val_upgrade),
            self.upgrade is None ==> r == Err::<Decimal, CharStatError>(
                CharStatError::MissingComponent(CsMissingComponent::Upgrade),
            ),
    {
        match (&self.upgrade, &self.mod_of_upgrade) {
            (Some(_), Some(_)) => Ok(self.val_upgrade.plus(self.val_upgrade_mod)),
            (Some(_), None) => Ok(self.val_upgrade),
            (_, _) => Err(CsMissingComponent::Upgrade.into()),
        }
    }

    /// The raw cached upgrade component; refused when no upgrade term
    /// exists.
    pub fn upgrade_raw(&self) -> (r: Result<Decimal, CharStatError>)
        ensures
            self.upgrade is Some ==> r == Ok::<Decimal, CharStatError>(self.val_upgrade),
            self.upgrade is None ==> r == Err::<Decimal, CharStatError>(
                CharStatError::MissingComponent(CsMissingComponent::Upgrade),
            ),
    {
        if self.upgrade.is_some() {
            return Ok(self.val_upgrade);
        }
        Err(CsMissingComponent::Upgrade.into())
    }
}

/// What a successful clock move to `ts` leaves behind: the clock at `ts`,
/// the terms untouched, every aggregator holding only the modifiers that
/// survive `ts`, and the multiplier's factor recomputed; the remaining
/// cached fields follow from [`CharStat::wf`].
pub open spec fn swept_state(pre: CharStat, post: CharStat, ts: u64) -> bool {
    &&& post.time_stamp == ts
    &&& post.base == pre.base
    &&& post.upgrade == pre.upgrade
    &&& post.val_base == pre.val_base
    &&& post.val_upgrade == pre.val_upgrade
    &&& (pre.mod_mult matches Some(m0) ==> (post.mod_mult matches Some(m) && m.bounds == m0.bounds
        && m.mod_vec@ == surviving_mods(m0.mod_vec@, ts) && m.value == mult_value_spec(
        m.mod_vec@,
        m.bounds,
    ) && post.val_mod_mult == m.value))
    &&& (pre.mod_mult is None ==> post.mod_mult is None && post.val_mod_mult == pre.val_mod_mult)
    &&& (pre.mod_of_base matches Some(c0) ==> (post.mod_of_base matches Some(c)
        && same_agg_config(c, c0) && c.mod_vec@ == surviving_mods(c0.mod_vec@, ts)))
    &&& (pre.mod_of_base is None ==> post.mod_of_base is None)
    &&& (pre.mod_of_upgrade matches Some(c0) ==> (post.mod_of_upgrade matches Some(c)
        && same_agg_config(c, c0) && c.mod_vec@ == surviving_mods(c0.mod_vec@, ts)))
    &&& (pre.mod_of_upgrade is None ==> post.mod_of_upgrade is None)
    &&& (pre.mod_of_base_plus_upgrade matches Some(c0) ==> (post.mod_of_base_plus_upgrade
        matches Some(c) && same_agg_config(c, c0) && c.mod_vec@ == surviving_mods(
        c0.mod_vec@,
        ts,
    )))
    &&& (pre.mod_of_base_plus_upgrade is None ==> post.mod_of_base_plus_upgrade is None)
}

// the logical clock and modifier expiry
impl CharStat {
    /// Moves the clock to `new_val` and sweeps expired modifiers; refused
    /// when the clock would move backward.
    pub fn set_ts(&mut self, new_val: u64) -> (r: Result<(), CharStatError>)
        requires
            old(self).wf(),
        ensures
            new_val < old(self).time_stamp ==> r == Err::<(), CharStatError>(
                CharStatError::LogicIssue(CsLogicIssue::TimeTravel),
            ) && *final(self) == *old(self),
            new_val >= old(self).time_stamp ==> r == Ok::<(), CharStatError>(()) && swept_state(
                *old(self),
                *final(self),
                new_val,
            ),
            final(self).wf(),
    {
        if new_val < self.time_stamp {
            return Err(CsLogicIssue::TimeTravel.into());
        }
        self.time_stamp = new_val;
        self.remove_expired_modifiers();
        Ok(())
    }

    /// Moves the clock to `new_val` — backward moves included — and sweeps
    /// expired modifiers.
    pub fn set_ts_unchecked(&mut self, new_val: u64)
        requires
            old(self).wf(),
        ensures
            swept_state(*old(self), *final(self), new_val),
            final(self).wf(),
    {
        self.time_stamp = new_val;
        self.remove_expired_modifiers();
    }

    /// Sweeps every aggregator for modifiers expired at the current clock:
    /// the global multiplier first — its factor gates the others — then each
    /// aggregator recomputed against its cached reference, then the sum.
    fn remove_expired_modifiers(&mut self)
        requires
            old(self).wf(),
        ensures
            swept_state(*old(self), *final(self), old(self).time_stamp),
            final(self).time_stamp == old(self).time_stamp,
            final(self).wf(),
    {
        let ts = self.time_stamp;
        match &mut self.mod_mult {
            Some(tmp) => {
                tmp.remove_expired(ts);
                let v = tmp.value();
                self.val_mod_mult = v;
            },
            None => {},
        }
        if let Some(tmp) = &mut self.mod_of_base {
            tmp.remove_expired(ts);
        }
        if self.mod_of_base.is_some() {
            self.update_base_mod();
        }
        if let Some(tmp) = &mut self.mod_of_upgrade {
            tmp.remove_expired(ts);
        }
        if self.mod_of_upgrade.is_some() {
            self.update_upgrade_mod();
        }
        if let Some(tmp) = &mut self.mod_of_base_plus_upgrade {
            tmp.remove_expired(ts);
        }
        if self.mod_of_base_plus_upgrade.is_some() {
            self.update_base_plus_upgrade_mod();
        }
        self.update_current_value();
    }
}

// appending modifiers
impl CharStat {
    /// Routes a modifier to the aggregator of its stage and recomputes the
    /// dependent cached fields; refused when that aggregator is absent, with
    /// the composition left untouched.
    pub fn append_modifier(&mut self, modifier: Modifier) -> (r: Result<(), CharStatError>)
        requires
            old(self).wf(),
            modifier.wf(),
        ensures
            modifier.common.stage is Base ==> {
                &&& old(self).mod_of_base is None ==> r == Err::<(), CharStatError>(
                    CharStatError::MissingComponent(CsMissingComponent::ModOfBase),
                ) && *final(self) == *old(self)
                &&& old(self).mod_of_base matches Some(c0) ==> r == Ok::<(), CharStatError>(())
                    && appended_to_base(*old(self), *final(self), modifier)
            },
            modifier.common.stage is Upgrade ==> {
                &&& old(self).mod_of_upgrade is None ==> r == Err::<(), CharStatError>(
                    CharStatError::MissingComponent(CsMissingComponent::ModOfUpgrade),
                ) && *final(self) == *old(self)
                &&& old(self).mod_of_upgrade matches Some(c0) ==> r == Ok::<(), CharStatError>(())
                    && appended_to_upgrade(*old(self), *final(self), modifier)
            },
            modifier.common.stage is BasePlusUpgrade ==> {
                &&& old(self).mod_of_base_plus_upgrade is None ==> r == Err::<(), CharStatError>(
                    CharStatError::MissingComponent(CsMissingComponent::ModOfBasePlusUpgrade),
                ) && *final(self) == *old(self)
                &&& old(self).mod_of_base_plus_upgrade matches Some(c0) ==> r == Ok::<
                    (),
                    CharStatError,
                >(()) && appended_to_base_plus_upgrade(*old(self), *final(self), modifier)
            },
            modifier.common.stage is ModMult ==> {
                &&& old(self).mod_mult is None ==> r == Err::<(), CharStatError>(
                    CharStatError::MissingComponent(CsMissingComponent::ModMult),
                ) && *final(self) == *old(self)
                &&& old(self).mod_mult matches Some(m0) ==> r == Ok::<(), CharStatError>(())
                    && appended_to_mult(*old(self), *final(self), modifier)
            },
            final(self).wf(),
    {
        let outcome = match modifier.calc_stage() {
            ModCalcStage::Base => self.append_base_mod(modifier),
            ModCalcStage::Upgrade => self.append_upgrade_mod(modifier),
            ModCalcStage::BasePlusUpgrade => self.append_base_plus_upgrade_mod(modifier),
            ModCalcStage::ModMult => self.append_modmult(modifier),
        };
        if let Err(e) = outcome {
            return Err(e);
        }
        self.update_current_value();
        Ok(())
    }

    fn append_base_mod(&mut self, modifier: Modifier) -> (r: Result<(), CharStatError>)
        requires
            old(self).wf(),
            modifier.wf(),
        ensures
            old(self).mod_of_base is None ==> r == Err::<(), CharStatError>(
                CharStatError::MissingComponent(CsMissingComponent::ModOfBase),
            ) && *final(self) == *old(self),
            old(self).mod_of_base matches Some(c0) ==> r == Ok::<(), CharStatError>(())
                && appended_to_base(*old(self), *final(self), modifier),
            final(self).wf_except_total(),
            final(self).current_value == old(self).current_value,
    {
        if self.mod_of_base.is_none() {
            return Err(CsMissingComponent::ModOfBase.into());
        }
        let refm = self.base.value();
        match &mut self.mod_of_base {
            Some(mod_of_base) => {
                mod_of_base.append_mod_unchecked(refm, modifier);
            },
            None => {},
        }
        self.update_base_mod();
        Ok(())
    }

    fn append_upgrade_mod(&mut self, modifier: Modifier) -> (r: Result<(), CharStatError>)
        requires
            old(self).wf(),
            modifier.wf(),
        ensures
            old(self).mod_of_upgrade is None ==> r == Err::<(), CharStatError>(
                CharStatError::MissingComponent(CsMissingComponent::ModOfUpgrade),
            ) && *final(self) == *old(self),
            old(self).mod_of_upgrade matches Some(c0) ==> r == Ok::<(), CharStatError>(())
                && appended_to_upgrade(*old(self), *final(self), modifier),
            final(self).wf_except_total(),
            final(self).current_value == old(self).current_value,
    {
        if self.mod_of_upgrade.is_none() || self.upgrade.is_none() {
            return Err(CsMissingComponent::ModOfUpgrade.into());
        }
        let refm = match &self.upgrade {
            Some(upgrade) => upgrade.value(),
            None => Decimal::zero(),
        };
        match &mut self.mod_of_upgrade {
            Some(mod_of_upgrade) => {
                mod_of_upgrade.append_mod_unchecked(refm, modifier);
            },
            None => {},
        }
        self.update_upgrade_mod();
        Ok(())
    }

    fn append_base_plus_upgrade_mod(&mut self, modifier: Modifier) -> (r: Result<
        (),
        CharStatError,
    >)
        requires
            old(self).wf(),
            modifier.wf(),
        ensures
            old(self).mod_of_base_plus_upgrade is None ==> r == Err::<(), CharStatError>(
                CharStatError::MissingComponent(CsMissingComponent::ModOfBasePlusUpgrade),
            ) && *final(self) == *old(self),
            old(self).mod_of_base_plus_upgrade matches Some(c0) ==> r == Ok::<(), CharStatError>(())
                && appended_to_base_plus_upgrade(*old(self), *final(self), modifier),
            final(self).wf_except_total(),
            final(self).current_value == old(self).current_value,
    {
        if self.mod_of_base_plus_upgrade.is_none() {
            return Err(CsMissingComponent::ModOfBasePlusUpgrade.into());
        }
        let refm = self.val_base.plus(self.val_upgrade);
        match &mut self.mod_of_base_plus_upgrade {
            Some(tmp) => {
                tmp.append_mod_unchecked(refm, modifier);
            },
            None => {},
        }
        self.update_base_plus_upgrade_mod();
        Ok(())
    }

    fn append_modmult(&mut self, modifier: Modifier) -> (r: Result<(), CharStatError>)
        requires
            old(self).wf(),
            modifier.wf(),
            modifier.common.stage is ModMult,
        ensures
            old(self).mod_mult is None ==> r == Err::<(), CharStatError>(
                CharStatError::MissingComponent(CsMissingComponent::ModMult),
            ) && *final(self) == *old(self),
            old(self).mod_mult matches Some(m0) ==> r == Ok::<(), CharStatError>(())
                && appended_to_mult(*old(self), *final(self), modifier),
            final(self).wf_except_total(),
            final(self).current_value == old(self).current_value,
    {
        if self.mod_mult.is_none() {
            return Err(CsMissingComponent::ModMult.into());
        }
        match &mut self.mod_mult {
            Some(mod_mult) => {
                mod_mult.append_mod_unchecked(modifier);
                let v = mod_mult.value();
                self.val_mod_mult = v;
            },
            None => {},
        }
        if self.mod_of_base.is_some() {
            self.update_base_mod();
        }
        if self.mod_of_upgrade.is_some() {
            self.update_upgrade_mod();
        }
        if self.mod_of_base_plus_upgrade.is_some() {
            self.update_base_plus_upgrade_mod();
        }
        Ok(())
    }
}

/// A modifier landed in the base aggregator: its list grew by the modifier,
/// everything else configured stayed, and the caches follow from
/// [`CharStat::wf`] — except the total, which the caller re-sums.
pub open spec fn appended_to_base(pre: CharStat, post: CharStat, m: Modifier) -> bool {
    &&& post.time_stamp == pre.time_stamp
    &&& post.base == pre.base
    &&& post.upgrade == pre.upgrade
    &&& post.mod_mult == pre.mod_mult
    &&& post.val_mod_mult == pre.val_mod_mult
    &&& post.val_base == pre.val_base
    &&& post.val_upgrade == pre.val_upgrade
    &&& (pre.mod_of_base matches Some(c0) ==> (post.mod_of_base matches Some(c)
        && same_agg_config(c, c0) && c.mod_vec@ == c0.mod_vec@.push(m)))
    &&& post.mod_of_upgrade == pre.mod_of_upgrade
    &&& post.val_upgrade_mod == pre.val_upgrade_mod
    &&& post.mod_of_base_plus_upgrade == pre.mod_of_base_plus_upgrade
    &&& post.val_base_plus_upgrade_mod == pre.val_base_plus_upgrade_mod
}

/// A modifier landed in the upgrade aggregator; the counterpart of
/// [`appended_to_base`].
pub open spec fn appended_to_upgrade(pre: CharStat, post: CharStat, m: Modifier) -> bool {
    &&& post.time_stamp == pre.time_stamp
    &&& post.base == pre.base
    &&& post.upgrade == pre.upgrade
    &&& post.mod_mult == pre.mod_mult
    &&& post.val_mod_mult == pre.val_mod_mult
    &&& post.val_base == pre.val_base
    &&& post.val_upgrade == pre.val_upgrade
    &&& post.mod_of_base == pre.mod_of_base
    &&& post.val_base_mod == pre.val_base_mod
    &&& (pre.mod_of_upgrade matches Some(c0) ==> (post.mod_of_upgrade matches Some(c)
        && same_agg_config(c, c0) && c.mod_vec@ == c0.mod_vec@.push(m)))
    &&& post.mod_of_base_plus_upgrade == pre.mod_of_base_plus_upgrade
    &&& post.val_base_plus_upgrade_mod == pre.val_base_plus_upgrade_mod
}

/// A modifier landed in the combined aggregator; the counterpart of
/// [`appended_to_base`].
pub open spec fn appended_to_base_plus_upgrade(pre: CharStat, post: CharStat, m: Modifier) -> bool {
    &&& post.time_stamp == pre.time_stamp
    &&& post.base == pre.base
    &&& post.upgrade == pre.upgrade
    &&& post.mod_mult == pre.mod_mult
    &&& post.val_mod_mult == pre.val_mod_mult
    &&& post.val_base == pre.val_base
    &&& post.val_upgrade == pre.val_upgrade
    &&& post.mod_of_base == pre.mod_of_base
    &&& post.val_base_mod == pre.val_base_mod
    &&& post.mod_of_upgrade == pre.mod_of_upgrade
    &&& post.val_upgrade_mod == pre.val_upgrade_mod
    &&& (pre.mod_of_base_plus_upgrade matches Some(c0) ==> (post.mod_of_base_plus_upgrade
        matches Some(c) && same_agg_config(c, c0) && c.mod_vec@ == c0.mod_vec@.push(m)))
}

/// A modifier landed in the global multiplier: its list grew, its factor was
/// recomputed, and every configured aggregate was rescaled; the caches
/// follow from [`CharStat::wf`].
pub open spec fn appended_to_mult(pre: CharStat, post: CharStat, m: Modifier) -> bool {
    &&& post.time_stamp == pre.time_stamp
    &&& post.base == pre.base
    &&& post.upgrade == pre.upgrade
    &&& post.val_base == pre.val_base
    &&& post.val_upgrade == pre.val_upgrade
    &&& (pre.mod_mult matches Some(m0) ==> (post.mod_mult matches Some(mm) && mm.bounds
        == m0.bounds && mm.mod_vec@ == m0.mod_vec@.push(m) && mm.value == mult_value_spec(
        mm.mod_vec@,
        mm.bounds,
    ) && post.val_mod_mult == mm.value))
    &&& (pre.mod_of_base matches Some(c0) ==> (post.mod_of_base matches Some(c)
        && same_agg_config(c, c0) && c.mod_vec@ == c0.mod_vec@))
    &&& (pre.mod_of_base is None ==> post.mod_of_base is None)
    &&& (pre.mod_of_upgrade matches Some(c0) ==> (post.mod_of_upgrade matches Some(c)
        && same_agg_config(c, c0) && c.mod_vec@ == c0.mod_vec@))
    &&& (pre.mod_of_upgrade is None ==> post.mod_of_upgrade is None)
    &&& (pre.mod_of_base_plus_upgrade matches Some(c0) ==> (post.mod_of_base_plus_upgrade
        matches Some(c) && same_agg_config(c, c0) && c.mod_vec@ == c0.mod_vec@))
    &&& (pre.mod_of_base_plus_upgrade is None ==> post.mod_of_base_plus_upgrade is None)
}

/// The base term was replaced by `new_base` and every field that depends on
/// it was recomputed; the modifier lists and the other components stayed.
/// The cached fields follow from [`CharStat::wf`].
pub open spec fn base_replaced(pre: CharStat, post: CharStat, new_base: BaseConf) -> bool {
    &&& post.time_stamp == pre.time_stamp
    &&& post.base == new_base
    &&& post.upgrade == pre.upgrade
    &&& post.mod_mult == pre.mod_mult
    &&& post.val_mod_mult == pre.val_mod_mult
    &&& post.val_upgrade == pre.val_upgrade
    &&& (pre.mod_of_base matches Some(c0) ==> (post.mod_of_base matches Some(c)
        && same_agg_config(c, c0) && c.mod_vec@ == c0.mod_vec@))
    &&& (pre.mod_of_base is None ==> post.mod_of_base is None && post.val_base_mod
        == pre.val_base_mod)
    &&& post.mod_of_upgrade == pre.mod_of_upgrade
    &&& post.val_upgrade_mod == pre.val_upgrade_mod
    &&& (pre.mod_of_base_plus_upgrade matches Some(c0) ==> (post.mod_of_base_plus_upgrade
        matches Some(c) && same_agg_config(c, c0) && c.mod_vec@ == c0.mod_vec@))
    &&& (pre.mod_of_base_plus_upgrade is None ==> post.mod_of_base_plus_upgrade is None
        && post.val_base_plus_upgrade_mod == pre.val_base_plus_upgrade_mod)
}

/// The upgrade term was replaced by `new_upgrade` and every field that
/// depends on it was recomputed; the modifier lists and the other components
/// stayed. The cached fields follow from [`CharStat::wf`].
pub open spec fn upgrade_replaced(pre: CharStat, post: CharStat, new_upgrade: UpgradeConf) -> bool {
    &&& post.time_stamp == pre.time_stamp
    &&& post.base == pre.base
    &&& post.val_base == pre.val_base
    &&& post.upgrade == Some(new_upgrade)
    &&& post.mod_mult == pre.mod_mult
    &&& post.val_mod_mult == pre.val_mod_mult
    &&& post.mod_of_base == pre.mod_of_base
    &&& post.val_base_mod == pre.val_base_mod
    &&& (pre.mod_of_upgrade matches Some(c0) ==> (post.mod_of_upgrade matches Some(c)
        && same_agg_config(c, c0) && c.mod_vec@ == c0.mod_vec@))
    &&& (pre.mod_of_upgrade is None ==> post.mod_of_upgrade is None && post.val_upgrade_mod
        == pre.val_upgrade_mod)
    &&& (pre.mod_of_base_plus_upgrade matches Some(c0) ==> (post.mod_of_base_plus_upgrade
        matches Some(c) && same_agg_config(c, c0) && c.mod_vec@ == c0.mod_vec@))
    &&& (pre.mod_of_base_plus_upgrade is None ==> post.mod_of_base_plus_upgrade is None
        && post.val_base_plus_upgrade_mod == pre.val_base_plus_upgrade_mod)
}

/// Composition law: in every consistent composer, the current value is
/// exactly the sum of the cached base, base-aggregate, upgrade,
/// upgrade-aggregate and combined-aggregate fields, in that order.
pub proof fn lemma_current_value_is_component_sum(s: CharStat)
    requires
        s.wf(),
    ensures
        s.current_value == add_spec(
            add_spec(
                add_spec(add_spec(s.val_base, s.val_base_mod), s.val_upgrade),
                s.val_upgrade_mod,
            ),
            s.val_base_plus_upgrade_mod,
        ),
{
}

/// Composed-bounds law: when every cached component of a consistent composer
/// is finite within its own finite bounds, and the composed value is finite,
/// the composed value lies between the (saturating) sums of those bounds.
pub proof fn lemma_value_within_composed_bounds(
    s: CharStat,
    lo_base: Decimal,
    lo_base_mod: Decimal,
    lo_upgrade: Decimal,
    lo_upgrade_mod: Decimal,
    lo_combined: Decimal,
    hi_base: Decimal,
    hi_base_mod: Decimal,
    hi_upgrade: Decimal,
    hi_upgrade_mod: Decimal,
    hi_combined: Decimal,
)
    requires
        s.wf(),
        s.current_value.is_finite(),
        s.val_base.is_finite(),
        s.val_base_mod.is_finite(),
        s.val_upgrade.is_finite(),
        s.val_upgrade_mod.is_finite(),
        s.val_base_plus_upgrade_mod.is_finite(),
        lo_base.wf() && lo_base.is_finite() && le_spec(lo_base, s.val_base),
        lo_base_mod.wf() && lo_base_mod.is_finite() && le_spec(lo_base_mod, s.val_base_mod),
        lo_upgrade.wf() && lo_upgrade.is_finite() && le_spec(lo_upgrade, s.val_upgrade),
        lo_upgrade_mod.wf() && lo_upgrade_mod.is_finite() && le_spec(
            lo_upgrade_mod,
            s.val_upgrade_mod,
        ),
        lo_combined.wf() && lo_combined.is_finite() && le_spec(
            lo_combined,
            s.val_base_plus_upgrade_mod,
        ),
        hi_base.wf() && hi_base.is_finite() && le_spec(s.val_base, hi_base),
        hi_base_mod.wf() && hi_base_mod.is_finite() && le_spec(s.val_base_mod, hi_base_mod),
        hi_upgrade.wf() && hi_upgrade.is_finite() && le_spec(s.val_upgrade, hi_upgrade),
        hi_upgrade_mod.wf() && hi_upgrade_mod.is_finite() && le_spec(
            s.val_upgrade_mod,
            hi_upgrade_mod,
        ),
        hi_combined.wf() && hi_combined.is_finite() && le_spec(
            s.val_base_plus_upgrade_mod,
            hi_combined,
        ),
    ensures
        le_spec(
            add_spec(
                add_spec(add_spec(add_spec(lo_base, lo_base_mod), lo_upgrade), lo_upgrade_mod),
                lo_combined,
            ),
            s.current_value,
        ),
        le_spec(
            s.current_value,
            add_spec(
                add_spec(add_spec(add_spec(hi_base, hi_base_mod), hi_upgrade), hi_upgrade_mod),
                hi_combined,
            ),
        ),
{
    let p1 = add_spec(s.val_base, s.val_base_mod);
    let p2 = add_spec(p1, s.val_upgrade);
    let p3 = add_spec(p2, s.val_upgrade_mod);
    // a saturated or undefined partial sum would stay so through the
    // remaining additions, contradicting the finite composed value
    assert(p1.is_finite());
    assert(p2.is_finite());
    assert(p3.is_finite());
    crate::num::lemma_add_lower_mono(lo_base, lo_base_mod, s.val_base, s.val_base_mod);
    crate::num::lemma_add_lower_mono(add_spec(lo_base, lo_base_mod), lo_upgrade, p1, s.val_upgrade);
    crate::num::lemma_add_lower_mono(
        add_spec(add_spec(lo_base, lo_base_mod), lo_upgrade),
        lo_upgrade_mod,
        p2,
        s.val_upgrade_mod,
    );
    crate::num::lemma_add_lower_mono(
        add_spec(add_spec(add_spec(lo_base, lo_base_mod), lo_upgrade), lo_upgrade_mod),
        lo_combined,
        p3,
        s.val_base_plus_upgrade_mod,
    );
    crate::num::lemma_add_upper_mono(hi_base, hi_base_mod, s.val_base, s.val_base_mod);
    crate::num::lemma_add_upper_mono(add_spec(hi_base, hi_base_mod), hi_upgrade, p1, s.val_upgrade);
    crate::num::lemma_add_upper_mono(
        add_spec(add_spec(hi_base, hi_base_mod), hi_upgrade),
        hi_upgrade_mod,
        p2,
        s.val_upgrade_mod,
    );
    crate::num::lemma_add_upper_mono(
        add_spec(add_spec(add_spec(hi_base, hi_base_mod), hi_upgrade), hi_upgrade_mod),
        hi_combined,
        p3,
        s.val_base_plus_upgrade_mod,
    );
}

// the base term
impl CharStat {
    /// Replaces the raw base value after strict validation and recomputes
    /// everything that depends on the base.
    pub fn set_base_value(&mut self, value: Decimal) -> (r: Result<(), CharStatError>)
        requires
            old(self).wf(),
            value.wf(),
        ensures
            !old(self).base.is_mut ==> r == Err::<(), CharStatError>(
                CharStatError::LogicIssue(CsLogicIssue::FieldIsConst),
            ) && *final(self) == *old(self),
            old(self).base.is_mut && !accepted_by(value, old(self).base.bounds) ==> (r matches Err(
                e,
            ) && check_inval_result(Err(e), value, old(self).base.bounds, "value"@) && *final(self)
                == *old(self)),
            old(self).base.is_mut && accepted_by(value, old(self).base.bounds) ==> r == Ok::<
                (),
                CharStatError,
            >(()) && base_replaced(
                *old(self),
                *final(self),
                BaseConf { value, ..old(self).base },
            ),
            final(self).wf(),
    {
        if let Err(e) = self.base.set_value(value) {
            return Err(e);
        }
        self.update_base();
        self.update_current_value();
        Ok(())
    }

    /// Replaces the raw base value, clamped into the base bounds, and
    /// recomputes everything that depends on the base.
    pub fn set_base_value_clamping(&mut self, value: Decimal) -> (r: Result<(), CharStatError>)
        requires
            old(self).wf(),
            value.wf(),
        ensures
            !old(self).base.is_mut ==> r == Err::<(), CharStatError>(
                CharStatError::LogicIssue(CsLogicIssue::FieldIsConst),
            ) && *final(self) == *old(self),
            old(self).base.is_mut && value.is_nan_spec() ==> (r matches Err(e)
                && crate::errors::is_nan_error(e, "value"@) && *final(self) == *old(self)),
            old(self).base.is_mut && !value.is_nan_spec() ==> r == Ok::<(), CharStatError>(())
                && base_replaced(
                *old(self),
                *final(self),
                BaseConf {
                    value: clamp_spec(value, old(self).base.bounds.v_min, old(self).base.bounds.v_max),
                    ..old(self).base
                },
            ),
            final(self).wf(),
    {
        if let Err(e) = self.base.set_value_clamping(value) {
            return Err(e);
        }
        self.update_base();
        self.update_current_value();
        Ok(())
    }

    /// Freezes the raw base value: a one-way transition.
    pub fn set_base_value_const(&mut self)
        requires
            old(self).wf(),
        ensures
            *final(self) == (CharStat {
                base: BaseConf { is_mut: false, ..old(self).base },
                ..*old(self)
            }),
            final(self).wf(),
    {
        proof {
            lemma_base_value_same(
                self.base,
                BaseConf { is_mut: false, ..self.base },
            );
        }
        self.base.set_value_const();
    }

    /// Moves the base term's lower bound; the cached values are unaffected.
    pub fn set_base_bounds_min(&mut self, new_val: Decimal) -> (r: Result<(), CharStatError>)
        requires
            old(self).wf(),
            new_val.wf(),
        ensures
            set_min_result(old(self).base.bounds, final(self).base.bounds, r, new_val),
            *final(self) == (CharStat {
                base: BaseConf { bounds: final(self).base.bounds, ..old(self).base },
                ..*old(self)
            }),
            final(self).wf(),
    {
        let r = self.base.set_bounds_min(new_val);
        proof {
            lemma_base_value_same(old(self).base, self.base);
        }
        r
    }

    /// Moves the base term's upper bound; the cached values are unaffected.
    pub fn set_base_bounds_max(&mut self, new_val: Decimal) -> (r: Result<(), CharStatError>)
        requires
            old(self).wf(),
            new_val.wf(),
        ensures
            set_max_result(old(self).base.bounds, final(self).base.bounds, r, new_val),
            *final(self) == (CharStat {
                base: BaseConf { bounds: final(self).base.bounds, ..old(self).base },
                ..*old(self)
            }),
            final(self).wf(),
    {
        let r = self.base.set_bounds_max(new_val);
        proof {
            lemma_base_value_same(old(self).base, self.base);
        }
        r
    }

    /// Freezes the base term's lower bound.
    pub fn set_base_bounds_min_const(&mut self)
        requires
            old(self).wf(),
        ensures
            *final(self) == (CharStat {
                base: BaseConf {
                    bounds: crate::bounds::Bounds { is_min_mut: false, ..old(self).base.bounds },
                    ..old(self).base
                },
                ..*old(self)
            }),
            final(self).wf(),
    {
        self.base.set_bounds_min_const();
        proof {
            lemma_base_value_same(old(self).base, self.base);
        }
    }

    /// Freezes the base term's upper bound.
    pub fn set_base_bounds_max_const(&mut self)
        requires
            old(self).wf(),
        ensures
            *final(self) == (CharStat {
                base: BaseConf {
                    bounds: crate::bounds::Bounds { is_max_mut: false, ..old(self).base.bounds },
                    ..old(self).base
                },
                ..*old(self)
            }),
            final(self).wf(),
    {
        self.base.set_bounds_max_const();
        proof {
            lemma_base_value_same(old(self).base, self.base);
        }
    }

    pub fn base_bounds_min(&self) -> (r: Decimal)
        ensures
            r == self.base.bounds.v_min,
    {
        self.base.bounds_min()
    }

    pub fn base_bounds_max(&self) -> (r: Decimal)
        ensures
            r == self.base.bounds.v_max,
    {
        self.base.bounds_max()
    }
}

// the base multiplier
impl CharStat {
    /// Replaces the multiplier's base after strict validation; refused when
    /// no multiplier is attached. On success everything that depends on the
    /// base is recomputed.
    pub fn set_mult_base(&mut self, new_val: Decimal) -> (r: Result<(), CharStatError>)
        requires
            old(self).wf(),
            new_val.wf(),
        ensures
            old(self).base.mult is None ==> r == Err::<(), CharStatError>(
                CharStatError::MissingComponent(CsMissingComponent::BaseMult),
            ) && *final(self) == *old(self),
            old(self).base.mult matches Some(m) ==> {
                &&& final(self).base.mult matches Some(m2) && set_base_result(m, m2, r, new_val)
                &&& r is Err ==> *final(self) == *old(self)
                &&& r is Ok ==> base_replaced(
                    *old(self),
                    *final(self),
                    BaseConf { mult: final(self).base.mult, ..old(self).base },
                )
            },
            final(self).wf(),
    {
        if let Err(e) = self.base.set_mult_base(new_val) {
            return Err(e);
        }
        self.update_base();
        self.update_current_value();
        Ok(())
    }

    /// Replaces the multiplier's exponent after strict validation; refused
    /// when no multiplier is attached. On success everything that depends on
    /// the base is recomputed.
    pub fn set_mult_exponent(&mut self, new_val: Decimal) -> (r: Result<(), CharStatError>)
        requires
            old(self).wf(),
            new_val.wf(),
        ensures
            old(self).base.mult is None ==> r == Err::<(), CharStatError>(
                CharStatError::MissingComponent(CsMissingComponent::BaseMult),
            ) && *final(self) == *old(self),
            old(self).base.mult matches Some(m) ==> {
                &&& final(self).base.mult matches Some(m2) && set_exponent_result(m, m2, r, new_val)
                &&& r is Err ==> *final(self) == *old(self)
                &&& r is Ok ==> base_replaced(
                    *old(self),
                    *final(self),
                    BaseConf { mult: final(self).base.mult, ..old(self).base },
                )
            },
            final(self).wf(),
    {
        if let Err(e) = self.base.set_mult_exponent(new_val) {
            return Err(e);
        }
        self.update_base();
        self.update_current_value();
        Ok(())
    }

    /// Replaces the multiplier's base, clamped into its bounds; refused when
    /// no multiplier is attached.
    pub fn set_mult_base_clamping(&mut self, new_val: Decimal) -> (r: Result<(), CharStatError>)
        requires
            old(self).wf(),
            new_val.wf(),
        ensures
            old(self).base.mult is None ==> r == Err::<(), CharStatError>(
                CharStatError::MissingComponent(CsMissingComponent::BaseMult),
            ) && *final(self) == *old(self),
            old(self).base.mult matches Some(m) ==> {
                &&& final(self).base.mult matches Some(m2) && set_base_clamping_result(
                    m,
                    m2,
                    r,
                    new_val,
                )
                &&& r is Err ==> *final(self) == *old(self)
                &&& r is Ok ==> base_replaced(
                    *old(self),
                    *final(self),
                    BaseConf { mult: final(self).base.mult, ..old(self).base },
                )
            },
            final(self).wf(),
    {
        if let Err(e) = self.base.set_mult_base_clamping(new_val) {
            return Err(e);
        }
        self.update_base();
        self.update_current_value();
        Ok(())
    }

    /// Replaces the multiplier's exponent, clamped into its bounds; refused
    /// when no multiplier is attached.
    pub fn set_mult_exponent_clamping(&mut self, new_val: Decimal) -> (r: Result<
        (),
        CharStatError,
    >)
        requires
            old(self).wf(),
            new_val.wf(),
        ensures
            old(self).base.mult is None ==> r == Err::<(), CharStatError>(
                CharStatError::MissingComponent(CsMissingComponent::BaseMult),
            ) && *final(self) == *old(self),
            old(self).base.mult matches Some(m) ==> {
                &&& final(self).base.mult matches Some(m2) && set_exponent_clamping_result(
                    m,
                    m2,
                    r,
                    new_val,
                )
                &&& r is Err ==> *final(self) == *old(self)
                &&& r is Ok ==> base_replaced(
                    *old(self),
                    *final(self),
                    BaseConf { mult: final(self).base.mult, ..old(self).base },
                )
            },
            final(self).wf(),
    {
        if let Err(e) = self.base.set_mult_exponent_clamping(new_val) {
            return Err(e);
        }
        self.update_base();
        self.update_current_value();
        Ok(())
    }
}

// the upgrade term
impl CharStat {
    /// Replaces the upgrade value after strict validation; refused when no
    /// upgrade term exists. On success everything that depends on the
    /// upgrade is recomputed.
    pub fn set_upgrade_value(&mut self, value: Decimal) -> (r: Result<(), CharStatError>)
        requires
            old(self).wf(),
            value.wf(),
        ensures
            old(self).upgrade is None ==> r == Err::<(), CharStatError>(
                CharStatError::MissingComponent(CsMissingComponent::Upgrade),
            ) && *final(self) == *old(self),
            old(self).upgrade matches Some(u) ==> {
                &&& !accepted_by(value, u.bounds) ==> (r matches Err(e) && check_inval_result(
                    Err(e),
                    value,
                    u.bounds,
                    "value"@,
                ) && *final(self) == *old(self))
                &&& accepted_by(value, u.bounds) ==> r == Ok::<(), CharStatError>(())
                    && upgrade_replaced(
                    *old(self),
                    *final(self),
                    UpgradeConf { value: apply_rounding_spec(u.rounding_fn, value), ..u },
                )
            },
            final(self).wf(),
    {
        match &mut self.upgrade {
            Some(upgrade) => {
                if let Err(e) = upgrade.set_value(value) {
                    return Err(e);
                }
            },
            None => {
                return Err(CsMissingComponent::Upgrade.into());
            },
        }
        self.update_upgrade();
        self.update_current_value();
        Ok(())
    }

    /// Replaces the upgrade value, rounded then clamped into its bounds;
    /// refused when no upgrade term exists.
    pub fn set_upgrade_value_clamping(&mut self, value: Decimal) -> (r: Result<(), CharStatError>)
        requires
            old(self).wf(),
            value.wf(),
        ensures
            old(self).upgrade is None ==> r == Err::<(), CharStatError>(
                CharStatError::MissingComponent(CsMissingComponent::Upgrade),
            ) && *final(self) == *old(self),
            old(self).upgrade matches Some(u) ==> {
                &&& value.is_nan_spec() ==> (r matches Err(e) && crate::errors::is_nan_error(
                    e,
                    "value"@,
                ) && *final(self) == *old(self))
                &&& !value.is_nan_spec() ==> r == Ok::<(), CharStatError>(()) && upgrade_replaced(
                    *old(self),
                    *final(self),
                    UpgradeConf {
                        value: clamp_spec(
                            apply_rounding_spec(u.rounding_fn, value),
                            u.bounds.v_min,
                            u.bounds.v_max,
                        ),
                        ..u
                    },
                )
            },
            final(self).wf(),
    {
        match &mut self.upgrade {
            Some(upgrade) => {
                if let Err(e) = upgrade.set_value_clamping(value) {
                    return Err(e);
                }
            },
            None => {
                return Err(CsMissingComponent::Upgrade.into());
            },
        }
        self.update_upgrade();
        self.update_current_value();
        Ok(())
    }

    /// Raises the upgrade value by the given amount, validated strictly;
    /// refused when no upgrade term exists.
    pub fn inc_upgrade_value(&mut self, value: Decimal) -> (r: Result<(), CharStatError>)
        requires
            old(self).wf(),
            value.wf(),
        ensures
            old(self).upgrade is None ==> r == Err::<(), CharStatError>(
                CharStatError::MissingComponent(CsMissingComponent::Upgrade),
            ) && *final(self) == *old(self),
            old(self).upgrade matches Some(u) ==> {
                &&& !accepted_by(add_spec(u.value, value), u.bounds) ==> (r matches Err(e)
                    && check_inval_result(Err(e), add_spec(u.value, value), u.bounds, "value"@)
                    && *final(self) == *old(self))
                &&& accepted_by(add_spec(u.value, value), u.bounds) ==> r == Ok::<
                    (),
                    CharStatError,
                >(()) && upgrade_replaced(
                    *old(self),
                    *final(self),
                    UpgradeConf {
                        value: apply_rounding_spec(u.rounding_fn, add_spec(u.value, value)),
                        ..u
                    },
                )
            },
            final(self).wf(),
    {
        let target = match &self.upgrade {
            Some(upgrade) => upgrade.value().plus(value),
            None => {
                return Err(CsMissingComponent::Upgrade.into());
            },
        };
        self.set_upgrade_value(target)
    }

    /// Lowers the upgrade value by the given amount, validated strictly;
    /// refused when no upgrade term exists.
    pub fn dec_upgrade_value(&mut self, value: Decimal) -> (r: Result<(), CharStatError>)
        requires
            old(self).wf(),
            value.wf(),
        ensures
            old(self).upgrade is None ==> r == Err::<(), CharStatError>(
                CharStatError::MissingComponent(CsMissingComponent::Upgrade),
            ) && *final(self) == *old(self),
            old(self).upgrade matches Some(u) ==> {
                &&& !accepted_by(sub_spec(u.value, value), u.bounds) ==> (r matches Err(e)
                    && check_inval_result(Err(e), sub_spec(u.value, value), u.bounds, "value"@)
                    && *final(self) == *old(self))
                &&& accepted_by(sub_spec(u.value, value), u.bounds) ==> r == Ok::<
                    (),
                    CharStatError,
                >(()) && upgrade_replaced(
                    *old(self),
                    *final(self),
                    UpgradeConf {
                        value: apply_rounding_spec(u.rounding_fn, sub_spec(u.value, value)),
                        ..u
                    },
                )
            },
            final(self).wf(),
    {
        let target = match &self.upgrade {
            Some(upgrade) => upgrade.value().minus(value),
            None => {
                return Err(CsMissingComponent::Upgrade.into());
            },
        };
        self.set_upgrade_value(target)
    }

    /// Moves the upgrade term's lower bound; refused when no upgrade term
    /// exists.
    pub fn set_upgrade_bounds_min(&mut self, new_val: Decimal) -> (r: Result<(), CharStatError>)
        requires
            old(self).wf(),
            new_val.wf(),
        ensures
            old(self).upgrade is None ==> r == Err::<(), CharStatError>(
                CharStatError::MissingComponent(CsMissingComponent::Upgrade),
            ) && *final(self) == *old(self),
            old(self).upgrade matches Some(u0) ==> (final(self).upgrade matches Some(u)
                && set_min_result(u0.bounds, u.bounds, r, new_val) && *final(self) == (CharStat {
                upgrade: Some(UpgradeConf { bounds: u.bounds, ..u0 }),
                ..*old(self)
            })),
            final(self).wf(),
    {
        match &mut self.upgrade {
            Some(upgrade) => upgrade.set_bounds_min(new_val),
            None => Err(CsMissingComponent::Upgrade.into()),
        }
    }

    /// Moves the upgrade term's upper bound; refused when no upgrade term
    /// exists.
    pub fn set_upgrade_bounds_max(&mut self, new_val: Decimal) -> (r: Result<(), CharStatError>)
        requires
            old(self).wf(),
            new_val.wf(),
        ensures
            old(self).upgrade is None ==> r == Err::<(), CharStatError>(
                CharStatError::MissingComponent(CsMissingComponent::Upgrade),
            ) && *final(self) == *old(self),
            old(self).upgrade matches Some(u0) ==> (final(self).upgrade matches Some(u)
                && set_max_result(u0.bounds, u.bounds, r, new_val) && *final(self) == (CharStat {
                upgrade: Some(UpgradeConf { bounds: u.bounds, ..u0 }),
                ..*old(self)
            })),
            final(self).wf(),
    {
        match &mut self.upgrade {
            Some(upgrade) => upgrade.set_bounds_max(new_val),
            None => Err(CsMissingComponent::Upgrade.into()),
        }
    }

    /// Freezes the upgrade term's lower bound; refused when no upgrade term
    /// exists.
    pub fn set_upgrade_bounds_min_const(&mut self) -> (r: Result<(), CharStatError>)
        requires
            old(self).wf(),
        ensures
            old(self).upgrade is None ==> r == Err::<(), CharStatError>(
                CharStatError::MissingComponent(CsMissingComponent::Upgrade),
            ) && *final(self) == *old(self),
            old(self).upgrade matches Some(u0) ==> r == Ok::<(), CharStatError>(()) && *final(self)
                == (CharStat {
                upgrade: Some(
                    UpgradeConf {
                        bounds: crate::bounds::Bounds { is_min_mut: false, ..u0.bounds },
                        ..u0
                    },
                ),
                ..*old(self)
            }),
            final(self).wf(),
    {
        match &mut self.upgrade {
            Some(upgrade) => {
                upgrade.set_bounds_min_const();
                Ok(())
            },
            None => Err(CsMissingComponent::Upgrade.into()),
        }
    }

    /// Freezes the upgrade term's upper bound; refused when no upgrade term
    /// exists.
    pub fn set_upgrade_bounds_max_const(&mut self) -> (r: Result<(), CharStatError>)
        requires
            old(self).wf(),
        ensures
            old(self).upgrade is None ==> r == Err::<(), CharStatError>(
                CharStatError::MissingComponent(CsMissingComponent::Upgrade),
            ) && *final(self) == *old(self),
            old(self).upgrade matches Some(u0) ==> r == Ok::<(), CharStatError>(()) && *final(self)
                == (CharStat {
                upgrade: Some(
                    UpgradeConf {
                        bounds: crate::bounds::Bounds { is_max_mut: false, ..u0.bounds },
                        ..u0
                    },
                ),
                ..*old(self)
            }),
            final(self).wf(),
    {
        match &mut self.upgrade {
            Some(upgrade) => {
                upgrade.set_bounds_max_const();
                Ok(())
            },
            None => Err(CsMissingComponent::Upgrade.into()),
        }
    }

    /// The upgrade term's lower bound, when an upgrade term exists.
    pub fn upgrade_bounds_min(&self) -> (r: Option<Decimal>)
        ensures
            r == (match self.upgrade {
                Some(u) => Some(u.bounds.v_min),
                None => None::<Decimal>,
            }),
    {
        if let Some(upgrade) = &self.upgrade {
            return Some(upgrade.bounds_min());
        }
        None
    }

    /// The upgrade term's upper bound, when an upgrade term exists.
    pub fn upgrade_bounds_max(&self) -> (r: Option<Decimal>)
        ensures
            r == (match self.upgrade {
                Some(u) => Some(u.bounds.v_max),
                None => None::<Decimal>,
            }),
    {
        if let Some(upgrade) = &self.upgrade {
            return Some(upgrade.bounds_max());
        }
        None
    }
}

} // verus!

