//! Tower templates: skills, actions, upgradeable properties, and the
//! resolution of a base action plus upgrade levels into a ready-to-apply
//! action.

use vstd::prelude::*;

use crate::elemental::{ElementalStateKind, TowerElement};
use crate::geom::COORD_LIMIT;
use crate::units::{AMOUNT_LIMIT, COUNT_LIMIT, DURATION_LIMIT, PERCENT_LIMIT, RATE_LIMIT};

verus! {

/// Bound on state strengths (damage per second, slow multiplier, stun
/// length) after every upgrade is applied.
pub const STRENGTH_LIMIT: i64 = 1_000_000_000;

/// Bound on slow ratios, in per-mille of normal speed.
pub const RATIO_LIMIT: i64 = 100_000;

/// Bound on a single upgrade's base value.
pub const PROP_BASE_LIMIT: i64 = 1_000_000_000;

/// Bound on a single upgrade's bonus per level.
pub const PROP_BONUS_LIMIT: i64 = 100_000_000;

/// Bound on upgrade levels.
pub const PROP_LEVEL_LIMIT: u32 = 1_000;

/// Bound on gold costs appearing in templates.
pub const COST_LIMIT: u32 = 1_000_000;

#[derive(Clone, Copy, PartialEq, Eq, Structural, Debug)]
pub enum TargetPriority {
    Closest,
    Farthest,
    HighestHp,
    LowestHp,
}

impl TargetPriority {
    /// Every priority, in the order the interface cycles through them.
    pub fn all() -> (r: Vec<TargetPriority>)
        ensures
            r@ == seq![
                TargetPriority::Closest,
                TargetPriority::Farthest,
                TargetPriority::HighestHp,
                TargetPriority::LowestHp,
            ],
    {
        let mut v: Vec<TargetPriority> = Vec::new();
        v.push(TargetPriority::Closest);
        v.push(TargetPriority::Farthest);
        v.push(TargetPriority::HighestHp);
        v.push(TargetPriority::LowestHp);
        proof {
            assert(v@ =~= seq![
                TargetPriority::Closest,
                TargetPriority::Farthest,
                TargetPriority::HighestHp,
                TargetPriority::LowestHp,
            ]);
        }
        v
    }

    pub fn display_name(&self) -> (r: &'static str) {
        match self {
            TargetPriority::Closest => "Plus proche",
            TargetPriority::Farthest => "Plus loin",
            TargetPriority::HighestHp => "HP max",
            TargetPriority::LowestHp => "HP min",
        }
    }

    pub open spec fn spec_next(self) -> TargetPriority {
        match self {
            TargetPriority::Closest => TargetPriority::Farthest,
            TargetPriority::Farthest => TargetPriority::HighestHp,
            TargetPriority::HighestHp => TargetPriority::LowestHp,
            TargetPriority::LowestHp => TargetPriority::Closest,
        }
    }

    pub fn next(&self) -> (r: TargetPriority)
        ensures
            r == self.spec_next(),
    {
        match self {
            TargetPriority::Closest => TargetPriority::Farthest,
            TargetPriority::Farthest => TargetPriority::HighestHp,
            TargetPriority::HighestHp => TargetPriority::LowestHp,
            TargetPriority::LowestHp => TargetPriority::Closest,
        }
    }
}

impl Default for TargetPriority {
    fn default() -> (r: Self)
        ensures
            r == TargetPriority::Closest,
    {
        TargetPriority::Closest
    }
}

#[derive(Clone, Copy, PartialEq, Eq, Structural, Debug)]
pub enum TowerKind {
    Sentinelle,
    Inferno,
    Ocean,
    Tesla,
    Seisme,
    Sniper,
    Armurerie,
    Alarme,
    Void,
    Glace,
}

impl TowerKind {
    /// Every kind, in the order the build menu lists them.
    pub fn all() -> (r: Vec<TowerKind>)
        ensures
            r@.len() == 10,
            r@ == seq![
                TowerKind::Sentinelle,
                TowerKind::Inferno,
                TowerKind::Ocean,
                TowerKind::Glace,
                TowerKind::Tesla,
                TowerKind::Seisme,
                TowerKind::Sniper,
                TowerKind::Armurerie,
                TowerKind::Void,
                TowerKind::Alarme,
            ],
    {
        let mut v: Vec<TowerKind> = Vec::new();
        v.push(TowerKind::Sentinelle);
        v.push(TowerKind::Inferno);
        v.push(TowerKind::Ocean);
        v.push(TowerKind::Glace);
        v.push(TowerKind::Tesla);
        v.push(TowerKind::Seisme);
        v.push(TowerKind::Sniper);
        v.push(TowerKind::Armurerie);
        v.push(TowerKind::Void);
        v.push(TowerKind::Alarme);
        proof {
            assert(v@ =~= seq![
                TowerKind::Sentinelle,
                TowerKind::Inferno,
                TowerKind::Ocean,
                TowerKind::Glace,
                TowerKind::Tesla,
                TowerKind::Seisme,
                TowerKind::Sniper,
                TowerKind::Armurerie,
                TowerKind::Void,
                TowerKind::Alarme,
            ]);
        }
        v
    }
}

#[derive(Clone, Copy, PartialEq, Eq, Structural, Debug)]
pub enum EffectTarget {
    Single,
    Multi(u32),
    Area(i64),
    /// Hits the primary target, then hops to up to `count` further enemies,
    /// each within `range` of the previous one.
    Chain { count: u32, range: i64 },
}

#[derive(Clone, Copy, PartialEq, Eq, Structural, Debug)]
pub enum EffectType {
    Burn { dps: i64, duration: i64 },
    Slow { ratio: i64, duration: i64 },
    Stun { duration: i64 },
}

#[derive(Clone, Copy, PartialEq, Eq, Structural, Debug)]
pub enum DamageType {
    Fixed(i64),
    PercentHp(i64),
}

#[derive(Clone, Copy, PartialEq, Eq, Structural, Debug)]
pub enum TowerAction {
    ApplyDamage { target: EffectTarget, damage: DamageType },
    ApplyEffect { target: EffectTarget, effect: EffectType },
    /// Passive gold trickle, in milli-gold per second.
    GoldGen { gold_per_second: i64 },
    ApplyElementalState {
        target: EffectTarget,
        state: ElementalStateKind,
        duration: i64,
        strength: i64,
    },
    /// Standing zone around the tower applying a state to enemies inside.
    AuraEffect { radius: i64, state: ElementalStateKind, duration: i64, strength: i64 },
    /// Instant kill at enough held states; bosses take percent damage instead.
    Annihilate { required_states: u8, boss_damage_percent: i64 },
    /// Percent damage to enemies holding enough states, on its own clock.
    ConditionalDamage { min_states: u8, damage_percent: i64, radius: i64, tick_rate: i64 },
    /// A shell at a random spot on the map.
    RandomBombard { damage: i64, radius: i64 },
    /// Damage to nearby enemies converted partly into player healing.
    LifeSteal { radius: i64, damage_per_second: i64, heal_ratio: i64 },
    /// Damage plus the Cold state, optionally splashed around the target.
    ApplyCold {
        target: EffectTarget,
        damage: i64,
        cold_duration: i64,
        freeze_duration: i64,
        aoe_radius: i64,
    },
    /// Standing zone of Cold around the tower.
    ColdAura { radius: i64, cold_duration: i64, freeze_duration: i64 },
    /// Percent damage plus Cold to every enemy in the zone, on its own clock.
    Glaciation {
        radius: i64,
        damage_percent: i64,
        cold_duration: i64,
        freeze_duration: i64,
        tick_rate: i64,
    },
}

#[derive(Clone, Copy, PartialEq, Eq, Structural, Debug)]
pub enum ActionUpgradeTarget {
    Damage,
    AoeRadius,
    EffectDps,
    EffectDuration,
    EffectRatio,
    MaxTargets,
    GoldPerSecond,
    StateDuration,
    StateStrength,
    BossDamagePercent,
    AuraRadius,
    BombardDamage,
    BombardRadius,
    LifeStealDps,
    LifeStealRadius,
    HealRatio,
    ConditionalDamagePercent,
    ColdDuration,
    FreezeDuration,
    GlaciationDamagePercent,
}

#[derive(Clone, Copy, PartialEq, Eq, Structural, Debug)]
pub struct UpgradeableProp {
    pub base: i64,
    pub bonus_per_level: i64,
    pub max_level: u32,
    pub current_level: u32,
    pub cost_base: u32,
    pub cost_per_level: u32,
}

impl UpgradeableProp {
    pub open spec fn wf(self) -> bool {
        &&& 0 <= self.base <= PROP_BASE_LIMIT
        &&& 0 <= self.bonus_per_level <= PROP_BONUS_LIMIT
        &&& self.max_level <= PROP_LEVEL_LIMIT
        &&& self.current_level <= self.max_level
        &&& self.cost_base <= COST_LIMIT
        &&& self.cost_per_level <= COST_LIMIT
    }

    /// Current value: base plus bonus times level.
    pub open spec fn spec_value(self) -> int {
        self.base + self.bonus_per_level * self.current_level
    }

    /// Largest value any level can reach.
    pub open spec fn spec_cap(self) -> int {
        self.base + self.bonus_per_level * self.max_level
    }

    /// Price of the next level: base cost plus per-level cost times level.
    pub open spec fn spec_cost(self) -> int {
        self.cost_base + self.cost_per_level * self.current_level
    }

    pub fn new(base: i64, bonus_per_level: i64, max_level: u32) -> (r: UpgradeableProp)
        requires
            0 <= base <= PROP_BASE_LIMIT,
            0 <= bonus_per_level <= PROP_BONUS_LIMIT,
            max_level <= PROP_LEVEL_LIMIT,
        ensures
            r == (UpgradeableProp {
                base,
                bonus_per_level,
                max_level,
                current_level: 0,
                cost_base: 30,
                cost_per_level: 25,
            }),
            r.wf(),
    {
        UpgradeableProp { base, bonus_per_level, max_level, current_level: 0, cost_base: 30, cost_per_level: 25 }
    }

    pub fn value(&self) -> (r: i64)
        requires
            self.wf(),
        ensures
            r == self.spec_value(),
            0 <= r <= self.spec_cap() <= PROP_BASE_LIMIT + PROP_BONUS_LIMIT * PROP_LEVEL_LIMIT,
    {
        proof {
            crate::geom::lemma_mul_le(
                self.bonus_per_level as int,
                self.current_level as int,
                PROP_BONUS_LIMIT as int,
                PROP_LEVEL_LIMIT as int,
            );
            crate::geom::lemma_mul_le(
                self.bonus_per_level as int,
                self.max_level as int,
                PROP_BONUS_LIMIT as int,
                PROP_LEVEL_LIMIT as int,
            );
            assert(self.bonus_per_level * self.current_level <= self.bonus_per_level
                * self.max_level) by (nonlinear_arith)
                requires
                    0 <= self.bonus_per_level,
                    self.current_level <= self.max_level,
            ;
        }
        self.base + self.bonus_per_level * (self.current_level as i64)
    }

    pub fn cost(&self) -> (r: u32)
        requires
            self.wf(),
        ensures
            r == self.spec_cost(),
    {
        proof {
            crate::geom::lemma_mul_le(
                self.cost_per_level as int,
                self.current_level as int,
                COST_LIMIT as int,
                PROP_LEVEL_LIMIT as int,
            );
        }
        self.cost_base + self.cost_per_level * self.current_level
    }

    pub fn can_upgrade(&self) -> (r: bool)
        ensures
            r == (self.current_level < self.max_level),
    {
        self.current_level < self.max_level
    }

    /// Raise the level by one; at the ceiling nothing changes, so the level
    /// never leaves `[0, max_level]`.
    pub fn upgrade(&mut self)
        requires
            old(self).wf(),
        ensures
            final(self).wf(),
            old(self).current_level < old(self).max_level ==> *final(self) == (UpgradeableProp {
                current_level: (old(self).current_level + 1) as u32,
                ..*old(self)
            }),
            old(self).current_level >= old(self).max_level ==> *final(self) == *old(self),
    {
        if self.current_level < self.max_level {
            self.current_level = self.current_level + 1;
        }
    }
}

/// However many upgrades are applied, a well-formed property's level
/// never exceeds its maximum: `upgrade` preserves well-formedness, and
/// well-formedness bounds the level.
pub proof fn lemma_level_never_exceeds_max(p: UpgradeableProp)
    requires
        p.wf(),
    ensures
        p.current_level <= p.max_level,
{
}

/// A gold cost never falls as the level rises.
pub proof fn lemma_upgrade_cost_monotonic(p: UpgradeableProp, l1: u32, l2: u32)
    requires
        p.wf(),
        l1 <= l2,
    ensures
        (UpgradeableProp { current_level: l1, ..p }).spec_cost() <= (UpgradeableProp {
            current_level: l2,
            ..p
        }).spec_cost(),
{
    assert(p.cost_per_level * l1 <= p.cost_per_level * l2) by (nonlinear_arith)
        requires
            0 <= p.cost_per_level,
            l1 <= l2,
    ;
}

#[derive(Clone, Copy, PartialEq, Eq, Structural, Debug)]
pub enum Property {
    Fixed(i64),
    Upgradable(UpgradeableProp),
}

impl Property {
    /// Well-formed with every reachable value within `limit`.
    pub open spec fn wf(self, limit: int) -> bool {
        match self {
            Property::Fixed(v) => 0 <= v <= limit,
            Property::Upgradable(p) => p.wf() && p.spec_cap() <= limit,
        }
    }

    /// Well-formed on its own, with no particular bound.
    pub open spec fn basic_wf(self) -> bool {
        match self {
            Property::Fixed(v) => 0 <= v,
            Property::Upgradable(p) => p.wf(),
        }
    }

    pub open spec fn spec_value(self) -> int {
        match self {
            Property::Fixed(v) => v as int,
            Property::Upgradable(p) => p.spec_value(),
        }
    }

    pub fn fixed(value: i64) -> (r: Property)
        ensures
            r == Property::Fixed(value),
    {
        Property::Fixed(value)
    }

    pub fn upgradable(base: i64, bonus_per_level: i64, max_level: u32) -> (r: Property)
        requires
            0 <= base <= PROP_BASE_LIMIT,
            0 <= bonus_per_level <= PROP_BONUS_LIMIT,
            max_level <= PROP_LEVEL_LIMIT,
        ensures
            r == Property::Upgradable(
                UpgradeableProp {
                    base,
                    bonus_per_level,
                    max_level,
                    current_level: 0,
                    cost_base: 30,
                    cost_per_level: 25,
                },
            ),
    {
        Property::Upgradable(UpgradeableProp::new(base, bonus_per_level, max_level))
    }

    pub fn value(&self) -> (r: i64)
        requires
            self.basic_wf(),
        ensures
            r == self.spec_value(),
            0 <= r,
    {
        match self {
            Property::Fixed(v) => *v,
            Property::Upgradable(p) => {
                let v = p.value();
                v
            },
        }
    }

    pub fn is_upgradable(&self) -> (r: bool)
        ensures
            r == (self is Upgradable),
    {
        matches!(self, Property::Upgradable(_))
    }
}

/// A property that fits under `limit` keeps its value under `limit`.
pub proof fn lemma_property_value_le(p: Property, limit: int)
    requires
        p.wf(limit),
    ensures
        p.basic_wf(),
        0 <= p.spec_value() <= limit,
{
    match p {
        Property::Fixed(_) => {},
        Property::Upgradable(q) => {
            assert(0 <= q.bonus_per_level * q.current_level <= q.bonus_per_level * q.max_level)
                by (nonlinear_arith)
                requires
                    0 <= q.bonus_per_level,
                    q.current_level <= q.max_level,
            ;
        },
    }
}

#[derive(Clone, Copy, PartialEq, Eq, Structural, Debug)]
pub enum SkillType {
    Active,
    Passive,
}

#[derive(Clone, Debug)]
pub struct ActionUpgrade {
    pub name: &'static str,
    pub prop: UpgradeableProp,
    pub applies_to: ActionUpgradeTarget,
}

#[derive(Clone, Debug)]
pub struct TowerActionDef {
    pub action: TowerAction,
    pub upgrades: Vec<ActionUpgrade>,
}

// --- Resolved actions: every numeric field after upgrade bonuses. ---

#[derive(Clone, Copy, PartialEq, Eq, Structural, Debug)]
pub enum ResolvedDamage {
    Fixed(i64),
    PercentHp(i64),
    DistanceScaled { base: i64, bonus_per_distance: i64 },
}

#[derive(Clone, Copy, PartialEq, Eq, Structural, Debug)]
pub enum ResolvedEffect {
    Burn { dps: i64, duration: i64 },
    Slow { ratio: i64, duration: i64 },
    Stun { duration: i64 },
}

#[derive(Clone, Copy, PartialEq, Eq, Structural, Debug)]
pub enum ResolvedAction {
    ApplyDamage { target: EffectTarget, damage: ResolvedDamage },
    ApplyEffect { target: EffectTarget, effect: ResolvedEffect },
    GoldGen { gold_per_second: i64 },
    ApplyElementalState {
        target: EffectTarget,
        state: ElementalStateKind,
        duration: i64,
        strength: i64,
    },
    AuraEffect { radius: i64, state: ElementalStateKind, duration: i64, strength: i64 },
    Annihilate { required_states: u8, boss_damage_percent: i64 },
    ConditionalDamage { min_states: u8, damage_percent: i64, radius: i64, tick_rate: i64 },
    RandomBombard { damage: i64, radius: i64 },
    LifeSteal { radius: i64, damage_per_second: i64, heal_ratio: i64 },
    ApplyCold {
        target: EffectTarget,
        damage: i64,
        cold_duration: i64,
        freeze_duration: i64,
        aoe_radius: i64,
    },
    ColdAura { radius: i64, cold_duration: i64, freeze_duration: i64 },
    Glaciation {
        radius: i64,
        damage_percent: i64,
        cold_duration: i64,
        freeze_duration: i64,
        tick_rate: i64,
    },
    /// A standing zone left where a projectile lands, applying a state.
    ImpactAura { radius: i64, duration: i64, state: ElementalStateKind, state_duration: i64, strength: i64 },
    /// A standing zone of Cold left where a projectile lands.
    ImpactColdAura { radius: i64, duration: i64, cold_duration: i64, freeze_duration: i64 },
    /// Continuous fire damage around the tower.
    PassiveBurnAura { radius: i64, dps: i64 },
    /// Interval-gated strikes on randomly chosen living enemies.
    CometStrike { damage: i64, target_count: u32, interval: i64 },
}

/// Sum over `ups` of `bonus_per_level * current_level` for upgrades aimed
/// at `t`: what resolution adds to the targeted base value.
pub open spec fn bonus_sum(ups: Seq<ActionUpgrade>, t: ActionUpgradeTarget) -> int
    decreases ups.len(),
{
    if ups.len() == 0 {
        0
    } else {
        bonus_sum(ups.drop_last(), t) + if ups.last().applies_to == t {
            ups.last().prop.bonus_per_level * ups.last().prop.current_level
        } else {
            0
        }
    }
}

/// The same sum at every level maxed: the headroom a well-formed template
/// reserves below each field's bound.
pub open spec fn bonus_cap(ups: Seq<ActionUpgrade>, t: ActionUpgradeTarget) -> int
    decreases ups.len(),
{
    if ups.len() == 0 {
        0
    } else {
        bonus_cap(ups.drop_last(), t) + if ups.last().applies_to == t {
            ups.last().prop.bonus_per_level * ups.last().prop.max_level
        } else {
            0
        }
    }
}

pub open spec fn ups_wf(ups: Seq<ActionUpgrade>) -> bool {
    forall|i: int| 0 <= i < ups.len() ==> (#[trigger] ups[i]).prop.wf()
}

pub proof fn lemma_bonus_sum_le_cap(ups: Seq<ActionUpgrade>, t: ActionUpgradeTarget)
    requires
        ups_wf(ups),
    ensures
        0 <= bonus_sum(ups, t) <= bonus_cap(ups, t),
        bonus_cap(ups, t) <= ups.len() * PROP_BONUS_LIMIT * PROP_LEVEL_LIMIT,
    decreases ups.len(),
{
    if ups.len() == 0 {
    } else {
        assert(ups_wf(ups.drop_last())) by {
            assert(forall|i: int|
                0 <= i < ups.drop_last().len() ==> ups.drop_last()[i] == ups[i]);
        }
        lemma_bonus_sum_le_cap(ups.drop_last(), t);
        let u = ups.last();
        assert(u.prop.wf());
        assert(0 <= u.prop.bonus_per_level * u.prop.current_level <= u.prop.bonus_per_level
            * u.prop.max_level) by (nonlinear_arith)
            requires
                0 <= u.prop.bonus_per_level,
                u.prop.current_level <= u.prop.max_level,
        ;
        crate::geom::lemma_mul_le(
            u.prop.bonus_per_level as int,
            u.prop.max_level as int,
            PROP_BONUS_LIMIT as int,
            PROP_LEVEL_LIMIT as int,
        );
        assert((ups.len() - 1) * PROP_BONUS_LIMIT * PROP_LEVEL_LIMIT + PROP_BONUS_LIMIT
            * PROP_LEVEL_LIMIT == ups.len() * PROP_BONUS_LIMIT * PROP_LEVEL_LIMIT)
            by (nonlinear_arith);
    }
}

/// Add to `base` the level bonuses of every upgrade aimed at `t`.
fn apply_bonuses(base: i64, ups: &Vec<ActionUpgrade>, t: ActionUpgradeTarget) -> (r: i64)
    requires
        ups_wf(ups@),
        0 <= base,
        base + bonus_cap(ups@, t) <= AMOUNT_LIMIT,
    ensures
        r == base + bonus_sum(ups@, t),
        0 <= r <= base + bonus_cap(ups@, t),
{
    proof {
        lemma_bonus_sum_le_cap(ups@, t);
    }
    let mut val: i64 = base;
    let mut i: usize = 0;
    while i < ups.len()
        invariant
            ups_wf(ups@),
            0 <= base,
            base + bonus_cap(ups@, t) <= AMOUNT_LIMIT,
            0 <= i <= ups.len(),
            val == base + bonus_sum(ups@.take(i as int), t),
            0 <= val,
            val <= base + bonus_cap(ups@.take(i as int), t),
        decreases ups.len() - i,
    {
        proof {
            assert(ups@.take(i as int + 1).drop_last() =~= ups@.take(i as int));
            assert(ups@.take(i as int + 1).last() == ups@[i as int]);
            assert(ups_wf(ups@.take(i as int + 1))) by {
                assert(forall|j: int|
                    0 <= j < i + 1 ==> ups@.take(i as int + 1)[j] == ups@[j]);
            }
            lemma_bonus_sum_le_cap(ups@.take(i as int + 1), t);
            lemma_cap_prefix_le(ups@, t, i as int + 1);
        }
        let u = &ups[i];
        if u.applies_to == t {
            proof {
                crate::geom::lemma_mul_le(
                    u.prop.bonus_per_level as int,
                    u.prop.current_level as int,
                    PROP_BONUS_LIMIT as int,
                    PROP_LEVEL_LIMIT as int,
                );
                assert(u.prop.bonus_per_level * u.prop.current_level <= u.prop.bonus_per_level
                    * u.prop.max_level) by (nonlinear_arith)
                    requires
                        0 <= u.prop.bonus_per_level,
                        u.prop.current_level <= u.prop.max_level,
                ;
            }
            val = val + u.prop.bonus_per_level * (u.prop.current_level as i64);
        }
        i = i + 1;
    }
    proof {
        assert(ups@.take(ups@.len() as int) =~= ups@);
    }
    val
}

/// A prefix's headroom never exceeds the whole list's.
proof fn lemma_cap_prefix_le(ups: Seq<ActionUpgrade>, t: ActionUpgradeTarget, n: int)
    requires
        ups_wf(ups),
        0 <= n <= ups.len(),
    ensures
        bonus_cap(ups.take(n), t) <= bonus_cap(ups, t),
    decreases ups.len() - n,
{
    if n == ups.len() {
        assert(ups.take(n) =~= ups);
    } else {
        lemma_cap_prefix_le(ups, t, n + 1);
        assert(ups.take(n + 1).drop_last() =~= ups.take(n));
        assert(ups_wf(ups.take(n + 1))) by {
            assert(forall|j: int| 0 <= j < n + 1 ==> ups.take(n + 1)[j] == ups[j]);
        }
        let u = ups.take(n + 1).last();
        assert(u == ups[n]);
        assert(0 <= u.prop.bonus_per_level * u.prop.max_level) by (nonlinear_arith)
            requires
                0 <= u.prop.bonus_per_level,
                0 <= u.prop.max_level,
        ;
    }
}

/// A target shape whose upgraded values stay within the arena and count
/// bounds.
pub open spec fn target_wf(t: EffectTarget, ups: Seq<ActionUpgrade>) -> bool {
    match t {
        EffectTarget::Single => true,
        EffectTarget::Multi(n) => n + bonus_cap(ups, ActionUpgradeTarget::MaxTargets)
            <= COUNT_LIMIT,
        EffectTarget::Area(r) => 0 <= r && r + bonus_cap(ups, ActionUpgradeTarget::AoeRadius)
            <= COORD_LIMIT,
        EffectTarget::Chain { count, range } => count <= COUNT_LIMIT && 0 <= range <= COORD_LIMIT,
    }
}

/// A template action whose base values leave room for every upgrade level
/// under each field's bound.
pub open spec fn action_def_wf(a: TowerAction, ups: Seq<ActionUpgrade>) -> bool {
    &&& ups_wf(ups)
    &&& match a {
        TowerAction::ApplyDamage { target, damage } => {
            &&& target_wf(target, ups)
            &&& match damage {
                DamageType::Fixed(v) => 0 <= v && v + bonus_cap(
                    ups,
                    ActionUpgradeTarget::Damage,
                ) <= AMOUNT_LIMIT,
                DamageType::PercentHp(v) => 0 <= v && v + bonus_cap(
                    ups,
                    ActionUpgradeTarget::Damage,
                ) <= PERCENT_LIMIT,
            }
        },
        TowerAction::ApplyEffect { target, effect } => {
            &&& target_wf(target, ups)
            &&& match effect {
                EffectType::Burn { dps, duration } => {
                    &&& 0 <= dps && dps + bonus_cap(ups, ActionUpgradeTarget::EffectDps)
                        <= AMOUNT_LIMIT
                    &&& 0 <= duration && duration + bonus_cap(
                        ups,
                        ActionUpgradeTarget::EffectDuration,
                    ) <= DURATION_LIMIT
                },
                EffectType::Slow { ratio, duration } => {
                    &&& 0 <= ratio && ratio + bonus_cap(ups, ActionUpgradeTarget::EffectRatio)
                        <= RATIO_LIMIT
                    &&& 0 <= duration && duration + bonus_cap(
                        ups,
                        ActionUpgradeTarget::EffectDuration,
                    ) <= DURATION_LIMIT
                },
                EffectType::Stun { duration } => 0 <= duration && duration + bonus_cap(
                    ups,
                    ActionUpgradeTarget::EffectDuration,
                ) <= DURATION_LIMIT,
            }
        },
        TowerAction::GoldGen { gold_per_second } => 0 <= gold_per_second && gold_per_second
            + bonus_cap(ups, ActionUpgradeTarget::GoldPerSecond) <= AMOUNT_LIMIT,
        TowerAction::ApplyElementalState { target, state, duration, strength } => {
            &&& target_wf(target, ups)
            &&& 0 <= duration && duration + bonus_cap(ups, ActionUpgradeTarget::StateDuration)
                <= DURATION_LIMIT
            &&& 0 <= strength && strength + bonus_cap(ups, ActionUpgradeTarget::StateStrength)
                <= STRENGTH_LIMIT
        },
        TowerAction::AuraEffect { radius, state, duration, strength } => {
            &&& 0 <= radius && radius + bonus_cap(ups, ActionUpgradeTarget::AuraRadius)
                <= COORD_LIMIT
            &&& 0 <= duration && duration + bonus_cap(ups, ActionUpgradeTarget::StateDuration)
                <= DURATION_LIMIT
            &&& 0 <= strength && strength + bonus_cap(ups, ActionUpgradeTarget::StateStrength)
                <= STRENGTH_LIMIT
        },
        TowerAction::Annihilate { required_states, boss_damage_percent } => 0
            <= boss_damage_percent && boss_damage_percent + bonus_cap(
            ups,
            ActionUpgradeTarget::BossDamagePercent,
        ) <= PERCENT_LIMIT,
        TowerAction::ConditionalDamage { min_states, damage_percent, radius, tick_rate } => {
            &&& 0 <= damage_percent && damage_percent + bonus_cap(
                ups,
                ActionUpgradeTarget::ConditionalDamagePercent,
            ) <= PERCENT_LIMIT
            &&& 0 <= radius && radius + bonus_cap(ups, ActionUpgradeTarget::AoeRadius)
                <= COORD_LIMIT
            &&& 0 < tick_rate <= DURATION_LIMIT
        },
        TowerAction::RandomBombard { damage, radius } => {
            &&& 0 <= damage && damage + bonus_cap(ups, ActionUpgradeTarget::BombardDamage)
                <= AMOUNT_LIMIT
            &&& 0 <= radius && radius + bonus_cap(ups, ActionUpgradeTarget::BombardRadius)
                <= COORD_LIMIT
        },
        TowerAction::LifeSteal { radius, damage_per_second, heal_ratio } => {
            &&& 0 <= radius && radius + bonus_cap(ups, ActionUpgradeTarget::LifeStealRadius)
                <= COORD_LIMIT
            &&& 0 <= damage_per_second && damage_per_second + bonus_cap(
                ups,
                ActionUpgradeTarget::LifeStealDps,
            ) <= AMOUNT_LIMIT
            &&& 0 <= heal_ratio && heal_ratio + bonus_cap(ups, ActionUpgradeTarget::HealRatio)
                <= PERCENT_LIMIT
        },
        TowerAction::ApplyCold { target, damage, cold_duration, freeze_duration, aoe_radius } => {
            &&& target_wf(target, ups)
            &&& 0 <= damage && damage + bonus_cap(ups, ActionUpgradeTarget::Damage)
                <= AMOUNT_LIMIT
            &&& 0 <= cold_duration && cold_duration + bonus_cap(
                ups,
                ActionUpgradeTarget::ColdDuration,
            ) <= DURATION_LIMIT
            &&& 0 <= freeze_duration && freeze_duration + bonus_cap(
                ups,
                ActionUpgradeTarget::FreezeDuration,
            ) <= DURATION_LIMIT
            &&& 0 <= aoe_radius && aoe_radius + bonus_cap(ups, ActionUpgradeTarget::AoeRadius)
                <= COORD_LIMIT
        },
        TowerAction::ColdAura { radius, cold_duration, freeze_duration } => {
            &&& 0 <= radius && radius + bonus_cap(ups, ActionUpgradeTarget::AuraRadius)
                <= COORD_LIMIT
            &&& 0 <= cold_duration && cold_duration + bonus_cap(
                ups,
                ActionUpgradeTarget::ColdDuration,
            ) <= DURATION_LIMIT
            &&& 0 <= freeze_duration && freeze_duration + bonus_cap(
                ups,
                ActionUpgradeTarget::FreezeDuration,
            ) <= DURATION_LIMIT
        },
        TowerAction::Glaciation {
            radius,
            damage_percent,
            cold_duration,
            freeze_duration,
            tick_rate,
        } => {
            &&& 0 <= radius && radius + bonus_cap(ups, ActionUpgradeTarget::AoeRadius)
                <= COORD_LIMIT
            &&& 0 <= damage_percent && damage_percent + bonus_cap(
                ups,
                ActionUpgradeTarget::GlaciationDamagePercent,
            ) <= PERCENT_LIMIT
            &&& 0 <= cold_duration && cold_duration + bonus_cap(
                ups,
                ActionUpgradeTarget::ColdDuration,
            ) <= DURATION_LIMIT
            &&& 0 <= freeze_duration && freeze_duration + bonus_cap(
                ups,
                ActionUpgradeTarget::FreezeDuration,
            ) <= DURATION_LIMIT
            &&& 0 < tick_rate <= DURATION_LIMIT
        },
    }
}

impl TowerActionDef {
    pub open spec fn wf(self) -> bool {
        action_def_wf(self.action, self.upgrades@)
    }
}

/// Bounds every resolved target satisfies.
pub open spec fn resolved_target_ok(t: EffectTarget) -> bool {
    match t {
        EffectTarget::Single => true,
        EffectTarget::Multi(n) => n <= COUNT_LIMIT,
        EffectTarget::Area(r) => 0 <= r <= COORD_LIMIT,
        EffectTarget::Chain { count, range } => count <= COUNT_LIMIT && 0 <= range <= COORD_LIMIT,
    }
}

/// Bounds every resolved action satisfies; the rest of the simulation
/// requires them wherever it consumes a resolved action.
pub open spec fn resolved_ok(a: ResolvedAction) -> bool {
    match a {
        ResolvedAction::ApplyDamage { target, damage } => resolved_target_ok(target)
            && match damage {
            ResolvedDamage::Fixed(v) => 0 <= v <= AMOUNT_LIMIT,
            ResolvedDamage::PercentHp(v) => 0 <= v <= PERCENT_LIMIT,
            ResolvedDamage::DistanceScaled { base, bonus_per_distance } => 0 <= base
                <= AMOUNT_LIMIT && 0 <= bonus_per_distance <= 1_000_000,
        },
        ResolvedAction::ApplyEffect { target, effect } => resolved_target_ok(target)
            && match effect {
            ResolvedEffect::Burn { dps, duration } => 0 <= dps <= AMOUNT_LIMIT && 0 <= duration
                <= DURATION_LIMIT,
            ResolvedEffect::Slow { ratio, duration } => 0 <= ratio <= RATIO_LIMIT && 0 <= duration
                <= DURATION_LIMIT,
            ResolvedEffect::Stun { duration } => 0 <= duration <= DURATION_LIMIT,
        },
        ResolvedAction::GoldGen { gold_per_second } => 0 <= gold_per_second <= AMOUNT_LIMIT,
        ResolvedAction::ApplyElementalState { target, state, duration, strength } => {
            resolved_target_ok(target) && 0 <= duration <= DURATION_LIMIT && 0 <= strength
                <= STRENGTH_LIMIT
        },
        ResolvedAction::AuraEffect { radius, state, duration, strength } => 0 <= radius
            <= COORD_LIMIT && 0 <= duration <= DURATION_LIMIT && 0 <= strength <= STRENGTH_LIMIT,
        ResolvedAction::Annihilate { required_states, boss_damage_percent } => 0
            <= boss_damage_percent <= PERCENT_LIMIT,
        ResolvedAction::ConditionalDamage { min_states, damage_percent, radius, tick_rate } => 0
            <= damage_percent <= PERCENT_LIMIT && 0 <= radius <= COORD_LIMIT && 0 < tick_rate
            <= DURATION_LIMIT,
        ResolvedAction::RandomBombard { damage, radius } => 0 <= damage <= AMOUNT_LIMIT && 0
            <= radius <= COORD_LIMIT,
        ResolvedAction::LifeSteal { radius, damage_per_second, heal_ratio } => 0 <= radius
            <= COORD_LIMIT && 0 <= damage_per_second <= AMOUNT_LIMIT && 0 <= heal_ratio
            <= PERCENT_LIMIT,
        ResolvedAction::ApplyCold { target, damage, cold_duration, freeze_duration, aoe_radius } => {
            resolved_target_ok(target) && 0 <= damage <= AMOUNT_LIMIT && 0 <= cold_duration
                <= DURATION_LIMIT && 0 <= freeze_duration <= DURATION_LIMIT && 0 <= aoe_radius
                <= COORD_LIMIT
        },
        ResolvedAction::ColdAura { radius, cold_duration, freeze_duration } => 0 <= radius
            <= COORD_LIMIT && 0 <= cold_duration <= DURATION_LIMIT && 0 <= freeze_duration
            <= DURATION_LIMIT,
        ResolvedAction::Glaciation {
            radius,
            damage_percent,
            cold_duration,
            freeze_duration,
            tick_rate,
        } => 0 <= radius <= COORD_LIMIT && 0 <= damage_percent <= PERCENT_LIMIT && 0
            <= cold_duration <= DURATION_LIMIT && 0 <= freeze_duration <= DURATION_LIMIT && 0
            < tick_rate <= DURATION_LIMIT,
        ResolvedAction::ImpactAura { radius, duration, state, state_duration, strength } => 0
            <= radius <= COORD_LIMIT && 0 <= duration <= DURATION_LIMIT && 0 <= state_duration
            <= DURATION_LIMIT && 0 <= strength <= STRENGTH_LIMIT,
        ResolvedAction::ImpactColdAura { radius, duration, cold_duration, freeze_duration } => 0
            <= radius <= COORD_LIMIT && 0 <= duration <= DURATION_LIMIT && 0 <= cold_duration
            <= DURATION_LIMIT && 0 <= freeze_duration <= DURATION_LIMIT,
        ResolvedAction::PassiveBurnAura { radius, dps } => 0 <= radius <= COORD_LIMIT && 0 <= dps
            <= AMOUNT_LIMIT,
        ResolvedAction::CometStrike { damage, target_count, interval } => 0 <= damage
            <= AMOUNT_LIMIT && target_count <= COUNT_LIMIT && 0 < interval <= DURATION_LIMIT,
    }
}

/// What resolution does to a target shape: count and area bonuses land,
/// everything else passes through.
pub open spec fn spec_resolve_target(t: EffectTarget, ups: Seq<ActionUpgrade>) -> EffectTarget {
    match t {
        EffectTarget::Single => EffectTarget::Single,
        EffectTarget::Multi(n) => EffectTarget::Multi(
            (n + bonus_sum(ups, ActionUpgradeTarget::MaxTargets) / 1000) as u32,
        ),
        EffectTarget::Area(r) => EffectTarget::Area(
            (r + bonus_sum(ups, ActionUpgradeTarget::AoeRadius)) as i64,
        ),
        EffectTarget::Chain { count, range } => EffectTarget::Chain { count, range },
    }
}

/// The resolved action: every numeric field is its base plus the summed
/// level bonuses of the upgrades aimed at it.
pub open spec fn spec_resolve_action(a: TowerAction, ups: Seq<ActionUpgrade>) -> ResolvedAction {
    match a {
        TowerAction::ApplyDamage { target, damage } => ResolvedAction::ApplyDamage {
            target: spec_resolve_target(target, ups),
            damage: match damage {
                DamageType::Fixed(v) => ResolvedDamage::Fixed(
                    (v + bonus_sum(ups, ActionUpgradeTarget::Damage)) as i64,
                ),
                DamageType::PercentHp(v) => ResolvedDamage::PercentHp(
                    (v + bonus_sum(ups, ActionUpgradeTarget::Damage)) as i64,
                ),
            },
        },
        TowerAction::ApplyEffect { target, effect } => ResolvedAction::ApplyEffect {
            target: spec_resolve_target(target, ups),
            effect: match effect {
                EffectType::Burn { dps, duration } => ResolvedEffect::Burn {
                    dps: (dps + bonus_sum(ups, ActionUpgradeTarget::EffectDps)) as i64,
                    duration: (duration + bonus_sum(
                        ups,
                        ActionUpgradeTarget::EffectDuration,
                    )) as i64,
                },
                EffectType::Slow { ratio, duration } => ResolvedEffect::Slow {
                    ratio: (ratio + bonus_sum(ups, ActionUpgradeTarget::EffectRatio)) as i64,
                    duration: (duration + bonus_sum(
                        ups,
                        ActionUpgradeTarget::EffectDuration,
                    )) as i64,
                },
                EffectType::Stun { duration } => ResolvedEffect::Stun {
                    duration: (duration + bonus_sum(
                        ups,
                        ActionUpgradeTarget::EffectDuration,
                    )) as i64,
                },
            },
        },
        TowerAction::GoldGen { gold_per_second } => ResolvedAction::GoldGen {
            gold_per_second: (gold_per_second + bonus_sum(
                ups,
                ActionUpgradeTarget::GoldPerSecond,
            )) as i64,
        },
        TowerAction::ApplyElementalState { target, state, duration, strength } => {
            ResolvedAction::ApplyElementalState {
                target,
                state,
                duration: (duration + bonus_sum(ups, ActionUpgradeTarget::StateDuration)) as i64,
                strength: (strength + bonus_sum(ups, ActionUpgradeTarget::StateStrength)) as i64,
            }
        },
        TowerAction::AuraEffect { radius, state, duration, strength } => {
            ResolvedAction::AuraEffect {
                radius: (radius + bonus_sum(ups, ActionUpgradeTarget::AuraRadius)) as i64,
                state,
                duration: (duration + bonus_sum(ups, ActionUpgradeTarget::StateDuration)) as i64,
                strength: (strength + bonus_sum(ups, ActionUpgradeTarget::StateStrength)) as i64,
            }
        },
        TowerAction::Annihilate { required_states, boss_damage_percent } => {
            ResolvedAction::Annihilate {
                required_states,
                boss_damage_percent: (boss_damage_percent + bonus_sum(
                    ups,
                    ActionUpgradeTarget::BossDamagePercent,
                )) as i64,
            }
        },
        TowerAction::ConditionalDamage { min_states, damage_percent, radius, tick_rate } => {
            ResolvedAction::ConditionalDamage {
                min_states,
                damage_percent: (damage_percent + bonus_sum(
                    ups,
                    ActionUpgradeTarget::ConditionalDamagePercent,
                )) as i64,
                radius: (radius + bonus_sum(ups, ActionUpgradeTarget::AoeRadius)) as i64,
                tick_rate,
            }
        },
        TowerAction::RandomBombard { damage, radius } => ResolvedAction::RandomBombard {
            damage: (damage + bonus_sum(ups, ActionUpgradeTarget::BombardDamage)) as i64,
            radius: (radius + bonus_sum(ups, ActionUpgradeTarget::BombardRadius)) as i64,
        },
        TowerAction::LifeSteal { radius, damage_per_second, heal_ratio } => {
            ResolvedAction::LifeSteal {
                radius: (radius + bonus_sum(ups, ActionUpgradeTarget::LifeStealRadius)) as i64,
                damage_per_second: (damage_per_second + bonus_sum(
                    ups,
                    ActionUpgradeTarget::LifeStealDps,
                )) as i64,
                heal_ratio: (heal_ratio + bonus_sum(ups, ActionUpgradeTarget::HealRatio)) as i64,
            }
        },
        TowerAction::ApplyCold { target, damage, cold_duration, freeze_duration, aoe_radius } => {
            ResolvedAction::ApplyCold {
                target,
                damage: (damage + bonus_sum(ups, ActionUpgradeTarget::Damage)) as i64,
                cold_duration: (cold_duration + bonus_sum(
                    ups,
                    ActionUpgradeTarget::ColdDuration,
                )) as i64,
                freeze_duration: (freeze_duration + bonus_sum(
                    ups,
                    ActionUpgradeTarget::FreezeDuration,
                )) as i64,
                aoe_radius: (aoe_radius + bonus_sum(ups, ActionUpgradeTarget::AoeRadius)) as i64,
            }
        },
        TowerAction::ColdAura { radius, cold_duration, freeze_duration } => {
            ResolvedAction::ColdAura {
                radius: (radius + bonus_sum(ups, ActionUpgradeTarget::AuraRadius)) as i64,
                cold_duration: (cold_duration + bonus_sum(
                    ups,
                    ActionUpgradeTarget::ColdDuration,
                )) as i64,
                freeze_duration: (freeze_duration + bonus_sum(
                    ups,
                    ActionUpgradeTarget::FreezeDuration,
                )) as i64,
            }
        },
        TowerAction::Glaciation {
            radius,
            damage_percent,
            cold_duration,
            freeze_duration,
            tick_rate,
        } => ResolvedAction::Glaciation {
            radius: (radius + bonus_sum(ups, ActionUpgradeTarget::AoeRadius)) as i64,
            damage_percent: (damage_percent + bonus_sum(
                ups,
                ActionUpgradeTarget::GlaciationDamagePercent,
            )) as i64,
            cold_duration: (cold_duration + bonus_sum(
                ups,
                ActionUpgradeTarget::ColdDuration,
            )) as i64,
            freeze_duration: (freeze_duration + bonus_sum(
                ups,
                ActionUpgradeTarget::FreezeDuration,
            )) as i64,
            tick_rate,
        },
    }
}

fn resolve_target(t: &EffectTarget, ups: &Vec<ActionUpgrade>) -> (r: EffectTarget)
    requires
        ups_wf(ups@),
        target_wf(*t, ups@),
    ensures
        r == spec_resolve_target(*t, ups@),
        resolved_target_ok(r),
{
    match t {
        EffectTarget::Single => EffectTarget::Single,
        EffectTarget::Multi(n) => {
            let total = apply_bonuses(0, ups, ActionUpgradeTarget::MaxTargets);
            proof {
                crate::units::lemma_div_le(0, total as int, 1000);
                assert(total / 1000 <= total) by (nonlinear_arith)
                    requires
                        0 <= total,
                ;
            }
            let m = *n + (total / 1000) as u32;
            EffectTarget::Multi(m)
        },
        EffectTarget::Area(rad) => {
            let a = apply_bonuses(*rad, ups, ActionUpgradeTarget::AoeRadius);
            EffectTarget::Area(a)
        },
        EffectTarget::Chain { count, range } => EffectTarget::Chain {
            count: *count,
            range: *range,
        },
    }
}

impl TowerActionDef {
    /// Fold the current upgrade levels into the base action: each numeric
    /// field becomes base plus `bonus_per_level * level` summed over the
    /// upgrades aimed at it; the summed multi-target bonus is then floored
    /// to whole targets; everything else passes through unchanged.
    pub fn resolve(&self) -> (r: ResolvedAction)
        requires
            self.wf(),
        ensures
            r == spec_resolve_action(self.action, self.upgrades@),
            resolved_ok(r),
    {
        proof {
            lemma_bonus_sum_le_cap(self.upgrades@, ActionUpgradeTarget::MaxTargets);
            lemma_bonus_sum_le_cap(self.upgrades@, ActionUpgradeTarget::AoeRadius);
        }
        match &self.action {
            TowerAction::ApplyDamage { target, damage } => {
                let rt = resolve_target(target, &self.upgrades);
                let rd = match damage {
                    DamageType::Fixed(v) => ResolvedDamage::Fixed(
                        apply_bonuses(*v, &self.upgrades, ActionUpgradeTarget::Damage),
                    ),
                    DamageType::PercentHp(v) => ResolvedDamage::PercentHp(
                        apply_bonuses(*v, &self.upgrades, ActionUpgradeTarget::Damage),
                    ),
                };
                ResolvedAction::ApplyDamage { target: rt, damage: rd }
            },
            TowerAction::ApplyEffect { target, effect } => {
                let rt = resolve_target(target, &self.upgrades);
                let re = match effect {
                    EffectType::Burn { dps, duration } => ResolvedEffect::Burn {
                        dps: apply_bonuses(*dps, &self.upgrades, ActionUpgradeTarget::EffectDps),
                        duration: apply_bonuses(
                            *duration,
                            &self.upgrades,
                            ActionUpgradeTarget::EffectDuration,
                        ),
                    },
                    EffectType::Slow { ratio, duration } => ResolvedEffect::Slow {
                        ratio: apply_bonuses(
                            *ratio,
                            &self.upgrades,
                            ActionUpgradeTarget::EffectRatio,
                        ),
                        duration: apply_bonuses(
                            *duration,
                            &self.upgrades,
                            ActionUpgradeTarget::EffectDuration,
                        ),
                    },
                    EffectType::Stun { duration } => ResolvedEffect::Stun {
                        duration: apply_bonuses(
                            *duration,
                            &self.upgrades,
                            ActionUpgradeTarget::EffectDuration,
                        ),
                    },
                };
                ResolvedAction::ApplyEffect { target: rt, effect: re }
            },
            TowerAction::GoldGen { gold_per_second } => ResolvedAction::GoldGen {
                gold_per_second: apply_bonuses(
                    *gold_per_second,
                    &self.upgrades,
                    ActionUpgradeTarget::GoldPerSecond,
                ),
            },
            TowerAction::ApplyElementalState { target, state, duration, strength } => {
                ResolvedAction::ApplyElementalState {
                    target: *target,
                    state: *state,
                    duration: apply_bonuses(
                        *duration,
                        &self.upgrades,
                        ActionUpgradeTarget::StateDuration,
                    ),
                    strength: apply_bonuses(
                        *strength,
                        &self.upgrades,
                        ActionUpgradeTarget::StateStrength,
                    ),
                }
            },
            TowerAction::AuraEffect { radius, state, duration, strength } => {
                ResolvedAction::AuraEffect {
                    radius: apply_bonuses(
                        *radius,
                        &self.upgrades,
                        ActionUpgradeTarget::AuraRadius,
                    ),
                    state: *state,
                    duration: apply_bonuses(
                        *duration,
                        &self.upgrades,
                        ActionUpgradeTarget::StateDuration,
                    ),
                    strength: apply_bonuses(
                        *strength,
                        &self.upgrades,
                        ActionUpgradeTarget::StateStrength,
                    ),
                }
            },
            TowerAction::Annihilate { required_states, boss_damage_percent } => {
                ResolvedAction::Annihilate {
                    required_states: *required_states,
                    boss_damage_percent: apply_bonuses(
                        *boss_damage_percent,
                        &self.upgrades,
                        ActionUpgradeTarget::BossDamagePercent,
                    ),
                }
            },
            TowerAction::ConditionalDamage { min_states, damage_percent, radius, tick_rate } => {
                ResolvedAction::ConditionalDamage {
                    min_states: *min_states,
                    damage_percent: apply_bonuses(
                        *damage_percent,
                        &self.upgrades,
                        ActionUpgradeTarget::ConditionalDamagePercent,
                    ),
                    radius: apply_bonuses(
                        *radius,
                        &self.upgrades,
                        ActionUpgradeTarget::AoeRadius,
                    ),
                    tick_rate: *tick_rate,
                }
            },
            TowerAction::RandomBombard { damage, radius } => ResolvedAction::RandomBombard {
                damage: apply_bonuses(
                    *damage,
                    &self.upgrades,
                    ActionUpgradeTarget::BombardDamage,
                ),
                radius: apply_bonuses(
                    *radius,
                    &self.upgrades,
                    ActionUpgradeTarget::BombardRadius,
                ),
            },
            TowerAction::LifeSteal { radius, damage_per_second, heal_ratio } => {
                ResolvedAction::LifeSteal {
                    radius: apply_bonuses(
                        *radius,
                        &self.upgrades,
                        ActionUpgradeTarget::LifeStealRadius,
                    ),
                    damage_per_second: apply_bonuses(
                        *damage_per_second,
                        &self.upgrades,
                        ActionUpgradeTarget::LifeStealDps,
                    ),
                    heal_ratio: apply_bonuses(
                        *heal_ratio,
                        &self.upgrades,
                        ActionUpgradeTarget::HealRatio,
                    ),
                }
            },
            TowerAction::ApplyCold {
                target,
                damage,
                cold_duration,
                freeze_duration,
                aoe_radius,
            } => ResolvedAction::ApplyCold {
                target: *target,
                damage: apply_bonuses(*damage, &self.upgrades, ActionUpgradeTarget::Damage),
                cold_duration: apply_bonuses(
                    *cold_duration,
                    &self.upgrades,
                    ActionUpgradeTarget::ColdDuration,
                ),
                freeze_duration: apply_bonuses(
                    *freeze_duration,
                    &self.upgrades,
                    ActionUpgradeTarget::FreezeDuration,
                ),
                aoe_radius: apply_bonuses(
                    *aoe_radius,
                    &self.upgrades,
                    ActionUpgradeTarget::AoeRadius,
                ),
            },
            TowerAction::ColdAura { radius, cold_duration, freeze_duration } => {
                ResolvedAction::ColdAura {
                    radius: apply_bonuses(
                        *radius,
                        &self.upgrades,
                        ActionUpgradeTarget::AuraRadius,
                    ),
                    cold_duration: apply_bonuses(
                        *cold_duration,
                        &self.upgrades,
                        ActionUpgradeTarget::ColdDuration,
                    ),
                    freeze_duration: apply_bonuses(
                        *freeze_duration,
                        &self.upgrades,
                        ActionUpgradeTarget::FreezeDuration,
                    ),
                }
            },
            TowerAction::Glaciation {
                radius,
                damage_percent,
                cold_duration,
                freeze_duration,
                tick_rate,
            } => ResolvedAction::Glaciation {
                radius: apply_bonuses(*radius, &self.upgrades, ActionUpgradeTarget::AoeRadius),
                damage_percent: apply_bonuses(
                    *damage_percent,
                    &self.upgrades,
                    ActionUpgradeTarget::GlaciationDamagePercent,
                ),
                cold_duration: apply_bonuses(
                    *cold_duration,
                    &self.upgrades,
                    ActionUpgradeTarget::ColdDuration,
                ),
                freeze_duration: apply_bonuses(
                    *freeze_duration,
                    &self.upgrades,
                    ActionUpgradeTarget::FreezeDuration,
                ),
                tick_rate: *tick_rate,
            },
        }
    }
}

/// Longest upgrade list a template action may carry.
pub const UPGRADES_LIMIT: usize = 64;

/// Executable twin of `bonus_cap`.
pub fn cap_of(ups: &Vec<ActionUpgrade>, t: ActionUpgradeTarget) -> (r: i64)
    requires
        ups_wf(ups@),
        ups@.len() <= UPGRADES_LIMIT,
    ensures
        r == bonus_cap(ups@, t),
        0 <= r <= UPGRADES_LIMIT * PROP_BONUS_LIMIT * PROP_LEVEL_LIMIT,
{
    proof {
        lemma_bonus_sum_le_cap(ups@, t);
    }
    let mut val: i64 = 0;
    let mut i: usize = 0;
    while i < ups.len()
        invariant
            ups_wf(ups@),
            ups@.len() <= UPGRADES_LIMIT,
            0 <= i <= ups.len(),
            val == bonus_cap(ups@.take(i as int), t),
            0 <= val <= i * PROP_BONUS_LIMIT * PROP_LEVEL_LIMIT,
        decreases ups.len() - i,
    {
        proof {
            assert(ups@.take(i as int + 1).drop_last() =~= ups@.take(i as int));
            assert(ups@.take(i as int + 1).last() == ups@[i as int]);
        }
        let u = &ups[i];
        if u.applies_to == t {
            proof {
                crate::geom::lemma_mul_le(
                    u.prop.bonus_per_level as int,
                    u.prop.max_level as int,
                    PROP_BONUS_LIMIT as int,
                    PROP_LEVEL_LIMIT as int,
                );
            }
            val = val + u.prop.bonus_per_level * (u.prop.max_level as i64);
        }
        proof {
            assert((i + 1) * PROP_BONUS_LIMIT * PROP_LEVEL_LIMIT == i * PROP_BONUS_LIMIT
                * PROP_LEVEL_LIMIT + PROP_BONUS_LIMIT * PROP_LEVEL_LIMIT) by (nonlinear_arith);
        }
        i = i + 1;
    }
    proof {
        assert(ups@.take(ups@.len() as int) =~= ups@);
        assert(ups@.len() * PROP_BONUS_LIMIT * PROP_LEVEL_LIMIT <= UPGRADES_LIMIT
            * PROP_BONUS_LIMIT * PROP_LEVEL_LIMIT) by (nonlinear_arith)
            requires
                ups@.len() <= UPGRADES_LIMIT,
        ;
    }
    val
}

/// Executable twin of `ups_wf`.
pub fn check_ups(ups: &Vec<ActionUpgrade>) -> (b: bool)
    ensures
        b == ups_wf(ups@),
{
    let mut i: usize = 0;
    while i < ups.len()
        invariant
            0 <= i <= ups.len(),
            forall|j: int| 0 <= j < i ==> (#[trigger] ups@[j]).prop.wf(),
        decreases ups.len() - i,
    {
        let p = &ups[i].prop;
        if !(0 <= p.base && p.base <= PROP_BASE_LIMIT && 0 <= p.bonus_per_level
            && p.bonus_per_level <= PROP_BONUS_LIMIT && p.max_level <= PROP_LEVEL_LIMIT
            && p.current_level <= p.max_level && p.cost_base <= COST_LIMIT && p.cost_per_level
            <= COST_LIMIT) {
            return false;
        }
        i = i + 1;
    }
    true
}

/// Does `v` plus the full headroom of upgrades aimed at `t` stay within
/// `limit`?
fn field_ok(v: i64, ups: &Vec<ActionUpgrade>, t: ActionUpgradeTarget, limit: i64) -> (b: bool)
    requires
        ups_wf(ups@),
        ups@.len() <= UPGRADES_LIMIT,
        0 <= limit <= AMOUNT_LIMIT,
    ensures
        b == (0 <= v && v + bonus_cap(ups@, t) <= limit),
{
    proof {
        lemma_bonus_sum_le_cap(ups@, t);
    }
    if v < 0 || v > limit {
        false
    } else {
        v + cap_of(ups, t) <= limit
    }
}

fn check_target(t: &EffectTarget, ups: &Vec<ActionUpgrade>) -> (b: bool)
    requires
        ups_wf(ups@),
        ups@.len() <= UPGRADES_LIMIT,
    ensures
        b == target_wf(*t, ups@),
{
    match t {
        EffectTarget::Single => true,
        EffectTarget::Multi(n) => *n as i64 + cap_of(ups, ActionUpgradeTarget::MaxTargets)
            <= COUNT_LIMIT as i64,
        EffectTarget::Area(r) => field_ok(*r, ups, ActionUpgradeTarget::AoeRadius, COORD_LIMIT),
        EffectTarget::Chain { count, range } => *count <= COUNT_LIMIT && 0 <= *range && *range
            <= COORD_LIMIT,
    }
}

/// Executable twin of `action_def_wf`, short of the `ups_wf` conjunct the
/// caller already holds.
fn check_action(action: &TowerAction, ups: &Vec<ActionUpgrade>) -> (b: bool)
    requires
        ups_wf(ups@),
        ups@.len() <= UPGRADES_LIMIT,
    ensures
        b == action_def_wf(*action, ups@),
{
    match action {
        TowerAction::ApplyDamage { target, damage } => {
            let dam_ok = match damage {
                DamageType::Fixed(v) => field_ok(*v, ups, ActionUpgradeTarget::Damage, AMOUNT_LIMIT),
                DamageType::PercentHp(v) => field_ok(*v, ups, ActionUpgradeTarget::Damage, PERCENT_LIMIT),
            };
            check_target(target, ups) && dam_ok
        },
        TowerAction::ApplyEffect { target, effect } => {
            let eff_ok = match effect {
                EffectType::Burn { dps, duration } => field_ok(*dps, ups, ActionUpgradeTarget::EffectDps, AMOUNT_LIMIT)
                    && field_ok(*duration, ups, ActionUpgradeTarget::EffectDuration, DURATION_LIMIT),
                EffectType::Slow { ratio, duration } => field_ok(*ratio, ups, ActionUpgradeTarget::EffectRatio, RATIO_LIMIT)
                    && field_ok(*duration, ups, ActionUpgradeTarget::EffectDuration, DURATION_LIMIT),
                EffectType::Stun { duration } => field_ok(*duration, ups, ActionUpgradeTarget::EffectDuration, DURATION_LIMIT),
            };
            check_target(target, ups) && eff_ok
        },
        TowerAction::GoldGen { gold_per_second } => field_ok(
            *gold_per_second,
            ups,
            ActionUpgradeTarget::GoldPerSecond,
            AMOUNT_LIMIT,
        ),
        TowerAction::ApplyElementalState { target, state: _, duration, strength } => {
            check_target(target, ups) && field_ok(*duration, ups, ActionUpgradeTarget::StateDuration, DURATION_LIMIT)
                && field_ok(*strength, ups, ActionUpgradeTarget::StateStrength, STRENGTH_LIMIT)
        },
        TowerAction::AuraEffect { radius, state: _, duration, strength } => {
            field_ok(*radius, ups, ActionUpgradeTarget::AuraRadius, COORD_LIMIT)
                && field_ok(*duration, ups, ActionUpgradeTarget::StateDuration, DURATION_LIMIT)
                && field_ok(*strength, ups, ActionUpgradeTarget::StateStrength, STRENGTH_LIMIT)
        },
        TowerAction::Annihilate { required_states: _, boss_damage_percent } => field_ok(
            *boss_damage_percent,
            ups,
            ActionUpgradeTarget::BossDamagePercent,
            PERCENT_LIMIT,
        ),
        TowerAction::ConditionalDamage { min_states: _, damage_percent, radius, tick_rate } => {
            field_ok(*damage_percent, ups, ActionUpgradeTarget::ConditionalDamagePercent, PERCENT_LIMIT)
                && field_ok(*radius, ups, ActionUpgradeTarget::AoeRadius, COORD_LIMIT)
                && 0 < *tick_rate && *tick_rate <= DURATION_LIMIT
        },
        TowerAction::RandomBombard { damage, radius } => {
            field_ok(*damage, ups, ActionUpgradeTarget::BombardDamage, AMOUNT_LIMIT)
                && field_ok(*radius, ups, ActionUpgradeTarget::BombardRadius, COORD_LIMIT)
        },
        TowerAction::LifeSteal { radius, damage_per_second, heal_ratio } => {
            field_ok(*radius, ups, ActionUpgradeTarget::LifeStealRadius, COORD_LIMIT)
                && field_ok(*damage_per_second, ups, ActionUpgradeTarget::LifeStealDps, AMOUNT_LIMIT)
                && field_ok(*heal_ratio, ups, ActionUpgradeTarget::HealRatio, PERCENT_LIMIT)
        },
        TowerAction::ApplyCold { target, damage, cold_duration, freeze_duration, aoe_radius } => {
            check_target(target, ups)
                && field_ok(*damage, ups, ActionUpgradeTarget::Damage, AMOUNT_LIMIT)
                && field_ok(*cold_duration, ups, ActionUpgradeTarget::ColdDuration, DURATION_LIMIT)
                && field_ok(*freeze_duration, ups, ActionUpgradeTarget::FreezeDuration, DURATION_LIMIT)
                && field_ok(*aoe_radius, ups, ActionUpgradeTarget::AoeRadius, COORD_LIMIT)
        },
        TowerAction::ColdAura { radius, cold_duration, freeze_duration } => {
            field_ok(*radius, ups, ActionUpgradeTarget::AuraRadius, COORD_LIMIT)
                && field_ok(*cold_duration, ups, ActionUpgradeTarget::ColdDuration, DURATION_LIMIT)
                && field_ok(*freeze_duration, ups, ActionUpgradeTarget::FreezeDuration, DURATION_LIMIT)
        },
        TowerAction::Glaciation {
            radius,
            damage_percent,
            cold_duration,
            freeze_duration,
            tick_rate,
        } => {
            field_ok(*radius, ups, ActionUpgradeTarget::AoeRadius, COORD_LIMIT)
                && field_ok(*damage_percent, ups, ActionUpgradeTarget::GlaciationDamagePercent, PERCENT_LIMIT)
                && field_ok(*cold_duration, ups, ActionUpgradeTarget::ColdDuration, DURATION_LIMIT)
                && field_ok(*freeze_duration, ups, ActionUpgradeTarget::FreezeDuration, DURATION_LIMIT)
                && 0 < *tick_rate && *tick_rate <= DURATION_LIMIT
        },
    }
}

/// One upgrade line of a template: the displayed base is read back from
/// the field the upgrade points at; inputs outside the template bounds are
/// clamped so the result is always well-formed.
pub fn make_upgrade(
    name: &'static str,
    action: &TowerAction,
    applies_to: ActionUpgradeTarget,
    bonus_per_level: i64,
    max_level: u32,
) -> (r: ActionUpgrade)
    ensures
        r.prop.wf(),
        r.name == name,
        r.applies_to == applies_to,
        r.prop.current_level == 0,
        0 <= spec_extract_base(*action, applies_to) <= PROP_BASE_LIMIT && 0 <= bonus_per_level
            <= PROP_BONUS_LIMIT && max_level <= PROP_LEVEL_LIMIT ==> r.prop == (UpgradeableProp {
            base: spec_extract_base(*action, applies_to) as i64,
            bonus_per_level,
            max_level,
            current_level: 0,
            cost_base: 30,
            cost_per_level: 25,
        }),
{
    let base = if 0 <= extract_base_value_clamped(action, applies_to) {
        extract_base_value_clamped(action, applies_to)
    } else {
        0
    };
    let bonus = if 0 <= bonus_per_level && bonus_per_level <= PROP_BONUS_LIMIT {
        bonus_per_level
    } else {
        0
    };
    let levels = if max_level <= PROP_LEVEL_LIMIT {
        max_level
    } else {
        PROP_LEVEL_LIMIT
    };
    ActionUpgrade { name, prop: UpgradeableProp::new(base, bonus, levels), applies_to }
}

/// `extract_base_value` with out-of-range fields clamped to the template
/// bound instead of constrained by a precondition.
fn extract_base_value_clamped(action: &TowerAction, target: ActionUpgradeTarget) -> (r: i64)
    ensures
        0 <= r <= PROP_BASE_LIMIT,
        0 <= spec_extract_base(*action, target) <= PROP_BASE_LIMIT ==> r == spec_extract_base(
            *action,
            target,
        ),
{
    let v = extract_base_value_raw(action, target);
    if v < 0 {
        0
    } else if v > PROP_BASE_LIMIT {
        PROP_BASE_LIMIT
    } else {
        v
    }
}

/// A template action together with its upgrade list; a list that would let
/// some level overrun a field bound is dropped, and an action whose own
/// base values are out of range is replaced by an inert one, so the result
/// is always well-formed.
pub fn make_action_def(action: TowerAction, upgrades: Vec<ActionUpgrade>) -> (r: TowerActionDef)
    ensures
        r.wf(),
        action_def_wf(action, upgrades@) && upgrades@.len() <= UPGRADES_LIMIT ==> r.action
            == action && r.upgrades@ == upgrades@,
        (forall|i: int|
            0 <= i < upgrades@.len() ==> (#[trigger] upgrades@[i]).prop.current_level == 0)
            ==> forall|i: int|
            0 <= i < r.upgrades@.len() ==> (#[trigger] r.upgrades@[i]).prop.current_level == 0,
{
    if upgrades.len() <= UPGRADES_LIMIT && check_ups(&upgrades) && check_action(
        &action,
        &upgrades,
    ) {
        return TowerActionDef { action, upgrades };
    }
    let empty: Vec<ActionUpgrade> = Vec::new();
    if check_action(&action, &empty) {
        return TowerActionDef { action, upgrades: empty };
    }
    let inert: Vec<ActionUpgrade> = Vec::new();
    TowerActionDef { action: TowerAction::GoldGen { gold_per_second: 0 }, upgrades: inert }
}

/// The smallest value a property can take at any level.
pub open spec fn property_min(p: Property) -> int {
    match p {
        Property::Fixed(v) => v as int,
        Property::Upgradable(q) => q.base as int,
    }
}

/// A property's value never falls below its base.
pub proof fn lemma_property_min(p: Property)
    requires
        p.basic_wf(),
    ensures
        property_min(p) <= p.spec_value(),
{
    match p {
        Property::Fixed(_) => {},
        Property::Upgradable(q) => {
            assert(0 <= q.bonus_per_level * q.current_level) by (nonlinear_arith)
                requires
                    0 <= q.bonus_per_level,
                    0 <= q.current_level,
            ;
        },
    }
}

/// One of a tower's three competencies: an immutable template cloned into
/// per-tower runtime state on purchase.
#[derive(Clone, Debug)]
pub struct TowerSkillDef {
    pub id: u8,
    pub name: &'static str,
    pub description: &'static str,
    pub icon: &'static str,
    pub skill_type: SkillType,
    pub purchase_cost: u32,
    /// Attack range; present exactly on firing skills.
    pub range: Option<Property>,
    /// Attacks per second (milli); present exactly on firing skills.
    pub attack_speed: Option<Property>,
    pub projectile_size: i64,
    pub can_change_target: bool,
    pub actions: Vec<TowerActionDef>,
}

/// A property as a template declares it: at level zero.
pub open spec fn property_at_zero(p: Option<Property>) -> bool {
    match p {
        Some(Property::Upgradable(q)) => q.current_level == 0,
        _ => true,
    }
}

impl TowerSkillDef {
    pub open spec fn wf(self) -> bool {
        &&& self.purchase_cost <= COST_LIMIT
        &&& match self.range {
            Some(p) => p.wf(COORD_LIMIT as int),
            None => true,
        }
        &&& match self.attack_speed {
            Some(p) => p.wf(RATE_LIMIT as int) && property_min(p) > 0,
            None => true,
        }
        &&& property_at_zero(self.range)
        &&& property_at_zero(self.attack_speed)
        &&& 0 <= self.projectile_size <= COORD_LIMIT
        &&& self.skill_type == SkillType::Active ==> self.range is Some && self.attack_speed
            is Some
        &&& forall|i: int| 0 <= i < self.actions@.len() ==> (#[trigger] self.actions@[i]).wf()
        &&& forall|i: int, k: int|
            0 <= i < self.actions@.len() && 0 <= k < self.actions@[i].upgrades@.len() ==> (
            #[trigger] self.actions@[i].upgrades@[k]).prop.current_level == 0
    }
}

/// A skill template from checked parts.
pub fn make_skill(
    id: u8,
    name: &'static str,
    description: &'static str,
    icon: &'static str,
    skill_type: SkillType,
    purchase_cost: u32,
    range: Option<Property>,
    attack_speed: Option<Property>,
    projectile_size: i64,
    can_change_target: bool,
    actions: Vec<TowerActionDef>,
) -> (r: TowerSkillDef)
    requires
        purchase_cost <= COST_LIMIT,
        match range {
            Some(p) => p.wf(COORD_LIMIT as int),
            None => true,
        },
        match attack_speed {
            Some(p) => p.wf(RATE_LIMIT as int) && property_min(p) > 0,
            None => true,
        },
        property_at_zero(range),
        property_at_zero(attack_speed),
        0 <= projectile_size <= COORD_LIMIT,
        skill_type == SkillType::Active ==> range is Some && attack_speed is Some,
        forall|i: int| 0 <= i < actions@.len() ==> (#[trigger] actions@[i]).wf(),
        forall|i: int, k: int|
            0 <= i < actions@.len() && 0 <= k < actions@[i].upgrades@.len() ==> (
            #[trigger] actions@[i].upgrades@[k]).prop.current_level == 0,
    ensures
        r.wf(),
        r.id == id,
        r.name == name,
        r.description == description,
        r.icon == icon,
        r.skill_type == skill_type,
        r.purchase_cost == purchase_cost,
        r.range == range,
        r.attack_speed == attack_speed,
        r.projectile_size == projectile_size,
        r.can_change_target == can_change_target,
        r.actions@ == actions@,
{
    TowerSkillDef {
        id,
        name,
        description,
        icon,
        skill_type,
        purchase_cost,
        range,
        attack_speed,
        projectile_size,
        can_change_target,
        actions,
    }
}

/// A complete tower template: exactly three skills.
#[derive(Clone, Debug)]
pub struct TowerDef {
    pub kind: TowerKind,
    pub name: &'static str,
    pub description: &'static str,
    pub element: TowerElement,
    pub base_cost: u32,
    pub default_target_priority: TargetPriority,
    pub skills: Vec<TowerSkillDef>,
}

impl TowerDef {
    pub open spec fn wf(self) -> bool {
        &&& self.base_cost <= COST_LIMIT
        &&& self.skills@.len() == 3
        &&& forall|i: int| 0 <= i < 3 ==> (#[trigger] self.skills@[i]).wf()
    }
}

/// A tower template from its three checked skills.
pub fn make_tower_def(
    kind: TowerKind,
    name: &'static str,
    description: &'static str,
    element: TowerElement,
    base_cost: u32,
    default_target_priority: TargetPriority,
    skill0: TowerSkillDef,
    skill1: TowerSkillDef,
    skill2: TowerSkillDef,
) -> (r: TowerDef)
    requires
        base_cost <= COST_LIMIT,
        skill0.wf(),
        skill1.wf(),
        skill2.wf(),
    ensures
        r.wf(),
        r.kind == kind,
        r.name == name,
        r.element == element,
        r.base_cost == base_cost,
        r.default_target_priority == default_target_priority,
        r.skills@.len() == 3,
        r.skills@[0] == skill0,
        r.skills@[1] == skill1,
        r.skills@[2] == skill2,
{
    let mut skills: Vec<TowerSkillDef> = Vec::new();
    skills.push(skill0);
    skills.push(skill1);
    skills.push(skill2);
    TowerDef { kind, name, description, element, base_cost, default_target_priority, skills }
}

/// Grow an action list, keeping every entry well-formed.
pub fn push_action(v: &mut Vec<TowerActionDef>, d: TowerActionDef)
    requires
        d.wf(),
        forall|i: int| 0 <= i < old(v)@.len() ==> (#[trigger] old(v)@[i]).wf(),
    ensures
        final(v)@.len() == old(v)@.len() + 1,
        final(v)@ == old(v)@.push(d),
        forall|i: int| 0 <= i < final(v)@.len() ==> (#[trigger] final(v)@[i]).wf(),
{
    v.push(d);
}

/// Grow an upgrade list, keeping every entry well-formed.
pub fn push_upgrade(v: &mut Vec<ActionUpgrade>, u: ActionUpgrade)
    requires
        u.prop.wf(),
        ups_wf(old(v)@),
    ensures
        final(v)@.len() == old(v)@.len() + 1,
        final(v)@ == old(v)@.push(u),
        ups_wf(final(v)@),
{
    v.push(u);
}

/// The action field an upgrade points at, read back from the base action;
/// seeds each upgrade's displayed base value.
pub open spec fn spec_extract_base(a: TowerAction, t: ActionUpgradeTarget) -> int {
    match (a, t) {
        (TowerAction::ApplyDamage { damage: DamageType::Fixed(v), .. }, ActionUpgradeTarget::Damage) => v as int,
        (TowerAction::ApplyDamage { damage: DamageType::PercentHp(v), .. }, ActionUpgradeTarget::Damage) => v as int,
        (TowerAction::ApplyDamage { target: EffectTarget::Area(r), .. }, ActionUpgradeTarget::AoeRadius) => r as int,
        (TowerAction::ApplyDamage { target: EffectTarget::Multi(n), .. }, ActionUpgradeTarget::MaxTargets) => 1000 * n,
        (TowerAction::ApplyEffect { effect: EffectType::Burn { dps, .. }, .. }, ActionUpgradeTarget::EffectDps) => dps as int,
        (TowerAction::ApplyEffect { effect: EffectType::Burn { duration, .. }, .. }, ActionUpgradeTarget::EffectDuration) => duration as int,
        (TowerAction::ApplyEffect { effect: EffectType::Slow { duration, .. }, .. }, ActionUpgradeTarget::EffectDuration) => duration as int,
        (TowerAction::ApplyEffect { effect: EffectType::Stun { duration }, .. }, ActionUpgradeTarget::EffectDuration) => duration as int,
        (TowerAction::ApplyEffect { effect: EffectType::Slow { ratio, .. }, .. }, ActionUpgradeTarget::EffectRatio) => ratio as int,
        (TowerAction::GoldGen { gold_per_second }, ActionUpgradeTarget::GoldPerSecond) => gold_per_second as int,
        (TowerAction::ApplyElementalState { duration, .. }, ActionUpgradeTarget::StateDuration) => duration as int,
        (TowerAction::ApplyElementalState { strength, .. }, ActionUpgradeTarget::StateStrength) => strength as int,
        (TowerAction::AuraEffect { radius, .. }, ActionUpgradeTarget::AuraRadius) => radius as int,
        (TowerAction::AuraEffect { duration, .. }, ActionUpgradeTarget::StateDuration) => duration as int,
        (TowerAction::AuraEffect { strength, .. }, ActionUpgradeTarget::StateStrength) => strength as int,
        (TowerAction::Annihilate { boss_damage_percent, .. }, ActionUpgradeTarget::BossDamagePercent) => boss_damage_percent as int,
        (TowerAction::ConditionalDamage { damage_percent, .. }, ActionUpgradeTarget::ConditionalDamagePercent) => damage_percent as int,
        (TowerAction::ConditionalDamage { radius, .. }, ActionUpgradeTarget::AoeRadius) => radius as int,
        (TowerAction::RandomBombard { damage, .. }, ActionUpgradeTarget::BombardDamage) => damage as int,
        (TowerAction::RandomBombard { radius, .. }, ActionUpgradeTarget::BombardRadius) => radius as int,
        (TowerAction::LifeSteal { radius, .. }, ActionUpgradeTarget::LifeStealRadius) => radius as int,
        (TowerAction::LifeSteal { damage_per_second, .. }, ActionUpgradeTarget::LifeStealDps) => damage_per_second as int,
        (TowerAction::LifeSteal { heal_ratio, .. }, ActionUpgradeTarget::HealRatio) => heal_ratio as int,
        (TowerAction::ApplyCold { damage, .. }, ActionUpgradeTarget::Damage) => damage as int,
        (TowerAction::ApplyCold { cold_duration, .. }, ActionUpgradeTarget::ColdDuration) => cold_duration as int,
        (TowerAction::ApplyCold { freeze_duration, .. }, ActionUpgradeTarget::FreezeDuration) => freeze_duration as int,
        (TowerAction::ApplyCold { aoe_radius, .. }, ActionUpgradeTarget::AoeRadius) => aoe_radius as int,
        (TowerAction::ColdAura { radius, .. }, ActionUpgradeTarget::AuraRadius) => radius as int,
        (TowerAction::ColdAura { cold_duration, .. }, ActionUpgradeTarget::ColdDuration) => cold_duration as int,
        (TowerAction::ColdAura { freeze_duration, .. }, ActionUpgradeTarget::FreezeDuration) => freeze_duration as int,
        (TowerAction::Glaciation { radius, .. }, ActionUpgradeTarget::AoeRadius) => radius as int,
        (TowerAction::Glaciation { damage_percent, .. }, ActionUpgradeTarget::GlaciationDamagePercent) => damage_percent as int,
        (TowerAction::Glaciation { cold_duration, .. }, ActionUpgradeTarget::ColdDuration) => cold_duration as int,
        (TowerAction::Glaciation { freeze_duration, .. }, ActionUpgradeTarget::FreezeDuration) => freeze_duration as int,
        _ => 0,
    }
}

/// Executable twin of `spec_extract_base`.
pub fn extract_base_value(action: &TowerAction, target: ActionUpgradeTarget) -> (r: i64)
    ensures
        r == spec_extract_base(*action, target),
{
    extract_base_value_raw(action, target)
}

fn extract_base_value_raw(action: &TowerAction, target: ActionUpgradeTarget) -> (r: i64)
    ensures
        r == spec_extract_base(*action, target),
{
    match (action, target) {
        (TowerAction::ApplyDamage { damage: DamageType::Fixed(v), .. }, ActionUpgradeTarget::Damage) => *v,
        (TowerAction::ApplyDamage { damage: DamageType::PercentHp(v), .. }, ActionUpgradeTarget::Damage) => *v,
        (TowerAction::ApplyDamage { target: EffectTarget::Area(r), .. }, ActionUpgradeTarget::AoeRadius) => *r,
        (TowerAction::ApplyDamage { target: EffectTarget::Multi(n), .. }, ActionUpgradeTarget::MaxTargets) => 1000 * (*n as i64),
        (TowerAction::ApplyEffect { effect: EffectType::Burn { dps, .. }, .. }, ActionUpgradeTarget::EffectDps) => *dps,
        (TowerAction::ApplyEffect { effect: EffectType::Burn { duration, .. }, .. }, ActionUpgradeTarget::EffectDuration) => *duration,
        (TowerAction::ApplyEffect { effect: EffectType::Slow { duration, .. }, .. }, ActionUpgradeTarget::EffectDuration) => *duration,
        (TowerAction::ApplyEffect { effect: EffectType::Stun { duration }, .. }, ActionUpgradeTarget::EffectDuration) => *duration,
        (TowerAction::ApplyEffect { effect: EffectType::Slow { ratio, .. }, .. }, ActionUpgradeTarget::EffectRatio) => *ratio,
        (TowerAction::GoldGen { gold_per_second }, ActionUpgradeTarget::GoldPerSecond) => *gold_per_second,
        (TowerAction::ApplyElementalState { duration, .. }, ActionUpgradeTarget::StateDuration) => *duration,
        (TowerAction::ApplyElementalState { strength, .. }, ActionUpgradeTarget::StateStrength) => *strength,
        (TowerAction::AuraEffect { radius, .. }, ActionUpgradeTarget::AuraRadius) => *radius,
        (TowerAction::AuraEffect { duration, .. }, ActionUpgradeTarget::StateDuration) => *duration,
        (TowerAction::AuraEffect { strength, .. }, ActionUpgradeTarget::StateStrength) => *strength,
        (TowerAction::Annihilate { boss_damage_percent, .. }, ActionUpgradeTarget::BossDamagePercent) => *boss_damage_percent,
        (TowerAction::ConditionalDamage { damage_percent, .. }, ActionUpgradeTarget::ConditionalDamagePercent) => *damage_percent,
        (TowerAction::ConditionalDamage { radius, .. }, ActionUpgradeTarget::AoeRadius) => *radius,
        (TowerAction::RandomBombard { damage, .. }, ActionUpgradeTarget::BombardDamage) => *damage,
        (TowerAction::RandomBombard { radius, .. }, ActionUpgradeTarget::BombardRadius) => *radius,
        (TowerAction::LifeSteal { radius, .. }, ActionUpgradeTarget::LifeStealRadius) => *radius,
        (TowerAction::LifeSteal { damage_per_second, .. }, ActionUpgradeTarget::LifeStealDps) => *damage_per_second,
        (TowerAction::LifeSteal { heal_ratio, .. }, ActionUpgradeTarget::HealRatio) => *heal_ratio,
        (TowerAction::ApplyCold { damage, .. }, ActionUpgradeTarget::Damage) => *damage,
        (TowerAction::ApplyCold { cold_duration, .. }, ActionUpgradeTarget::ColdDuration) => *cold_duration,
        (TowerAction::ApplyCold { freeze_duration, .. }, ActionUpgradeTarget::FreezeDuration) => *freeze_duration,
        (TowerAction::ApplyCold { aoe_radius, .. }, ActionUpgradeTarget::AoeRadius) => *aoe_radius,
        (TowerAction::ColdAura { radius, .. }, ActionUpgradeTarget::AuraRadius) => *radius,
        (TowerAction::ColdAura { cold_duration, .. }, ActionUpgradeTarget::ColdDuration) => *cold_duration,
        (TowerAction::ColdAura { freeze_duration, .. }, ActionUpgradeTarget::FreezeDuration) => *freeze_duration,
        (TowerAction::Glaciation { radius, .. }, ActionUpgradeTarget::AoeRadius) => *radius,
        (TowerAction::Glaciation { damage_percent, .. }, ActionUpgradeTarget::GlaciationDamagePercent) => *damage_percent,
        (TowerAction::Glaciation { cold_duration, .. }, ActionUpgradeTarget::ColdDuration) => *cold_duration,
        (TowerAction::Glaciation { freeze_duration, .. }, ActionUpgradeTarget::FreezeDuration) => *freeze_duration,
        _ => 0,
    }
}

} // verus!
