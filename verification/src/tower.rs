//! Towers: three skill slots each (locked, purchased or active), per-tower
//! runtime upgrade levels cloned from the templates, and the resolution of
//! the active and passive skills into ready-to-apply actions.

use vstd::pervasive::VecAdditionalExecFns;
use vstd::prelude::*;

use crate::catalog::get_def;
use crate::defs::{
    ActionUpgrade, Property, ResolvedAction, SkillType, TargetPriority, TowerActionDef, TowerDef,
    TowerKind, TowerSkillDef, UpgradeableProp, action_def_wf, bonus_cap, resolved_ok,
    spec_resolve_action, ups_wf,
};
use crate::elemental::TowerElement;
use crate::geom::{COORD_LIMIT, Point2D};
use crate::units::{DURATION_LIMIT, RATE_LIMIT, u32_add};

verus! {

#[derive(Clone, Copy, PartialEq, Eq, Structural, Debug)]
pub struct NotificationSettings {
    pub shield_broken: bool,
    pub shield_low: bool,
}

impl Default for NotificationSettings {
    fn default() -> (r: Self)
        ensures
            r == (NotificationSettings { shield_broken: false, shield_low: false }),
    {
        NotificationSettings { shield_broken: false, shield_low: false }
    }
}

/// Which upgrade of a skill a command addresses.
#[derive(Clone, Copy, PartialEq, Eq, Structural, Debug)]
pub enum SkillUpgradeId {
    Range,
    AttackSpeed,
    Action { action_idx: usize, upgrade_idx: usize },
}

/// Runtime upgrade levels of one action of a purchased skill.
#[derive(Clone, Debug)]
pub struct SkillActionState {
    pub action_index: usize,
    pub upgrades: Vec<UpgradeableProp>,
}

/// Per-tower state of one purchased skill: its own copies of the
/// upgradeable properties, so levels are per tower, never global.
#[derive(Clone, Debug)]
pub struct SkillRuntimeState {
    pub range: Option<Property>,
    pub attack_speed: Option<Property>,
    pub action_states: Vec<SkillActionState>,
}

#[derive(Clone, Debug)]
pub enum SkillState {
    Locked,
    Purchased(SkillRuntimeState),
    Active(SkillRuntimeState),
}

/// A runtime property is its template with possibly another level.
pub open spec fn prop_matches(p: UpgradeableProp, q: UpgradeableProp) -> bool {
    &&& p.base == q.base
    &&& p.bonus_per_level == q.bonus_per_level
    &&& p.max_level == q.max_level
    &&& p.cost_base == q.cost_base
    &&& p.cost_per_level == q.cost_per_level
    &&& p.wf()
}

pub open spec fn property_matches(a: Option<Property>, b: Option<Property>) -> bool {
    match (a, b) {
        (None, None) => true,
        (Some(Property::Fixed(x)), Some(Property::Fixed(y))) => x == y,
        (Some(Property::Upgradable(p)), Some(Property::Upgradable(q))) => prop_matches(p, q),
        _ => false,
    }
}

/// The runtime state mirrors the template: same shape everywhere, only
/// upgrade levels free to differ.
pub open spec fn runtime_matches(rt: SkillRuntimeState, def: TowerSkillDef) -> bool {
    &&& property_matches(rt.range, def.range)
    &&& property_matches(rt.attack_speed, def.attack_speed)
    &&& rt.action_states@.len() == def.actions@.len()
    &&& forall|j: int|
        0 <= j < rt.action_states@.len() ==> (#[trigger] rt.action_states@[j]).upgrades@.len()
            == def.actions@[j].upgrades@.len()
    &&& forall|j: int, k: int|
        0 <= j < rt.action_states@.len() && 0 <= k < rt.action_states@[j].upgrades@.len()
            ==> prop_matches(
            #[trigger] rt.action_states@[j].upgrades@[k],
            def.actions@[j].upgrades@[k].prop,
        )
}

/// A runtime state freshly cloned from its template: the same properties
/// value for value, so every upgrade level sits at zero (templates are
/// well-formed at level zero).
pub open spec fn fresh_runtime(rt: SkillRuntimeState, def: TowerSkillDef) -> bool {
    &&& rt.range == def.range
    &&& rt.attack_speed == def.attack_speed
    &&& rt.action_states@.len() == def.actions@.len()
    &&& forall|j: int, k: int|
        0 <= j < rt.action_states@.len() && 0 <= k < rt.action_states@[j].upgrades@.len()
            ==> #[trigger] rt.action_states@[j].upgrades@[k] == def.actions@[j].upgrades@[k].prop
    &&& forall|j: int|
        0 <= j < rt.action_states@.len() ==> (#[trigger] rt.action_states@[j]).upgrades@.len()
            == def.actions@[j].upgrades@.len()
}

/// In a fresh clone of a well-formed template, every upgrade level is zero.
pub proof fn lemma_fresh_runtime_levels_zero(rt: SkillRuntimeState, def: TowerSkillDef)
    requires
        fresh_runtime(rt, def),
        def.wf(),
    ensures
        forall|j: int, k: int|
            0 <= j < rt.action_states@.len() && 0 <= k < rt.action_states@[j].upgrades@.len()
                ==> (#[trigger] rt.action_states@[j].upgrades@[k]).current_level == 0,
        crate::defs::property_at_zero(rt.range),
        crate::defs::property_at_zero(rt.attack_speed),
{
    assert forall|j: int, k: int|
        0 <= j < rt.action_states@.len() && 0 <= k < rt.action_states@[j].upgrades@.len() implies (
    #[trigger] rt.action_states@[j].upgrades@[k]).current_level == 0 by {
        assert(rt.action_states@[j].upgrades@[k] == def.actions@[j].upgrades@[k].prop);
        assert(def.actions@[j].upgrades@[k].prop.current_level == 0);
    }
}

impl SkillState {
    pub open spec fn spec_is_purchased(self) -> bool {
        !(self is Locked)
    }

    pub open spec fn spec_is_active(self) -> bool {
        self is Active
    }

    pub open spec fn spec_runtime(self) -> Option<SkillRuntimeState> {
        match self {
            SkillState::Locked => None,
            SkillState::Purchased(rt) => Some(rt),
            SkillState::Active(rt) => Some(rt),
        }
    }

    /// The slot state is consistent with its template when owned.
    pub open spec fn matches_def(self, def: TowerSkillDef) -> bool {
        match self.spec_runtime() {
            Some(rt) => runtime_matches(rt, def),
            None => true,
        }
    }

    /// Fresh per-tower copies of a template's upgradeable properties,
    /// every level at zero (as the template declares them).
    pub fn create_runtime_state(skill_def: &TowerSkillDef) -> (r: SkillRuntimeState)
        requires
            skill_def.wf(),
        ensures
            runtime_matches(r, *skill_def),
            fresh_runtime(r, *skill_def),
            r.range == skill_def.range,
            r.attack_speed == skill_def.attack_speed,
            forall|j: int, k: int|
                0 <= j < r.action_states@.len() && 0 <= k < r.action_states@[j].upgrades@.len()
                    ==> #[trigger] r.action_states@[j].upgrades@[k] == skill_def.actions@[j].upgrades@[k].prop,
    {
        let mut action_states: Vec<SkillActionState> = Vec::new();
        let mut j: usize = 0;
        while j < skill_def.actions.len()
            invariant
                skill_def.wf(),
                0 <= j <= skill_def.actions@.len(),
                action_states@.len() == j,
                forall|x: int|
                    0 <= x < j ==> (#[trigger] action_states@[x]).upgrades@.len()
                        == skill_def.actions@[x].upgrades@.len(),
                forall|x: int, k: int|
                    0 <= x < j && 0 <= k < action_states@[x].upgrades@.len()
                        ==> #[trigger] action_states@[x].upgrades@[k]
                        == skill_def.actions@[x].upgrades@[k].prop,
            decreases skill_def.actions@.len() - j,
        {
            let action_def = &skill_def.actions[j];
            let mut ups: Vec<UpgradeableProp> = Vec::new();
            let mut k: usize = 0;
            while k < action_def.upgrades.len()
                invariant
                    0 <= k <= action_def.upgrades@.len(),
                    ups@.len() == k,
                    forall|y: int|
                        0 <= y < k ==> #[trigger] ups@[y] == action_def.upgrades@[y].prop,
                decreases action_def.upgrades@.len() - k,
            {
                ups.push(action_def.upgrades[k].prop);
                k = k + 1;
            }
            action_states.push(SkillActionState { action_index: j, upgrades: ups });
            j = j + 1;
        }
        proof {
            assert(forall|x: int|
                0 <= x < skill_def.actions@.len() ==> (#[trigger] skill_def.actions@[x]).wf());
        }
        SkillRuntimeState {
            range: skill_def.range,
            attack_speed: skill_def.attack_speed,
            action_states,
        }
    }

    pub fn is_purchased(&self) -> (r: bool)
        ensures
            r == self.spec_is_purchased(),
    {
        !matches!(self, SkillState::Locked)
    }

    pub fn is_active(&self) -> (r: bool)
        ensures
            r == self.spec_is_active(),
    {
        matches!(self, SkillState::Active(_))
    }

    pub fn runtime_state(&self) -> (r: Option<&SkillRuntimeState>)
        ensures
            match r {
                Some(rt) => self.spec_runtime() == Some(*rt),
                None => self.spec_runtime() is None,
            },
    {
        match self {
            SkillState::Locked => None,
            SkillState::Purchased(rt) => Some(rt),
            SkillState::Active(rt) => Some(rt),
        }
    }

    /// The current range of an owned firing skill.
    pub fn range_value(&self) -> (r: Option<i64>)
        requires
            match self.spec_runtime() {
                Some(rt) => match rt.range {
                    Some(p) => p.basic_wf(),
                    None => true,
                },
                None => true,
            },
        ensures
            r == match self.spec_runtime() {
                Some(rt) => match rt.range {
                    Some(p) => Some(p.spec_value() as i64),
                    None => None::<i64>,
                },
                None => None::<i64>,
            },
    {
        match self.runtime_state() {
            Some(rt) => match &rt.range {
                Some(p) => Some(p.value()),
                None => None,
            },
            None => None,
        }
    }

    /// The skill state with its runtime replaced.
    pub open spec fn with_runtime(self, rt: SkillRuntimeState) -> SkillState {
        match self {
            SkillState::Locked => SkillState::Locked,
            SkillState::Purchased(_) => SkillState::Purchased(rt),
            SkillState::Active(_) => SkillState::Active(rt),
        }
    }

    /// The current attack speed of an owned firing skill.
    pub fn attack_speed_value(&self) -> (r: Option<i64>)
        requires
            match self.spec_runtime() {
                Some(rt) => match rt.attack_speed {
                    Some(p) => p.basic_wf(),
                    None => true,
                },
                None => true,
            },
        ensures
            r == match self.spec_runtime() {
                Some(rt) => match rt.attack_speed {
                    Some(p) => Some(p.spec_value() as i64),
                    None => None::<i64>,
                },
                None => None::<i64>,
            },
    {
        match self.runtime_state() {
            Some(rt) => match &rt.attack_speed {
                Some(p) => Some(p.value()),
                None => None,
            },
            None => None,
        }
    }
}

/// The template upgrade lines with the runtime's live properties put in.
pub open spec fn ups_with(defs: Seq<ActionUpgrade>, props: Seq<UpgradeableProp>) -> Seq<
    ActionUpgrade,
> {
    Seq::new(
        defs.len(),
        |k: int| ActionUpgrade { name: defs[k].name, prop: props[k], applies_to: defs[k].applies_to },
    )
}

/// Swapping levels into the upgrade lines moves no headroom: the caps are
/// those of the template.
pub proof fn lemma_cap_eq(
    defs: Seq<ActionUpgrade>,
    props: Seq<UpgradeableProp>,
    t: crate::defs::ActionUpgradeTarget,
)
    requires
        defs.len() == props.len(),
        forall|k: int| 0 <= k < defs.len() ==> prop_matches(#[trigger] props[k], defs[k].prop),
    ensures
        bonus_cap(ups_with(defs, props), t) == bonus_cap(defs, t),
        ups_wf(ups_with(defs, props)),
    decreases defs.len(),
{
    let u = ups_with(defs, props);
    assert(forall|k: int| 0 <= k < u.len() ==> (#[trigger] u[k]).prop.wf());
    if defs.len() > 0 {
        assert(forall|k: int|
            0 <= k < defs.len() - 1 ==> prop_matches(
                #[trigger] props.drop_last()[k],
                defs.drop_last()[k].prop,
            ));
        lemma_cap_eq(defs.drop_last(), props.drop_last(), t);
        assert(u.drop_last() =~= ups_with(defs.drop_last(), props.drop_last()));
        assert(u.last().prop.bonus_per_level == defs.last().prop.bonus_per_level);
        assert(u.last().prop.max_level == defs.last().prop.max_level);
        assert(u.last().applies_to == defs.last().applies_to);
    }
}

/// A well-formed template action stays well-formed with the runtime's
/// levels substituted in.
pub proof fn lemma_ups_with_wf(
    action: crate::defs::TowerAction,
    defs: Seq<ActionUpgrade>,
    props: Seq<UpgradeableProp>,
)
    requires
        action_def_wf(action, defs),
        defs.len() == props.len(),
        forall|k: int| 0 <= k < defs.len() ==> prop_matches(#[trigger] props[k], defs[k].prop),
    ensures
        action_def_wf(action, ups_with(defs, props)),
{
    assert forall|t: crate::defs::ActionUpgradeTarget| #[trigger] bonus_cap(
        ups_with(defs, props),
        t,
    ) == bonus_cap(defs, t) by {
        lemma_cap_eq(defs, props, t);
    }
    lemma_cap_eq(defs, props, crate::defs::ActionUpgradeTarget::Damage);
}

/// A runtime property respects the template's bound at every level.
pub proof fn lemma_matched_property(a: Option<Property>, b: Option<Property>, limit: int)
    requires
        property_matches(a, b),
        match b {
            Some(q) => q.wf(limit),
            None => true,
        },
    ensures
        match a {
            Some(p) => p.basic_wf() && 0 <= p.spec_value() <= limit && crate::defs::property_min(
                p,
            ) == crate::defs::property_min(b.unwrap()),
            None => b is None,
        },
{
    match (a, b) {
        (Some(Property::Upgradable(p)), Some(Property::Upgradable(q))) => {
            assert(0 <= p.bonus_per_level * p.current_level <= p.bonus_per_level * p.max_level)
                by (nonlinear_arith)
                requires
                    0 <= p.bonus_per_level,
                    p.current_level <= p.max_level,
            ;
        },
        _ => {},
    }
}

/// A well-formed tower holds at most one Active skill, whatever sequence
/// of purchases and activations produced it: every mutator preserves
/// well-formedness, and well-formedness pins the Active slot to the index
/// field.
pub proof fn lemma_at_most_one_active(t: Tower)
    requires
        t.wf(),
    ensures
        forall|i: int, j: int|
            0 <= i < j < t.skills@.len() && (#[trigger] t.skills@[i]) is Active ==> !((
            #[trigger] t.skills@[j]) is Active),
{
    assert forall|i: int, j: int|
        0 <= i < j < t.skills@.len() && (#[trigger] t.skills@[i]) is Active implies !((
    #[trigger] t.skills@[j]) is Active) by {
        match t.active_skill_index {
            Some(a) => {
                if i != a {
                    assert(!(t.skills@[i] is Active));
                }
                if j != a {
                    assert(!(t.skills@[j] is Active));
                }
            },
            None => {
                assert(!(t.skills@[i] is Active));
            },
        }
    }
}

/// At most one skill slot is Active, and the index field points at it.
pub open spec fn active_ok(skills: Seq<SkillState>, asi: Option<usize>) -> bool {
    match asi {
        Some(i) => i < skills.len() && skills[i as int] is Active && forall|j: int|
            0 <= j < skills.len() && j != i ==> !((#[trigger] skills[j]) is Active),
        None => forall|j: int| 0 <= j < skills.len() ==> !((#[trigger] skills[j]) is Active),
    }
}

#[derive(Clone, Debug)]
pub struct Tower {
    pub id: usize,
    pub position: Point2D,
    pub kind: TowerKind,
    pub element: TowerElement,
    pub name: &'static str,
    /// The tower's own copy of its template, fixed at placement.
    pub def: TowerDef,
    pub skills: Vec<SkillState>,
    pub active_skill_index: Option<usize>,
    /// Shared attack cooldown of the active skill, in milliseconds.
    pub attack_cooldown: i64,
    pub base_cost: u32,
    pub radius: i64,
    /// Milliseconds accumulated toward the next whole second of passive
    /// gold; always below one second.
    pub gold_accumulator: i64,
    /// Present exactly on the utility archetype.
    pub notification_settings: Option<NotificationSettings>,
    pub target_priority: TargetPriority,
    /// One clock per skill slot for interval-gated passive effects.
    pub passive_cooldowns: Vec<i64>,
}

impl Tower {
    pub open spec fn wf(self) -> bool {
        &&& self.def.wf()
        &&& self.kind == self.def.kind
        &&& self.element == self.def.element
        &&& self.base_cost == self.def.base_cost
        &&& self.position.in_bounds()
        &&& 0 <= self.radius <= COORD_LIMIT
        &&& self.skills@.len() == 3
        &&& forall|i: int|
            0 <= i < 3 ==> (#[trigger] self.skills@[i]).matches_def(self.def.skills@[i])
        &&& active_ok(self.skills@, self.active_skill_index)
        &&& -DURATION_LIMIT <= self.attack_cooldown <= DURATION_LIMIT
        &&& 0 <= self.gold_accumulator < 1000
        &&& self.passive_cooldowns@.len() == 3
        &&& forall|i: int|
            0 <= i < 3 ==> -DURATION_LIMIT <= #[trigger] self.passive_cooldowns@[i]
                <= DURATION_LIMIT
    }

    /// A newly placed tower: slot zero owned and selected, the other two
    /// locked, every clock at zero.
    pub fn from_def(id: usize, kind: TowerKind, position: Point2D) -> (r: Tower)
        requires
            position.in_bounds(),
        ensures
            r.wf(),
            r.id == id,
            r.kind == kind,
            r.position == position,
            r.active_skill_index == Some(0usize),
            r.skills@[0] is Active,
            match r.skills@[0].spec_runtime() {
                Some(rt) => fresh_runtime(rt, r.def.skills@[0]) && forall|j: int, k: int|
                    0 <= j < rt.action_states@.len() && 0 <= k
                        < rt.action_states@[j].upgrades@.len() ==> (
                    #[trigger] rt.action_states@[j].upgrades@[k]).current_level == 0,
                None => false,
            },
            r.skills@[1] is Locked,
            r.skills@[2] is Locked,
            r.base_cost == r.def.base_cost,
            r.radius == 14_000,
            r.gold_accumulator == 0,
            r.attack_cooldown == 0,
            r.notification_settings is Some <==> kind == TowerKind::Alarme,
            r.target_priority == r.def.default_target_priority,
    {
        let def = get_def(kind);
        let rt0 = SkillState::create_runtime_state(&def.skills[0]);
        proof {
            lemma_fresh_runtime_levels_zero(rt0, def.skills@[0]);
        }
        let mut skills: Vec<SkillState> = Vec::new();
        skills.push(SkillState::Active(rt0));
        skills.push(SkillState::Locked);
        skills.push(SkillState::Locked);
        let notification_settings = if matches!(kind, TowerKind::Alarme) {
            Some(NotificationSettings { shield_broken: false, shield_low: false })
        } else {
            None
        };
        let mut passive_cooldowns: Vec<i64> = Vec::new();
        passive_cooldowns.push(0);
        passive_cooldowns.push(0);
        passive_cooldowns.push(0);
        let element = def.element;
        let name = def.name;
        let base_cost = def.base_cost;
        let target_priority = def.default_target_priority;
        Tower {
            id,
            position,
            kind,
            element,
            name,
            def,
            skills,
            active_skill_index: Some(0),
            attack_cooldown: 0,
            base_cost,
            radius: 14_000,
            gold_accumulator: 0,
            notification_settings,
            target_priority,
            passive_cooldowns,
        }
    }

    /// Buy a slot: rejected past the third slot, on an owned slot, or
    /// with too little gold; otherwise the price is paid, fresh runtime
    /// state is cloned from the template, and the slot becomes Active if
    /// no slot is, else Purchased.
    pub fn purchase_skill(&mut self, skill_idx: usize, gold: &mut u32) -> (r: bool)
        requires
            old(self).wf(),
        ensures
            final(self).wf(),
            skill_idx >= 3 ==> !r && *final(self) == *old(self) && *final(gold) == *old(gold),
            skill_idx < 3 && old(self).skills@[skill_idx as int].spec_is_purchased() ==> !r
                && *final(self) == *old(self) && *final(gold) == *old(gold),
            skill_idx < 3 && !old(self).skills@[skill_idx as int].spec_is_purchased() && *old(gold)
                < old(self).def.skills@[skill_idx as int].purchase_cost ==> !r && *final(self)
                == *old(self) && *final(gold) == *old(gold),
            skill_idx < 3 && !old(self).skills@[skill_idx as int].spec_is_purchased() && *old(gold)
                >= old(self).def.skills@[skill_idx as int].purchase_cost ==> {
                &&& r
                &&& *final(gold) == *old(gold) - old(self).def.skills@[skill_idx as int].purchase_cost
                &&& final(self).skills@.len() == 3
                &&& forall|j: int|
                    0 <= j < 3 && j != skill_idx ==> #[trigger] final(self).skills@[j] == old(self).skills@[j]
                &&& final(self).skills@[skill_idx as int].spec_is_purchased()
                &&& match final(self).skills@[skill_idx as int].spec_runtime() {
                    Some(rt) => fresh_runtime(rt, old(self).def.skills@[skill_idx as int])
                        && forall|j: int, k: int|
                        0 <= j < rt.action_states@.len() && 0 <= k
                            < rt.action_states@[j].upgrades@.len() ==> (
                        #[trigger] rt.action_states@[j].upgrades@[k]).current_level == 0,
                    None => false,
                }
                &&& if old(self).active_skill_index is None {
                    final(self).skills@[skill_idx as int] is Active && final(self).active_skill_index == Some(skill_idx)
                } else {
                    final(self).skills@[skill_idx as int] is Purchased && final(self).active_skill_index == old(self).active_skill_index
                }
                &&& *final(self) == (Tower {
                    skills: final(self).skills,
                    active_skill_index: final(self).active_skill_index,
                    ..*old(self)
                })
            },
    {
        if skill_idx >= 3 {
            return false;
        }
        if self.skills[skill_idx].is_purchased() {
            return false;
        }
        let cost = self.def.skills[skill_idx].purchase_cost;
        if *gold < cost {
            return false;
        }
        *gold = *gold - cost;
        let runtime_state = SkillState::create_runtime_state(&self.def.skills[skill_idx]);
        proof {
            lemma_fresh_runtime_levels_zero(runtime_state, self.def.skills@[skill_idx as int]);
        }
        let has_active_skill = self.active_skill_index.is_some();
        if !has_active_skill {
            self.skills.set(skill_idx, SkillState::Active(runtime_state));
            self.active_skill_index = Some(skill_idx);
        } else {
            self.skills.set(skill_idx, SkillState::Purchased(runtime_state));
        }
        true
    }

    /// The price of an unowned slot.
    pub fn skill_purchase_cost(&self, skill_idx: usize) -> (r: Option<u32>)
        requires
            self.wf(),
        ensures
            r == if skill_idx < 3 && !self.skills@[skill_idx as int].spec_is_purchased() {
                Some(self.def.skills@[skill_idx as int].purchase_cost)
            } else {
                None::<u32>
            },
    {
        if skill_idx >= 3 || self.skills[skill_idx].is_purchased() {
            return None;
        }
        Some(self.def.skills[skill_idx].purchase_cost)
    }

    /// Select a purchased slot: the previous Active slot (if another)
    /// falls back to Purchased, so at most one slot is ever Active.
    pub fn activate_skill(&mut self, skill_idx: usize) -> (r: bool)
        requires
            old(self).wf(),
        ensures
            final(self).wf(),
            skill_idx >= 3 ==> !r && *final(self) == *old(self),
            skill_idx < 3 && !old(self).skills@[skill_idx as int].spec_is_purchased() ==> !r
                && *final(self) == *old(self),
            skill_idx < 3 && old(self).skills@[skill_idx as int] is Active ==> r && *final(self)
                == *old(self),
            skill_idx < 3 && old(self).skills@[skill_idx as int] is Purchased ==> {
                &&& r
                &&& final(self).active_skill_index == Some(skill_idx)
                &&& final(self).skills@.len() == 3
                &&& final(self).skills@[skill_idx as int] == SkillState::Active(
                    old(self).skills@[skill_idx as int].spec_runtime().unwrap(),
                )
                &&& forall|j: int|
                    0 <= j < 3 && j != skill_idx ==> #[trigger] final(self).skills@[j] == if old(self).skills@[j] is Active {
                        SkillState::Purchased(old(self).skills@[j].spec_runtime().unwrap())
                    } else {
                        old(self).skills@[j]
                    }
                &&& *final(self) == (Tower {
                    skills: final(self).skills,
                    active_skill_index: final(self).active_skill_index,
                    ..*old(self)
                })
            },
    {
        if skill_idx >= 3 {
            return false;
        }
        if !self.skills[skill_idx].is_purchased() {
            return false;
        }
        if self.skills[skill_idx].is_active() {
            return true;
        }
        match self.active_skill_index {
            Some(current_idx) => {
                if current_idx != skill_idx && current_idx < 3 {
                    let mut taken = SkillState::Locked;
                    self.skills.set_and_swap(current_idx, &mut taken);
                    match taken {
                        SkillState::Active(rt) => {
                            self.skills.set(current_idx, SkillState::Purchased(rt));
                        },
                        other => {
                            let mut put_back = other;
                            self.skills.set_and_swap(current_idx, &mut put_back);
                        },
                    }
                }
            },
            None => {},
        }
        let mut taken = SkillState::Locked;
        self.skills.set_and_swap(skill_idx, &mut taken);
        match taken {
            SkillState::Purchased(rt) => {
                self.skills.set(skill_idx, SkillState::Active(rt));
            },
            other => {
                let mut put_back = other;
                self.skills.set_and_swap(skill_idx, &mut put_back);
            },
        }
        self.active_skill_index = Some(skill_idx);
        true
    }

    /// Sale refund: half of the base cost plus every purchased slot's
    /// price, rounded down.
    pub open spec fn spec_sell_value(self) -> int {
        let c0: int = if self.skills@[0].spec_is_purchased() {
            self.def.skills@[0].purchase_cost as int
        } else {
            0
        };
        let c1: int = if self.skills@[1].spec_is_purchased() {
            self.def.skills@[1].purchase_cost as int
        } else {
            0
        };
        let c2: int = if self.skills@[2].spec_is_purchased() {
            self.def.skills@[2].purchase_cost as int
        } else {
            0
        };
        (self.base_cost + c0 + c1 + c2) / 2
    }

    pub fn sell_value(&self) -> (r: u32)
        requires
            self.wf(),
        ensures
            r == self.spec_sell_value(),
    {
        let mut total_cost: u32 = self.base_cost;
        if self.skills[0].is_purchased() {
            total_cost = total_cost + self.def.skills[0].purchase_cost;
        }
        if self.skills[1].is_purchased() {
            total_cost = total_cost + self.def.skills[1].purchase_cost;
        }
        if self.skills[2].is_purchased() {
            total_cost = total_cost + self.def.skills[2].purchase_cost;
        }
        total_cost / 2
    }

    // --- Upgrades ---

    /// The property a command addresses inside one skill's runtime state.
    pub open spec fn upgrade_prop_of(rt: SkillRuntimeState, id: SkillUpgradeId) -> Option<
        UpgradeableProp,
    > {
        match id {
            SkillUpgradeId::Range => match rt.range {
                Some(Property::Upgradable(p)) => Some(p),
                _ => None,
            },
            SkillUpgradeId::AttackSpeed => match rt.attack_speed {
                Some(Property::Upgradable(p)) => Some(p),
                _ => None,
            },
            SkillUpgradeId::Action { action_idx, upgrade_idx } => {
                if action_idx < rt.action_states@.len() && upgrade_idx
                    < rt.action_states@[action_idx as int].upgrades@.len() {
                    Some(rt.action_states@[action_idx as int].upgrades@[upgrade_idx as int])
                } else {
                    None
                }
            },
        }
    }

    /// Does the command address an upgradeable property with room left?
    pub open spec fn upgrade_applicable(self, skill_idx: usize, id: SkillUpgradeId) -> bool {
        &&& skill_idx < 3
        &&& match self.skills@[skill_idx as int].spec_runtime() {
            Some(rt) => match Self::upgrade_prop_of(rt, id) {
                Some(p) => p.current_level < p.max_level,
                None => false,
            },
            None => false,
        }
    }

    /// Cost of the addressed upgrade at its current level, when it can
    /// still be taken.
    pub fn skill_upgrade_cost(&self, skill_idx: usize, upgrade_id: SkillUpgradeId) -> (r: Option<
        u32,
    >)
        requires
            self.wf(),
        ensures
            r is Some <==> self.upgrade_applicable(skill_idx, upgrade_id),
            match r {
                Some(c) => c == Self::upgrade_prop_of(
                    self.skills@[skill_idx as int].spec_runtime().unwrap(),
                    upgrade_id,
                ).unwrap().spec_cost(),
                None => true,
            },
    {
        if skill_idx >= 3 {
            return None;
        }
        let rt = match self.skills[skill_idx].runtime_state() {
            Some(rt) => rt,
            None => {
                return None;
            },
        };
        match upgrade_id {
            SkillUpgradeId::Range => match &rt.range {
                Some(Property::Upgradable(p)) => {
                    if p.can_upgrade() {
                        Some(p.cost())
                    } else {
                        None
                    }
                },
                _ => None,
            },
            SkillUpgradeId::AttackSpeed => match &rt.attack_speed {
                Some(Property::Upgradable(p)) => {
                    if p.can_upgrade() {
                        Some(p.cost())
                    } else {
                        None
                    }
                },
                _ => None,
            },
            SkillUpgradeId::Action { action_idx, upgrade_idx } => {
                if action_idx < rt.action_states.len() {
                    let st = &rt.action_states[action_idx];
                    if upgrade_idx < st.upgrades.len() {
                        let p = &st.upgrades[upgrade_idx];
                        if p.can_upgrade() {
                            Some(p.cost())
                        } else {
                            None
                        }
                    } else {
                        None
                    }
                } else {
                    None
                }
            },
        }
    }

    /// Cost of an upgrade on the active skill.
    pub fn upgrade_cost(&self, upgrade_id: SkillUpgradeId) -> (r: Option<u32>)
        requires
            self.wf(),
        ensures
            match self.active_skill_index {
                Some(i) => r is Some <==> self.upgrade_applicable(i, upgrade_id),
                None => r is None,
            },
    {
        match self.active_skill_index {
            Some(i) => self.skill_upgrade_cost(i, upgrade_id),
            None => None,
        }
    }

    /// Alias taking the slot explicitly.
    pub fn upgrade_cost_for_skill(&self, skill_idx: usize, upgrade_id: SkillUpgradeId) -> (r:
        Option<u32>)
        requires
            self.wf(),
        ensures
            r is Some <==> self.upgrade_applicable(skill_idx, upgrade_id),
            match r {
                Some(c) => c == Self::upgrade_prop_of(
                    self.skills@[skill_idx as int].spec_runtime().unwrap(),
                    upgrade_id,
                ).unwrap().spec_cost(),
                None => true,
            },
    {
        self.skill_upgrade_cost(skill_idx, upgrade_id)
    }

    /// Raise the addressed property of one skill by a level. A missing or
    /// maxed property rejects the upgrade with no change, so a level never
    /// leaves `[0, max_level]`.
    pub fn apply_upgrade_to_skill(&mut self, skill_idx: usize, upgrade_id: SkillUpgradeId) -> (r:
        bool)
        requires
            old(self).wf(),
        ensures
            final(self).wf(),
            r == old(self).upgrade_applicable(skill_idx, upgrade_id),
            !r ==> final(self).skills@ == old(self).skills@ && *final(self) == (Tower {
                skills: final(self).skills,
                ..*old(self)
            }),
            r ==> {
                &&& final(self).skills@.len() == 3
                &&& forall|j: int|
                    0 <= j < 3 && j != skill_idx ==> #[trigger] final(self).skills@[j] == old(
                        self,
                    ).skills@[j]
                &&& final(self).skills@[skill_idx as int].spec_runtime() is Some
                &&& ({
                    let rt_old = old(self).skills@[skill_idx as int].spec_runtime().unwrap();
                    let rt_new = final(self).skills@[skill_idx as int].spec_runtime().unwrap();
                    let p_old = Self::upgrade_prop_of(rt_old, upgrade_id).unwrap();
                    let p_new = Self::upgrade_prop_of(rt_new, upgrade_id).unwrap();
                    &&& p_new == (UpgradeableProp {
                        current_level: (p_old.current_level + 1) as u32,
                        ..p_old
                    })
                    &&& p_new.current_level <= p_new.max_level
                    &&& final(self).skills@[skill_idx as int] is Active == old(
                        self,
                    ).skills@[skill_idx as int] is Active
                })
                &&& *final(self) == (Tower { skills: final(self).skills, ..*old(self) })
            },
    {
        if skill_idx >= 3 {
            return false;
        }
        let applied: bool;
        {
            let slot = vstd::std_specs::vec::vec_index_mut(&mut self.skills, skill_idx);
            match slot {
                SkillState::Locked => {
                    applied = false;
                },
                SkillState::Purchased(rt) => {
                    applied = Self::upgrade_runtime(rt, upgrade_id);
                },
                SkillState::Active(rt) => {
                    applied = Self::upgrade_runtime(rt, upgrade_id);
                },
            }
        }
        proof {
            if !applied {
                assert(self.skills@ =~= old(self).skills@);
            }
        }
        applied
    }

    /// Is the addressed property present with room to grow?
    fn runtime_upgrade_applicable(rt: &SkillRuntimeState, upgrade_id: SkillUpgradeId) -> (r: bool)
        ensures
            r == match Self::upgrade_prop_of(*rt, upgrade_id) {
                Some(p) => p.current_level < p.max_level,
                None => false,
            },
    {
        match upgrade_id {
            SkillUpgradeId::Range => match &rt.range {
                Some(Property::Upgradable(p)) => p.current_level < p.max_level,
                _ => false,
            },
            SkillUpgradeId::AttackSpeed => match &rt.attack_speed {
                Some(Property::Upgradable(p)) => p.current_level < p.max_level,
                _ => false,
            },
            SkillUpgradeId::Action { action_idx, upgrade_idx } => {
                if action_idx < rt.action_states.len() {
                    let st = &rt.action_states[action_idx];
                    if upgrade_idx < st.upgrades.len() {
                        let p = &st.upgrades[upgrade_idx];
                        p.current_level < p.max_level
                    } else {
                        false
                    }
                } else {
                    false
                }
            },
        }
    }

    /// Raise the addressed property inside one runtime state.
    fn upgrade_runtime(rt: &mut SkillRuntimeState, upgrade_id: SkillUpgradeId) -> (r: bool)
        ensures
            r == match Self::upgrade_prop_of(*old(rt), upgrade_id) {
                Some(p) => p.current_level < p.max_level,
                None => false,
            },
            !r ==> *final(rt) == *old(rt),
            r ==> {
                let p_old = Self::upgrade_prop_of(*old(rt), upgrade_id).unwrap();
                let p_new = Self::upgrade_prop_of(*final(rt), upgrade_id).unwrap();
                &&& Self::upgrade_prop_of(*final(rt), upgrade_id) is Some
                &&& p_new == (UpgradeableProp {
                    current_level: (p_old.current_level + 1) as u32,
                    ..p_old
                })
                &&& final(rt).action_states@.len() == old(rt).action_states@.len()
                &&& match upgrade_id {
                    SkillUpgradeId::Range => *final(rt) == (SkillRuntimeState {
                        range: Some(Property::Upgradable(p_new)),
                        ..*old(rt)
                    }),
                    SkillUpgradeId::AttackSpeed => *final(rt) == (SkillRuntimeState {
                        attack_speed: Some(Property::Upgradable(p_new)),
                        ..*old(rt)
                    }),
                    SkillUpgradeId::Action { action_idx, upgrade_idx } => {
                        &&& final(rt).range == old(rt).range
                        &&& final(rt).attack_speed == old(rt).attack_speed
                        &&& forall|x: int|
                            0 <= x < old(rt).action_states@.len() && x != action_idx
                                ==> #[trigger] final(rt).action_states@[x] == old(
                                rt,
                            ).action_states@[x]
                        &&& final(rt).action_states@[action_idx as int].action_index == old(
                            rt,
                        ).action_states@[action_idx as int].action_index
                        &&& final(rt).action_states@[action_idx as int].upgrades@ == old(
                            rt,
                        ).action_states@[action_idx as int].upgrades@.update(
                            upgrade_idx as int,
                            p_new,
                        )
                    },
                }
            },
    {
        if !Self::runtime_upgrade_applicable(rt, upgrade_id) {
            return false;
        }
        match upgrade_id {
            SkillUpgradeId::Range => {
                match &mut rt.range {
                    Some(Property::Upgradable(p)) => {
                        p.current_level = p.current_level + 1;
                    },
                    _ => {
                        proof {
                            assert(false);
                        }
                    },
                }
            },
            SkillUpgradeId::AttackSpeed => {
                match &mut rt.attack_speed {
                    Some(Property::Upgradable(p)) => {
                        p.current_level = p.current_level + 1;
                    },
                    _ => {
                        proof {
                            assert(false);
                        }
                    },
                }
            },
            SkillUpgradeId::Action { action_idx, upgrade_idx } => {
                let st = vstd::std_specs::vec::vec_index_mut(&mut rt.action_states, action_idx);
                let p = vstd::std_specs::vec::vec_index_mut(&mut st.upgrades, upgrade_idx);
                p.current_level = p.current_level + 1;
            },
        }
        true
    }

    /// Raise the addressed property of the active skill by a level.
    pub fn apply_skill_upgrade(&mut self, upgrade_id: SkillUpgradeId) -> (r: bool)
        requires
            old(self).wf(),
        ensures
            final(self).wf(),
            old(self).active_skill_index is None ==> !r && *final(self) == *old(self),
            match old(self).active_skill_index {
                Some(i) => r == old(self).upgrade_applicable(i, upgrade_id),
                None => !r,
            },
    {
        match self.active_skill_index {
            Some(i) => self.apply_upgrade_to_skill(i, upgrade_id),
            None => false,
        }
    }

    /// Cycle to the next targeting priority.
    pub fn cycle_target_priority(&mut self)
        ensures
            final(self).target_priority == old(self).target_priority.spec_next(),
            *final(self) == (Tower { target_priority: final(self).target_priority, ..*old(self) }),
    {
        self.target_priority = self.target_priority.next();
    }

    // --- Combat properties of the active skill ---

    pub open spec fn spec_attack_range(self) -> int {
        match self.active_skill_index {
            Some(i) => match self.skills@[i as int].spec_runtime() {
                Some(rt) => match rt.range {
                    Some(p) => p.spec_value(),
                    None => 0,
                },
                None => 0,
            },
            None => 0,
        }
    }

    pub open spec fn spec_attack_speed(self) -> int {
        match self.active_skill_index {
            Some(i) => match self.skills@[i as int].spec_runtime() {
                Some(rt) => match rt.attack_speed {
                    Some(p) => p.spec_value(),
                    None => 0,
                },
                None => 0,
            },
            None => 0,
        }
    }

    /// Range of the active skill; zero without one.
    pub fn attack_range(&self) -> (r: i64)
        requires
            self.wf(),
        ensures
            r == self.spec_attack_range(),
            0 <= r <= COORD_LIMIT,
    {
        match self.active_skill_index {
            Some(i) => {
                proof {
                    let rt = self.skills@[i as int].spec_runtime().unwrap();
                    lemma_matched_property(rt.range, self.def.skills@[i as int].range, COORD_LIMIT as int);
                }
                match self.skills[i].runtime_state() {
                    Some(rt) => match &rt.range {
                        Some(p) => p.value(),
                        None => 0,
                    },
                    None => 0,
                }
            },
            None => 0,
        }
    }

    /// Attack rate of the active skill, in milli-attacks per second; zero
    /// without one, positive with one.
    pub fn attack_speed_value(&self) -> (r: i64)
        requires
            self.wf(),
        ensures
            r == self.spec_attack_speed(),
            0 <= r <= RATE_LIMIT,
            match self.active_skill_index {
                Some(i) => match self.skills@[i as int].spec_runtime() {
                    Some(rt) => rt.attack_speed is Some ==> r > 0,
                    None => true,
                },
                None => true,
            },
    {
        match self.active_skill_index {
            Some(i) => {
                proof {
                    let rt = self.skills@[i as int].spec_runtime().unwrap();
                    lemma_matched_property(
                        rt.attack_speed,
                        self.def.skills@[i as int].attack_speed,
                        RATE_LIMIT as int,
                    );
                    match rt.attack_speed {
                        Some(p) => {
                            crate::defs::lemma_property_min(p);
                        },
                        None => {},
                    }
                }
                match self.skills[i].runtime_state() {
                    Some(rt) => match &rt.attack_speed {
                        Some(p) => p.value(),
                        None => 0,
                    },
                    None => 0,
                }
            },
            None => 0,
        }
    }

    /// Visual size of the active skill's projectiles.
    pub fn projectile_size(&self) -> (r: i64)
        requires
            self.wf(),
        ensures
            r == match self.active_skill_index {
                Some(i) => self.def.skills@[i as int].projectile_size as int,
                None => 4000int,
            },
            0 <= r <= COORD_LIMIT,
    {
        match self.active_skill_index {
            Some(i) => self.def.skills[i].projectile_size,
            None => 4000,
        }
    }

    /// Can the tower fire at all: the active skill has range and rate.
    pub fn can_attack(&self) -> (r: bool)
        requires
            self.wf(),
        ensures
            r == (self.spec_attack_range() > 0 && self.spec_attack_speed() > 0),
    {
        self.attack_range() > 0 && self.attack_speed_value() > 0
    }

    /// Does the active skill expose the targeting-priority toggle?
    pub fn can_change_target(&self) -> (r: bool)
        requires
            self.wf(),
        ensures
            r == match self.active_skill_index {
                Some(i) => self.def.skills@[i as int].can_change_target,
                None => false,
            },
    {
        match self.active_skill_index {
            Some(i) => self.def.skills[i].can_change_target,
            None => false,
        }
    }

    /// Actions of the active skill, resolved against its current levels.
    /// Recomputed on every call, never cached.
    pub fn resolved_actions(&self) -> (r: Vec<ResolvedAction>)
        requires
            self.wf(),
        ensures
            r@ == spec_resolved_actions(*self),
            forall|j: int| 0 <= j < r@.len() ==> resolved_ok(#[trigger] r@[j]),
    {
        match self.active_skill_index {
            Some(i) => {
                match self.skills[i].runtime_state() {
                    Some(rt) => resolve_skill(&self.def.skills[i], rt),
                    None => Vec::new(),
                }
            },
            None => Vec::new(),
        }
    }

    /// Actions of every purchased passive skill, resolved against their
    /// current levels, whether or not the slot is the active one.
    pub fn passive_effects(&self) -> (r: Vec<ResolvedAction>)
        requires
            self.wf(),
        ensures
            r@ == spec_passive_effects(*self),
            forall|j: int| 0 <= j < r@.len() ==> resolved_ok(#[trigger] r@[j]),
    {
        let mut out: Vec<ResolvedAction> = Vec::new();
        let mut idx: usize = 0;
        while idx < 3
            invariant
                self.wf(),
                0 <= idx <= 3,
                out@ == spec_passive_prefix(*self, idx as int),
                forall|j: int| 0 <= j < out@.len() ==> resolved_ok(#[trigger] out@[j]),
            decreases 3 - idx,
        {
            if matches!(self.def.skills[idx].skill_type, SkillType::Passive) {
                match self.skills[idx].runtime_state() {
                    Some(rt) => {
                        let mut resolved = resolve_skill(&self.def.skills[idx], rt);
                        proof {
                            assert(out@ + resolved@ =~= spec_passive_prefix(*self, idx as int + 1));
                        }
                        out.append(&mut resolved);
                    },
                    None => {},
                }
            }
            proof {
                assert(out@ =~= spec_passive_prefix(*self, idx as int + 1));
            }
            idx = idx + 1;
        }
        out
    }

    /// Total level shown in the interface: one, plus one per purchased
    /// skill, plus every upgrade level bought.
    pub fn level(&self) -> (r: u32)
        requires
            self.wf(),
        ensures
            r >= 1,
    {
        let mut level: u32 = 1;
        let mut idx: usize = 0;
        while idx < 3
            invariant
                self.wf(),
                level >= 1,
                0 <= idx <= 3,
            decreases 3 - idx,
        {
            match self.skills[idx].runtime_state() {
                Some(rt) => {
                    level = u32_add(level, 1);
                    match &rt.range {
                        Some(Property::Upgradable(p)) => {
                            level = u32_add(level, p.current_level);
                        },
                        _ => {},
                    }
                    match &rt.attack_speed {
                        Some(Property::Upgradable(p)) => {
                            level = u32_add(level, p.current_level);
                        },
                        _ => {},
                    }
                    let mut j: usize = 0;
                    while j < rt.action_states.len()
                        invariant
                            level >= 1,
                            0 <= j <= rt.action_states@.len(),
                        decreases rt.action_states@.len() - j,
                    {
                        let st = &rt.action_states[j];
                        let mut k: usize = 0;
                        while k < st.upgrades.len()
                            invariant
                                level >= 1,
                                0 <= k <= st.upgrades@.len(),
                            decreases st.upgrades@.len() - k,
                        {
                            level = u32_add(level, st.upgrades[k].current_level);
                            k = k + 1;
                        }
                        j = j + 1;
                    }
                },
                None => {},
            }
            idx = idx + 1;
        }
        level
    }

    /// The standing aura zones this tower projects, for the display: each
    /// zone's radius with its hue, saturation and lightness in per-mille.
    /// Covers the active skill's auras and every purchased passive one.
    pub fn active_aura_zones(&self) -> (r: Vec<(i64, (i64, i64, i64))>)
        requires
            self.wf(),
        ensures
            r@ == aura_zones_of(spec_resolved_actions(*self), spec_element_color(self.element))
                + aura_zones_of(spec_passive_effects(*self), spec_element_color(self.element)),
            forall|i: int| 0 <= i < r@.len() ==> 0 <= (#[trigger] r@[i]).0 <= COORD_LIMIT,
    {
        let base_color: (i64, i64, i64) = match self.element {
            TowerElement::Neutral => (0, 0, 700),
            TowerElement::Fire => (20, 900, 550),
            TowerElement::Water => (580, 800, 550),
            TowerElement::Electric => (140, 900, 600),
            TowerElement::Earth => (80, 600, 400),
        };
        let mut zones: Vec<(i64, (i64, i64, i64))> = Vec::new();
        let active = self.resolved_actions();
        push_aura_zones(&mut zones, &active, base_color);
        let passive = self.passive_effects();
        push_aura_zones(&mut zones, &passive, base_color);
        proof {
            assert(Seq::<(i64, (i64, i64, i64))>::empty() + aura_zones_of(
                active@,
                base_color,
            ) =~= aura_zones_of(active@, base_color));
        }
        zones
    }

    /// The upgrades one skill offers, with their live properties.
    pub fn get_skill_upgrades(&self, skill_idx: usize) -> (r: Vec<
        (SkillUpgradeId, &'static str, UpgradeableProp),
    >)
        requires
            self.wf(),
    {
        if skill_idx >= 3 {
            return Vec::new();
        }
        let rt = match self.skills[skill_idx].runtime_state() {
            Some(rt) => rt,
            None => {
                return Vec::new();
            },
        };
        let mut result: Vec<(SkillUpgradeId, &'static str, UpgradeableProp)> = Vec::new();
        match &rt.range {
            Some(Property::Upgradable(p)) => {
                if p.max_level > 0 {
                    result.push((SkillUpgradeId::Range, "Portee", *p));
                }
            },
            _ => {},
        }
        match &rt.attack_speed {
            Some(Property::Upgradable(p)) => {
                if p.max_level > 0 {
                    result.push((SkillUpgradeId::AttackSpeed, "Vitesse", *p));
                }
            },
            _ => {},
        }
        let skill_def = &self.def.skills[skill_idx];
        let mut j: usize = 0;
        while j < rt.action_states.len()
            invariant
                self.wf(),
                skill_idx < 3,
                self.skills@[skill_idx as int].spec_runtime() == Some(*rt),
                skill_def == &self.def.skills@[skill_idx as int],
                0 <= j <= rt.action_states@.len(),
            decreases rt.action_states@.len() - j,
        {
            let st = &rt.action_states[j];
            proof {
                assert(rt.action_states@.len() == skill_def.actions@.len());
                assert(st.upgrades@.len() == skill_def.actions@[j as int].upgrades@.len());
            }
            let action_def = &skill_def.actions[j];
            let mut k: usize = 0;
            while k < st.upgrades.len()
                invariant
                    st.upgrades@.len() == action_def.upgrades@.len(),
                    0 <= k <= st.upgrades@.len(),
                decreases st.upgrades@.len() - k,
            {
                result.push(
                    (
                        SkillUpgradeId::Action { action_idx: j, upgrade_idx: k },
                        action_def.upgrades[k].name,
                        st.upgrades[k],
                    ),
                );
                k = k + 1;
            }
            j = j + 1;
        }
        result
    }

    /// The upgrades of the active skill.
    pub fn get_active_skill_upgrades(&self) -> (r: Vec<
        (SkillUpgradeId, &'static str, UpgradeableProp),
    >)
        requires
            self.wf(),
    {
        match self.active_skill_index {
            Some(i) => self.get_skill_upgrades(i),
            None => Vec::new(),
        }
    }

    /// Upgrades of every purchased skill, grouped by slot: (slot, skill
    /// name, is the active one, its upgrades).
    pub fn get_all_purchased_skill_upgrades(&self) -> (r: Vec<
        (usize, &'static str, bool, Vec<(SkillUpgradeId, &'static str, UpgradeableProp)>),
    >)
        requires
            self.wf(),
    {
        let mut result: Vec<
            (usize, &'static str, bool, Vec<(SkillUpgradeId, &'static str, UpgradeableProp)>),
        > = Vec::new();
        let mut idx: usize = 0;
        while idx < 3
            invariant
                self.wf(),
                0 <= idx <= 3,
            decreases 3 - idx,
        {
            if self.skills[idx].is_purchased() {
                let is_active = self.skills[idx].is_active();
                let ups = self.get_skill_upgrades(idx);
                result.push((idx, self.def.skills[idx].name, is_active, ups));
            }
            idx = idx + 1;
        }
        result
    }
}

/// The display zones a resolved action list yields: one entry per
/// aura-shaped action, its radius paired with that aura's color.
pub open spec fn aura_zones_of(
    actions: Seq<ResolvedAction>,
    base_color: (i64, i64, i64),
) -> Seq<(i64, (i64, i64, i64))>
    decreases actions.len(),
{
    if actions.len() == 0 {
        Seq::empty()
    } else {
        let rest = aura_zones_of(actions.drop_last(), base_color);
        match actions.last() {
            ResolvedAction::AuraEffect { radius, .. } => rest.push((radius, base_color)),
            ResolvedAction::ColdAura { radius, .. } => rest.push((radius, (550, 700, 600))),
            ResolvedAction::Glaciation { radius, .. } => rest.push((radius, (520, 800, 500))),
            ResolvedAction::ConditionalDamage { radius, .. } => rest.push((radius, (750, 600, 400))),
            ResolvedAction::LifeSteal { radius, .. } => rest.push((radius, (0, 700, 300))),
            ResolvedAction::PassiveBurnAura { radius, .. } => rest.push((radius, (50, 900, 500))),
            _ => rest,
        }
    }
}

/// The base zone color of each element, as hue, saturation and lightness
/// in per-mille.
pub open spec fn spec_element_color(e: TowerElement) -> (i64, i64, i64) {
    match e {
        TowerElement::Neutral => (0, 0, 700),
        TowerElement::Fire => (20, 900, 550),
        TowerElement::Water => (580, 800, 550),
        TowerElement::Electric => (140, 900, 600),
        TowerElement::Earth => (80, 600, 400),
    }
}

/// Collect the aura-shaped actions of one resolved list as display zones.
fn push_aura_zones(
    zones: &mut Vec<(i64, (i64, i64, i64))>,
    actions: &Vec<ResolvedAction>,
    base_color: (i64, i64, i64),
)
    requires
        forall|i: int|
            0 <= i < old(zones)@.len() ==> 0 <= (#[trigger] old(zones)@[i]).0 <= COORD_LIMIT,
        forall|i: int| 0 <= i < actions@.len() ==> resolved_ok(#[trigger] actions@[i]),
    ensures
        final(zones)@ == old(zones)@ + aura_zones_of(actions@, base_color),
        forall|i: int| 0 <= i < final(zones)@.len() ==> 0 <= (#[trigger] final(zones)@[i]).0 <= COORD_LIMIT,
{
    proof {
        assert(aura_zones_of(actions@.take(0), base_color) =~= Seq::empty());
        assert(zones@ =~= zones@ + aura_zones_of(actions@.take(0), base_color));
    }
    let mut i: usize = 0;
    while i < actions.len()
        invariant
            forall|x: int|
                0 <= x < zones@.len() ==> 0 <= (#[trigger] zones@[x]).0 <= COORD_LIMIT,
            forall|x: int| 0 <= x < actions@.len() ==> resolved_ok(#[trigger] actions@[x]),
            0 <= i <= actions@.len(),
            zones@ == old(zones)@ + aura_zones_of(actions@.take(i as int), base_color),
        decreases actions@.len() - i,
    {
        proof {
            assert(actions@.take(i as int + 1).drop_last() =~= actions@.take(i as int));
            assert(actions@.take(i as int + 1).last() == actions@[i as int]);
        }
        match &actions[i] {
            ResolvedAction::AuraEffect { radius, .. } => {
                zones.push((*radius, base_color));
            },
            ResolvedAction::ColdAura { radius, .. } => {
                zones.push((*radius, (550, 700, 600)));
            },
            ResolvedAction::Glaciation { radius, .. } => {
                zones.push((*radius, (520, 800, 500)));
            },
            ResolvedAction::ConditionalDamage { radius, .. } => {
                zones.push((*radius, (750, 600, 400)));
            },
            ResolvedAction::LifeSteal { radius, .. } => {
                zones.push((*radius, (0, 700, 300)));
            },
            ResolvedAction::PassiveBurnAura { radius, .. } => {
                zones.push((*radius, (50, 900, 500)));
            },
            _ => {},
        }
        proof {
            assert(zones@ =~= old(zones)@ + aura_zones_of(
                actions@.take(i as int + 1),
                base_color,
            ));
        }
        i = i + 1;
    }
    proof {
        assert(actions@.take(actions@.len() as int) =~= actions@);
    }
}

/// The actions of one skill template resolved against one runtime state.
pub open spec fn skill_resolved(def: TowerSkillDef, rt: SkillRuntimeState) -> Seq<ResolvedAction> {
    Seq::new(
        def.actions@.len(),
        |j: int|
            spec_resolve_action(
                def.actions@[j].action,
                ups_with(def.actions@[j].upgrades@, rt.action_states@[j].upgrades@),
            ),
    )
}

/// What `resolved_actions` returns: the active skill's actions resolved,
/// or nothing without an active skill.
pub open spec fn spec_resolved_actions(t: Tower) -> Seq<ResolvedAction> {
    match t.active_skill_index {
        Some(i) => match t.skills@[i as int].spec_runtime() {
            Some(rt) => skill_resolved(t.def.skills@[i as int], rt),
            None => Seq::empty(),
        },
        None => Seq::empty(),
    }
}

/// The passive effects of the first `n` slots.
pub open spec fn spec_passive_prefix(t: Tower, n: int) -> Seq<ResolvedAction>
    decreases n,
{
    if n <= 0 {
        Seq::empty()
    } else {
        spec_passive_prefix(t, n - 1) + if t.def.skills@[n - 1].skill_type == SkillType::Passive {
            match t.skills@[n - 1].spec_runtime() {
                Some(rt) => skill_resolved(t.def.skills@[n - 1], rt),
                None => Seq::empty(),
            }
        } else {
            Seq::empty()
        }
    }
}

/// What `passive_effects` returns: every purchased passive slot's actions
/// resolved, in slot order.
pub open spec fn spec_passive_effects(t: Tower) -> Seq<ResolvedAction> {
    spec_passive_prefix(t, 3)
}

/// Resolve every action of one skill against its runtime levels.
fn resolve_skill(def_skill: &TowerSkillDef, rt: &SkillRuntimeState) -> (r: Vec<ResolvedAction>)
    requires
        def_skill.wf(),
        runtime_matches(*rt, *def_skill),
    ensures
        r@ == skill_resolved(*def_skill, *rt),
        forall|j: int| 0 <= j < r@.len() ==> resolved_ok(#[trigger] r@[j]),
{
    let mut out: Vec<ResolvedAction> = Vec::new();
    let mut j: usize = 0;
    while j < def_skill.actions.len()
        invariant
            def_skill.wf(),
            runtime_matches(*rt, *def_skill),
            0 <= j <= def_skill.actions@.len(),
            out@.len() == j,
            forall|x: int| 0 <= x < j ==> #[trigger] out@[x] == skill_resolved(*def_skill, *rt)[x],
            forall|x: int| 0 <= x < j ==> resolved_ok(#[trigger] out@[x]),
        decreases def_skill.actions@.len() - j,
    {
        let action_def = &def_skill.actions[j];
        let props = &rt.action_states[j].upgrades;
        let mut ups: Vec<ActionUpgrade> = Vec::new();
        let mut k: usize = 0;
        proof {
            assert(action_def.wf());
            assert(props@.len() == action_def.upgrades@.len());
        }
        while k < props.len()
            invariant
                props@.len() == action_def.upgrades@.len(),
                0 <= k <= props@.len(),
                ups@.len() == k,
                forall|y: int|
                    0 <= y < k ==> #[trigger] ups@[y] == ups_with(
                        action_def.upgrades@,
                        props@,
                    )[y],
            decreases props@.len() - k,
        {
            ups.push(
                ActionUpgrade {
                    name: action_def.upgrades[k].name,
                    prop: props[k],
                    applies_to: action_def.upgrades[k].applies_to,
                },
            );
            k = k + 1;
        }
        proof {
            assert(ups@ =~= ups_with(action_def.upgrades@, props@));
            lemma_ups_with_wf(action_def.action, action_def.upgrades@, props@);
        }
        let temp = TowerActionDef { action: action_def.action, upgrades: ups };
        let resolved = temp.resolve();
        out.push(resolved);
        j = j + 1;
    }
    proof {
        assert(out@ =~= skill_resolved(*def_skill, *rt));
    }
    out
}

} // verus!
