//! A meta-progression skill graph: nodes with costs and prerequisites,
//! unlocked one by one.

use vstd::prelude::*;

use crate::elemental::TowerElement;

verus! {

/// What an unlocked node grants; numeric bonuses are fixed-point.
#[derive(Clone, Copy, PartialEq, Eq, Structural, Debug)]
pub enum SkillEffect {
    DamageBonus(i64),
    RangeBonus(i64),
    AttackSpeedBonus(i64),
    AoEUnlock,
    AoERadiusBonus(i64),
    ElementChange(TowerElement),
    SlowOnHit(i64),
    CritChance(i64),
    CritDamage(i64),
    GoldBonus(i64),
    ChainLightning(u32),
    LifeSteal(i64),
}

#[derive(Clone, Debug)]
pub struct SkillNode {
    pub id: usize,
    pub name: String,
    pub description: String,
    pub effect: SkillEffect,
    pub cost: u32,
    pub unlocked: bool,
    pub prerequisites: Vec<usize>,
}

#[derive(Clone, Debug)]
pub struct SkillTree {
    pub nodes: Vec<SkillNode>,
}

/// Every prerequisite of the node names an unlocked node.
pub open spec fn prereqs_met(nodes: Seq<SkillNode>, node: SkillNode) -> bool {
    forall|k: int|
        0 <= k < node.prerequisites@.len() ==> (#[trigger] node.prerequisites@[k])
            < nodes.len() && nodes[node.prerequisites@[k] as int].unlocked
}

impl SkillTree {
    pub fn new() -> (r: SkillTree)
        ensures
            r.nodes@.len() == 0,
    {
        SkillTree { nodes: Vec::new() }
    }

    /// May this node be unlocked: it exists, is still locked, the gold
    /// covers its cost, and every prerequisite is already unlocked.
    pub fn can_unlock(&self, node_id: usize, gold: u32) -> (r: bool)
        ensures
            r == (node_id < self.nodes@.len() && !self.nodes@[node_id as int].unlocked && gold
                >= self.nodes@[node_id as int].cost && prereqs_met(
                self.nodes@,
                self.nodes@[node_id as int],
            )),
    {
        if node_id >= self.nodes.len() {
            return false;
        }
        let node = &self.nodes[node_id];
        if node.unlocked {
            return false;
        }
        if gold < node.cost {
            return false;
        }
        let mut k: usize = 0;
        while k < node.prerequisites.len()
            invariant
                node_id < self.nodes@.len(),
                node == &self.nodes@[node_id as int],
                0 <= k <= node.prerequisites@.len(),
                forall|x: int|
                    0 <= x < k ==> (#[trigger] node.prerequisites@[x]) < self.nodes@.len()
                        && self.nodes@[node.prerequisites@[x] as int].unlocked,
            decreases node.prerequisites@.len() - k,
        {
            let prereq = node.prerequisites[k];
            if prereq >= self.nodes.len() {
                return false;
            }
            if !self.nodes[prereq].unlocked {
                return false;
            }
            k = k + 1;
        }
        true
    }

    /// Unlock a locked node, returning its effect; an unknown or already
    /// unlocked node is a no-op.
    pub fn unlock(&mut self, node_id: usize) -> (r: Option<SkillEffect>)
        ensures
            node_id >= old(self).nodes@.len() ==> r is None && final(self).nodes@ == old(self).nodes@,
            node_id < old(self).nodes@.len() && old(self).nodes@[node_id as int].unlocked ==> r
                is None && final(self).nodes@ == old(self).nodes@,
            node_id < old(self).nodes@.len() && !old(self).nodes@[node_id as int].unlocked ==> {
                &&& r == Some(old(self).nodes@[node_id as int].effect)
                &&& final(self).nodes@.len() == old(self).nodes@.len()
                &&& final(self).nodes@[node_id as int].unlocked
                &&& forall|j: int|
                    0 <= j < old(self).nodes@.len() && j != node_id ==> #[trigger] final(self).nodes@[j] == old(self).nodes@[j]
            },
    {
        if node_id >= self.nodes.len() {
            return None;
        }
        if self.nodes[node_id].unlocked {
            return None;
        }
        let effect = self.nodes[node_id].effect;
        let node = vstd::std_specs::vec::vec_index_mut(&mut self.nodes, node_id);
        node.unlocked = true;
        Some(effect)
    }
}

} // verus!
