//! Elements carried by towers and projectiles, and the reactions between
//! two different elements landing on the same enemy.

use vstd::prelude::*;

verus! {

#[derive(Clone, Copy, PartialEq, Eq, Structural, Debug)]
pub enum TowerElement {
    Neutral,
    Fire,
    Water,
    Electric,
    Earth,
}

impl TowerElement {
    pub fn name(&self) -> (r: &'static str) {
        match self {
            TowerElement::Neutral => "Neutre",
            TowerElement::Fire => "Feu",
            TowerElement::Water => "Eau",
            TowerElement::Electric => "Electrique",
            TowerElement::Earth => "Terre",
        }
    }
}

#[derive(Clone, Copy, PartialEq, Eq, Structural, Debug)]
pub enum ElementalReaction {
    Steam,
    Overload,
    Magma,
    Conductor,
    Erosion,
    Magnetic,
}

/// The reaction set off when elements `a` and `b` meet; symmetric in its
/// arguments, and empty when either is neutral or both are equal.
pub open spec fn spec_reaction(a: TowerElement, b: TowerElement) -> Option<ElementalReaction> {
    match (a, b) {
        (TowerElement::Fire, TowerElement::Water) => Some(ElementalReaction::Steam),
        (TowerElement::Water, TowerElement::Fire) => Some(ElementalReaction::Steam),
        (TowerElement::Fire, TowerElement::Electric) => Some(ElementalReaction::Overload),
        (TowerElement::Electric, TowerElement::Fire) => Some(ElementalReaction::Overload),
        (TowerElement::Fire, TowerElement::Earth) => Some(ElementalReaction::Magma),
        (TowerElement::Earth, TowerElement::Fire) => Some(ElementalReaction::Magma),
        (TowerElement::Water, TowerElement::Electric) => Some(ElementalReaction::Conductor),
        (TowerElement::Electric, TowerElement::Water) => Some(ElementalReaction::Conductor),
        (TowerElement::Water, TowerElement::Earth) => Some(ElementalReaction::Erosion),
        (TowerElement::Earth, TowerElement::Water) => Some(ElementalReaction::Erosion),
        (TowerElement::Electric, TowerElement::Earth) => Some(ElementalReaction::Magnetic),
        (TowerElement::Earth, TowerElement::Electric) => Some(ElementalReaction::Magnetic),
        _ => None,
    }
}

impl ElementalReaction {
    pub fn from_elements(a: TowerElement, b: TowerElement) -> (r: Option<ElementalReaction>)
        ensures
            r == spec_reaction(a, b),
    {
        match (a, b) {
            (TowerElement::Fire, TowerElement::Water)
            | (TowerElement::Water, TowerElement::Fire) => Some(ElementalReaction::Steam),
            (TowerElement::Fire, TowerElement::Electric)
            | (TowerElement::Electric, TowerElement::Fire) => Some(ElementalReaction::Overload),
            (TowerElement::Fire, TowerElement::Earth)
            | (TowerElement::Earth, TowerElement::Fire) => Some(ElementalReaction::Magma),
            (TowerElement::Water, TowerElement::Electric)
            | (TowerElement::Electric, TowerElement::Water) => Some(ElementalReaction::Conductor),
            (TowerElement::Water, TowerElement::Earth)
            | (TowerElement::Earth, TowerElement::Water) => Some(ElementalReaction::Erosion),
            (TowerElement::Electric, TowerElement::Earth)
            | (TowerElement::Earth, TowerElement::Electric) => Some(ElementalReaction::Magnetic),
            _ => None,
        }
    }
}

/// Lingering status effects an enemy can hold, at most one entry each.
#[derive(Clone, Copy, PartialEq, Eq, Structural, Debug)]
pub enum ElementalStateKind {
    /// Damage over time.
    Burned,
    /// Slowed movement; the stored strength is the speed multiplier.
    Soaked,
    /// A short stun on every damage instance taken while present.
    Seismic,
    /// Latent; does nothing until it meets Soaked.
    Cold,
    /// Full stun; blocks every new state while present.
    Frozen,
}

pub open spec fn spec_state_index(k: ElementalStateKind) -> int {
    match k {
        ElementalStateKind::Burned => 0,
        ElementalStateKind::Soaked => 1,
        ElementalStateKind::Seismic => 2,
        ElementalStateKind::Cold => 3,
        ElementalStateKind::Frozen => 4,
    }
}

impl ElementalStateKind {
    /// Slot of this kind in the per-enemy reapplication cooldown array.
    pub fn index(&self) -> (r: usize)
        ensures
            r == spec_state_index(*self),
            r < 5,
    {
        match self {
            ElementalStateKind::Burned => 0,
            ElementalStateKind::Soaked => 1,
            ElementalStateKind::Seismic => 2,
            ElementalStateKind::Cold => 3,
            ElementalStateKind::Frozen => 4,
        }
    }
}

} // verus!
