//! Base stats per enemy archetype, before wave scaling.

use vstd::prelude::*;

use crate::enemy::EnemyShape;

verus! {

#[derive(Clone, Copy, Debug)]
pub struct EnemyPreset {
    pub shape: EnemyShape,
    pub name: &'static str,
    pub base_hp: i64,
    pub base_speed: i64,
    pub base_damage: i64,
    pub attack_range: i64,
    pub attack_speed: i64,
    pub gold_value: u32,
    pub radius: i64,
}

pub open spec fn spec_preset(shape: EnemyShape) -> EnemyPreset {
    match shape {
        EnemyShape::Triangle => EnemyPreset {
            shape: EnemyShape::Triangle,
            name: "Eclaireur",
            base_hp: 15_000,
            base_speed: 140_000,
            base_damage: 4_000,
            attack_range: 40_000,
            attack_speed: 900,
            gold_value: 5,
            radius: 10_000,
        },
        EnemyShape::Square => EnemyPreset {
            shape: EnemyShape::Square,
            name: "Soldat",
            base_hp: 35_000,
            base_speed: 80_000,
            base_damage: 8_000,
            attack_range: 50_000,
            attack_speed: 700,
            gold_value: 10,
            radius: 13_000,
        },
        EnemyShape::Pentagon => EnemyPreset {
            shape: EnemyShape::Pentagon,
            name: "Tank",
            base_hp: 70_000,
            base_speed: 40_000,
            base_damage: 6_000,
            attack_range: 55_000,
            attack_speed: 500,
            gold_value: 20,
            radius: 17_000,
        },
        EnemyShape::Hexagon => EnemyPreset {
            shape: EnemyShape::Hexagon,
            name: "Destructeur",
            base_hp: 45_000,
            base_speed: 65_000,
            base_damage: 14_000,
            attack_range: 70_000,
            attack_speed: 800,
            gold_value: 18,
            radius: 14_000,
        },
        EnemyShape::Octagon => EnemyPreset {
            shape: EnemyShape::Octagon,
            name: "Boss",
            base_hp: 250_000,
            base_speed: 35_000,
            base_damage: 20_000,
            attack_range: 80_000,
            attack_speed: 600,
            gold_value: 80,
            radius: 24_000,
        },
    }
}

/// The base stats of one archetype.
pub fn get_preset(shape: EnemyShape) -> (r: EnemyPreset)
    ensures
        r == spec_preset(shape),
        r.shape == shape,
        0 < r.base_hp <= 500_000,
        0 < r.base_speed <= 1_000_000,
        0 < r.base_damage <= 1_000_000,
        0 < r.attack_range <= 1_000_000,
        0 < r.attack_speed <= 1_000_000,
        r.gold_value <= 1_000,
        0 < r.radius <= 1_000_000,
{
    match shape {
        EnemyShape::Triangle => EnemyPreset {
            shape: EnemyShape::Triangle,
            name: "Eclaireur",
            base_hp: 15_000,
            base_speed: 140_000,
            base_damage: 4_000,
            attack_range: 40_000,
            attack_speed: 900,
            gold_value: 5,
            radius: 10_000,
        },
        EnemyShape::Square => EnemyPreset {
            shape: EnemyShape::Square,
            name: "Soldat",
            base_hp: 35_000,
            base_speed: 80_000,
            base_damage: 8_000,
            attack_range: 50_000,
            attack_speed: 700,
            gold_value: 10,
            radius: 13_000,
        },
        EnemyShape::Pentagon => EnemyPreset {
            shape: EnemyShape::Pentagon,
            name: "Tank",
            base_hp: 70_000,
            base_speed: 40_000,
            base_damage: 6_000,
            attack_range: 55_000,
            attack_speed: 500,
            gold_value: 20,
            radius: 17_000,
        },
        EnemyShape::Hexagon => EnemyPreset {
            shape: EnemyShape::Hexagon,
            name: "Destructeur",
            base_hp: 45_000,
            base_speed: 65_000,
            base_damage: 14_000,
            attack_range: 70_000,
            attack_speed: 800,
            gold_value: 18,
            radius: 14_000,
        },
        EnemyShape::Octagon => EnemyPreset {
            shape: EnemyShape::Octagon,
            name: "Boss",
            base_hp: 250_000,
            base_speed: 35_000,
            base_damage: 20_000,
            attack_range: 80_000,
            attack_speed: 600,
            gold_value: 80,
            radius: 24_000,
        },
    }
}

} // verus!
