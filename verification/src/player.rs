//! The defended player at the arena center.

use vstd::prelude::*;

use crate::elemental::TowerElement;
use crate::geom::Point2D;
use crate::units::{AMOUNT_LIMIT, DURATION_LIMIT, HP_LIMIT, RATE_LIMIT};

verus! {

#[derive(Clone, Debug)]
pub struct Player {
    pub position: Point2D,
    pub hp: i64,
    pub max_hp: i64,
    pub attack_damage: i64,
    pub attack_range: i64,
    pub attack_speed: i64,
    pub attack_cooldown: i64,
    pub radius: i64,
    pub element: TowerElement,
}

impl Player {
    pub open spec fn wf(self) -> bool {
        &&& self.position.in_bounds()
        &&& -HP_LIMIT <= self.hp <= self.max_hp
        &&& 0 < self.max_hp <= crate::units::MAX_HP_LIMIT
        &&& 0 <= self.attack_damage <= AMOUNT_LIMIT
        &&& 0 <= self.attack_range <= crate::geom::COORD_LIMIT
        &&& 0 < self.attack_speed <= RATE_LIMIT
        &&& -DURATION_LIMIT <= self.attack_cooldown <= DURATION_LIMIT
        &&& 0 <= self.radius <= crate::geom::COORD_LIMIT
    }

    pub fn new() -> (r: Player)
        ensures
            r.wf(),
            r.position == (Point2D { x: 0, y: 0 }),
            r.hp == 120_000,
            r.max_hp == 120_000,
            r.attack_damage == 12_000,
            r.attack_range == 140_000,
            r.attack_speed == 1_200,
            r.attack_cooldown == 0,
            r.radius == 20_000,
            r.element == TowerElement::Neutral,
    {
        Player {
            position: Point2D { x: 0, y: 0 },
            hp: 120_000,
            max_hp: 120_000,
            attack_damage: 12_000,
            attack_range: 140_000,
            attack_speed: 1_200,
            attack_cooldown: 0,
            radius: 20_000,
            element: TowerElement::Neutral,
        }
    }
}

} // verus!
