//! In-flight projectiles: who fired them, where they are heading, and the
//! resolved actions they deliver on impact.

use vstd::prelude::*;

use crate::defs::{ResolvedAction, resolved_ok};
use crate::elemental::TowerElement;
use crate::geom::Point2D;
use crate::units::{DURATION_LIMIT, SPEED_LIMIT};

verus! {

/// How long a spent projectile keeps fading before it is pruned, in
/// milliseconds.
pub const PROJECTILE_FADE_DURATION: i64 = 150;

#[derive(Clone, Copy, PartialEq, Eq, Structural, Debug)]
pub enum ProjectileSource {
    Player,
    Tower(usize),
    Enemy(usize),
}

#[derive(Debug)]
pub struct Projectile {
    pub origin: Point2D,
    pub target_pos: Point2D,
    pub current_pos: Point2D,
    pub speed: i64,
    pub element: TowerElement,
    pub source: ProjectileSource,
    pub actions: Vec<ResolvedAction>,
    pub lifetime: i64,
    /// Homing: while this enemy lives, `target_pos` tracks it each frame.
    pub target_enemy_id: Option<usize>,
    /// `None` while active; once set, only the fade countdown matters.
    pub fade_timer: Option<i64>,
    /// Visual radius of the projectile head.
    pub size: i64,
}

impl Projectile {
    pub open spec fn wf(self) -> bool {
        &&& self.origin.in_bounds()
        &&& self.target_pos.in_bounds()
        &&& self.current_pos.in_bounds()
        &&& 0 <= self.speed <= SPEED_LIMIT
        &&& -DURATION_LIMIT <= self.lifetime <= DURATION_LIMIT
        &&& match self.fade_timer {
            Some(t) => -DURATION_LIMIT <= t <= DURATION_LIMIT,
            None => true,
        }
        &&& 0 <= self.size <= crate::geom::COORD_LIMIT
        &&& forall|i: int|
            0 <= i < self.actions@.len() ==> resolved_ok(#[trigger] self.actions@[i])
    }
}

/// An element-wise copy of an action list; resolved actions are plain
/// values, so the copy carries the same sequence.
pub fn copy_actions(v: &Vec<ResolvedAction>) -> (r: Vec<ResolvedAction>)
    ensures
        r@ == v@,
{
    let mut out: Vec<ResolvedAction> = Vec::new();
    let mut i: usize = 0;
    while i < v.len()
        invariant
            0 <= i <= v.len(),
            out@ == v@.take(i as int),
        decreases v.len() - i,
    {
        out.push(v[i]);
        proof {
            assert(out@ =~= v@.take(i as int + 1));
        }
        i = i + 1;
    }
    proof {
        assert(v@.take(v@.len() as int) =~= v@);
    }
    out
}

} // verus!
