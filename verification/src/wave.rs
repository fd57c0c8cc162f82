//! Procedural wave generation: enemy counts per wave, weighted archetype
//! draws, guaranteed bosses every fifth wave, and edge spawn positions.

use vstd::prelude::*;

use crate::enemy::{Enemy, EnemyShape};
use crate::geom::{COORD_LIMIT, Point2D};
use crate::rng::{rng_range_i64, rng_range_u32};
use crate::units::{DT_LIMIT, DURATION_LIMIT};

verus! {

/// Ceiling of the late-game growth factors, in per-mille.
pub const WAVE_EXP_CAP: i64 = 1_000_000_000;

/// Highest wave number the manager counts to.
pub const WAVE_LIMIT: u32 = 1_000_000;

#[derive(Clone, Copy, PartialEq, Eq, Structural, Debug)]
pub struct EnemySpawnInfo {
    pub shape: EnemyShape,
}

/// `factor`-per-mille growth, `n` times, saturating at `WAVE_EXP_CAP`.
pub open spec fn spec_wave_exp(factor: int, n: nat) -> int
    decreases n,
{
    if n == 0 {
        1000
    } else {
        let q = spec_wave_exp(factor, (n - 1) as nat) * factor / 1000;
        if q > WAVE_EXP_CAP {
            WAVE_EXP_CAP as int
        } else {
            q
        }
    }
}

pub proof fn lemma_wave_exp_bounds(factor: int, n: nat)
    requires
        1000 <= factor <= 2000,
    ensures
        1000 <= spec_wave_exp(factor, n) <= WAVE_EXP_CAP,
    decreases n,
{
    if n > 0 {
        lemma_wave_exp_bounds(factor, (n - 1) as nat);
        let p = spec_wave_exp(factor, (n - 1) as nat);
        assert(p <= p * factor / 1000 <= 2 * WAVE_EXP_CAP) by (nonlinear_arith)
            requires
                1000 <= p <= WAVE_EXP_CAP,
                1000 <= factor <= 2000,
        ;
    }
}

proof fn lemma_wave_exp_absorb(factor: int, m: nat, n: nat)
    requires
        1000 <= factor <= 2000,
        m <= n,
        spec_wave_exp(factor, m) == WAVE_EXP_CAP,
    ensures
        spec_wave_exp(factor, n) == WAVE_EXP_CAP,
    decreases n - m,
{
    if m < n {
        lemma_wave_exp_absorb(factor, m, (n - 1) as nat);
        assert(WAVE_EXP_CAP * factor / 1000 >= WAVE_EXP_CAP) by (nonlinear_arith)
            requires
                1000 <= factor <= 2000,
        ;
    }
}

/// The saturating growth factor, computed by iteration.
fn wave_exp(factor: i64, n: u32) -> (r: i64)
    requires
        1000 <= factor <= 2000,
    ensures
        r == spec_wave_exp(factor as int, n as nat),
        1000 <= r <= WAVE_EXP_CAP,
{
    proof {
        lemma_wave_exp_bounds(factor as int, n as nat);
    }
    let mut f: i64 = 1000;
    let mut i: u32 = 0;
    while i < n && f < WAVE_EXP_CAP
        invariant
            0 <= i <= n,
            1000 <= factor <= 2000,
            f == spec_wave_exp(factor as int, i as nat),
            1000 <= f <= WAVE_EXP_CAP,
        decreases n - i,
    {
        proof {
            lemma_wave_exp_bounds(factor as int, (i + 1) as nat);
            crate::geom::lemma_mul_le(f as int, factor as int, WAVE_EXP_CAP as int, 2000);
            crate::units::lemma_div_le(f as int * factor as int, WAVE_EXP_CAP as int * 2000, 1000);
        }
        let q = f * factor / 1000;
        f = if q > WAVE_EXP_CAP {
            WAVE_EXP_CAP
        } else {
            q
        };
        i = i + 1;
    }
    if i < n {
        proof {
            lemma_wave_exp_absorb(factor as int, i as nat, n as nat);
        }
    }
    f
}

/// How many regular enemies a wave holds: linear ramps through the first
/// hundred waves, then three percent compounded per wave.
pub open spec fn spec_enemy_count(w: int) -> int {
    if w <= 20 {
        6 + w * 2
    } else if w <= 50 {
        46 + (w - 20) * 3
    } else if w <= 100 {
        136 + (w - 50) * 4
    } else {
        336 * spec_wave_exp(1030, (w - 100) as nat) / 1000
    }
}

/// How many bosses a wave holds: none off multiples of five, then a
/// tier-scaled count.
pub open spec fn spec_boss_count(w: int) -> int {
    if w < 5 || w % 5 != 0 {
        0
    } else if w <= 10 {
        1
    } else if w <= 20 {
        2
    } else if w <= 50 {
        3 + (w - 20) / 10
    } else if w <= 100 {
        5 + (w - 50) / 10
    } else {
        10 * spec_wave_exp(1050, ((w - 100) / 5) as nat) / 1000
    }
}

/// Extra heavy enemies every tenth wave past twenty.
pub open spec fn spec_mini_boss_count(w: int) -> int {
    if w > 20 && w % 10 == 0 {
        (w - 20) / 10
    } else {
        0
    }
}

/// Which archetype a weighted roll in `[0, 100_000)` picks at this wave:
/// scouts fade out and heavies take over as waves progress.
pub open spec fn spec_pick_shape(w: int, roll: int) -> EnemyShape {
    if w <= 2 {
        if roll < 90_000 {
            EnemyShape::Triangle
        } else {
            EnemyShape::Square
        }
    } else if w <= 5 {
        if roll < 60_000 {
            EnemyShape::Triangle
        } else {
            EnemyShape::Square
        }
    } else if w <= 7 {
        if roll < 40_000 {
            EnemyShape::Triangle
        } else if roll < 75_000 {
            EnemyShape::Square
        } else {
            EnemyShape::Pentagon
        }
    } else if w <= 10 {
        if roll < 30_000 {
            EnemyShape::Triangle
        } else if roll < 60_000 {
            EnemyShape::Square
        } else {
            EnemyShape::Pentagon
        }
    } else if w <= 12 {
        if roll < 25_000 {
            EnemyShape::Triangle
        } else if roll < 50_000 {
            EnemyShape::Square
        } else if roll < 80_000 {
            EnemyShape::Pentagon
        } else {
            EnemyShape::Hexagon
        }
    } else if w <= 15 {
        if roll < 20_000 {
            EnemyShape::Triangle
        } else if roll < 45_000 {
            EnemyShape::Square
        } else if roll < 70_000 {
            EnemyShape::Pentagon
        } else {
            EnemyShape::Hexagon
        }
    } else if w <= 20 {
        if roll < 15_000 {
            EnemyShape::Triangle
        } else if roll < 35_000 {
            EnemyShape::Square
        } else if roll < 60_000 {
            EnemyShape::Pentagon
        } else {
            EnemyShape::Hexagon
        }
    } else if w <= 35 {
        if roll < 10_000 {
            EnemyShape::Triangle
        } else if roll < 30_000 {
            EnemyShape::Square
        } else if roll < 60_000 {
            EnemyShape::Pentagon
        } else {
            EnemyShape::Hexagon
        }
    } else if w <= 50 {
        if roll < 5_000 {
            EnemyShape::Triangle
        } else if roll < 25_000 {
            EnemyShape::Square
        } else if roll < 55_000 {
            EnemyShape::Pentagon
        } else {
            EnemyShape::Hexagon
        }
    } else if w <= 75 {
        if roll < 5_000 {
            EnemyShape::Triangle
        } else if roll < 20_000 {
            EnemyShape::Square
        } else if roll < 50_000 {
            EnemyShape::Pentagon
        } else {
            EnemyShape::Hexagon
        }
    } else if w <= 100 {
        if roll < 15_000 {
            EnemyShape::Square
        } else if roll < 45_000 {
            EnemyShape::Pentagon
        } else {
            EnemyShape::Hexagon
        }
    } else {
        if roll < 40_000 {
            EnemyShape::Pentagon
        } else {
            EnemyShape::Hexagon
        }
    }
}

/// Does `p` lie on one of the four spawn edges of the viewport: a margin
/// of thirty units outside one axis, within the viewport's half-extent on
/// the other.
pub open spec fn on_spawn_edge(p: Point2D, viewport: (i64, i64)) -> bool {
    let half_w = viewport.0 as int / 2;
    let half_h = viewport.1 as int / 2;
    ||| (p.y == -(half_h + 30_000) || p.y == half_h + 30_000) && -half_w <= p.x <= half_w
    ||| (p.x == -(half_w + 30_000) || p.x == half_w + 30_000) && -half_h <= p.y <= half_h
}

pub struct WaveManager {
    pub current_wave: u32,
    pub enemies_to_spawn: Vec<EnemySpawnInfo>,
    pub spawn_timer: i64,
    pub spawn_interval: i64,
    pub wave_active: bool,
    pub between_waves_timer: i64,
    pub between_waves_duration: i64,
    pub next_enemy_id: usize,
}

impl WaveManager {
    pub open spec fn wf(self) -> bool {
        &&& self.current_wave <= WAVE_LIMIT
        &&& -DURATION_LIMIT <= self.spawn_timer <= DURATION_LIMIT
        &&& 0 < self.spawn_interval <= DURATION_LIMIT
        &&& -DURATION_LIMIT <= self.between_waves_timer <= DURATION_LIMIT
        &&& 0 < self.between_waves_duration <= DURATION_LIMIT
        &&& self.wave_active ==> self.current_wave >= 1
    }

    pub fn new() -> (r: WaveManager)
        ensures
            r.wf(),
            r.current_wave == 0,
            r.enemies_to_spawn@.len() == 0,
            r.spawn_timer == 0,
            r.spawn_interval == 500,
            !r.wave_active,
            r.between_waves_timer == 5000,
            r.between_waves_duration == 5000,
            r.next_enemy_id == 0,
    {
        WaveManager {
            current_wave: 0,
            enemies_to_spawn: Vec::new(),
            spawn_timer: 0,
            spawn_interval: 500,
            wave_active: false,
            between_waves_timer: 5000,
            between_waves_duration: 5000,
            next_enemy_id: 0,
        }
    }

    /// The archetype a weighted roll picks at this wave.
    pub fn pick_enemy_shape_from_roll(wave_num: u32, roll: u32) -> (r: EnemyShape)
        requires
            roll < 100_000,
        ensures
            r == spec_pick_shape(wave_num as int, roll as int),
    {
        let w = wave_num;
        if w <= 2 {
            if roll < 90_000 {
                EnemyShape::Triangle
            } else {
                EnemyShape::Square
            }
        } else if w <= 5 {
            if roll < 60_000 {
                EnemyShape::Triangle
            } else {
                EnemyShape::Square
            }
        } else if w <= 7 {
            if roll < 40_000 {
                EnemyShape::Triangle
            } else if roll < 75_000 {
                EnemyShape::Square
            } else {
                EnemyShape::Pentagon
            }
        } else if w <= 10 {
            if roll < 30_000 {
                EnemyShape::Triangle
            } else if roll < 60_000 {
                EnemyShape::Square
            } else {
                EnemyShape::Pentagon
            }
        } else if w <= 12 {
            if roll < 25_000 {
                EnemyShape::Triangle
            } else if roll < 50_000 {
                EnemyShape::Square
            } else if roll < 80_000 {
                EnemyShape::Pentagon
            } else {
                EnemyShape::Hexagon
            }
        } else if w <= 15 {
            if roll < 20_000 {
                EnemyShape::Triangle
            } else if roll < 45_000 {
                EnemyShape::Square
            } else if roll < 70_000 {
                EnemyShape::Pentagon
            } else {
                EnemyShape::Hexagon
            }
        } else if w <= 20 {
            if roll < 15_000 {
                EnemyShape::Triangle
            } else if roll < 35_000 {
                EnemyShape::Square
            } else if roll < 60_000 {
                EnemyShape::Pentagon
            } else {
                EnemyShape::Hexagon
            }
        } else if w <= 35 {
            if roll < 10_000 {
                EnemyShape::Triangle
            } else if roll < 30_000 {
                EnemyShape::Square
            } else if roll < 60_000 {
                EnemyShape::Pentagon
            } else {
                EnemyShape::Hexagon
            }
        } else if w <= 50 {
            if roll < 5_000 {
                EnemyShape::Triangle
            } else if roll < 25_000 {
                EnemyShape::Square
            } else if roll < 55_000 {
                EnemyShape::Pentagon
            } else {
                EnemyShape::Hexagon
            }
        } else if w <= 75 {
            if roll < 5_000 {
                EnemyShape::Triangle
            } else if roll < 20_000 {
                EnemyShape::Square
            } else if roll < 50_000 {
                EnemyShape::Pentagon
            } else {
                EnemyShape::Hexagon
            }
        } else if w <= 100 {
            if roll < 15_000 {
                EnemyShape::Square
            } else if roll < 45_000 {
                EnemyShape::Pentagon
            } else {
                EnemyShape::Hexagon
            }
        } else {
            if roll < 40_000 {
                EnemyShape::Pentagon
            } else {
                EnemyShape::Hexagon
            }
        }
    }

    /// A fresh weighted draw of one archetype: whatever the roll, the
    /// result is what the weight tables give some roll, and the tables
    /// never hand out the boss archetype.
    fn pick_enemy_shape(&self, wave_num: u32) -> (r: EnemyShape)
        ensures
            exists|roll: int|
                0 <= roll < 100_000 && r == #[trigger] spec_pick_shape(wave_num as int, roll),
            r != EnemyShape::Octagon,
    {
        let roll = rng_range_u32(0, 100_000);
        let shape = Self::pick_enemy_shape_from_roll(wave_num, roll);
        proof {
            assert(spec_pick_shape(wave_num as int, roll as int) != EnemyShape::Octagon);
            assert(shape == spec_pick_shape(wave_num as int, roll as int));
        }
        shape
    }

    /// How many regular enemies wave `wave_num` holds.
    pub fn calculate_enemy_count(&self, wave_num: u32) -> (r: u32)
        requires
            1 <= wave_num,
        ensures
            r == spec_enemy_count(wave_num as int),
            1 <= r <= 400_000_000,
    {
        let w = wave_num as i64;
        if w <= 20 {
            (6 + w * 2) as u32
        } else if w <= 50 {
            (46 + (w - 20) * 3) as u32
        } else if w <= 100 {
            (136 + (w - 50) * 4) as u32
        } else {
            let f = wave_exp(1030, wave_num - 100);
            proof {
                crate::units::lemma_div_le(336 * f as int, 336 * (WAVE_EXP_CAP as int), 1000);
                crate::units::lemma_div_le(336int * 1000, 336 * f as int, 1000);
                assert(336int * 1000 <= 336 * f <= 336 * (WAVE_EXP_CAP as int))
                    by (nonlinear_arith)
                    requires
                        1000 <= f <= WAVE_EXP_CAP,
                ;
            }
            (336 * f / 1000) as u32
        }
    }

    /// How many bosses wave `wave_num` holds.
    pub fn boss_count(wave_num: u32) -> (r: u32)
        ensures
            r == spec_boss_count(wave_num as int),
            r <= 100_000_000,
    {
        let w = wave_num as i64;
        if w < 5 || w % 5 != 0 {
            0
        } else if w <= 10 {
            1
        } else if w <= 20 {
            2
        } else if w <= 50 {
            (3 + (w - 20) / 10) as u32
        } else if w <= 100 {
            (5 + (w - 50) / 10) as u32
        } else {
            let f = wave_exp(1050, (wave_num - 100) / 5);
            proof {
                crate::units::lemma_div_le(10 * f as int, 10 * (WAVE_EXP_CAP as int), 1000);
                crate::units::lemma_div_le(10int * 1000, 10 * f as int, 1000);
                assert(10int * 1000 <= 10 * f <= 10 * (WAVE_EXP_CAP as int)) by (nonlinear_arith)
                    requires
                        1000 <= f <= WAVE_EXP_CAP,
                ;
                assert((wave_num - 100) as u32 as int / 5 == (wave_num as int - 100) / 5);
            }
            (10 * f / 1000) as u32
        }
    }

    /// Extra heavy enemies every tenth wave past twenty.
    pub fn mini_boss_count(wave_num: u32) -> (r: u32)
        requires
            wave_num <= WAVE_LIMIT,
        ensures
            r == spec_mini_boss_count(wave_num as int),
            r <= WAVE_LIMIT,
    {
        if wave_num > 20 && wave_num % 10 == 0 {
            (wave_num - 20) / 10
        } else {
            0
        }
    }

    /// The spawn queue of one wave: the regular enemies (randomly drawn
    /// archetypes), then the bosses, then the mini-bosses.
    fn generate_wave(&self, wave_num: u32) -> (r: Vec<EnemySpawnInfo>)
        requires
            1 <= wave_num <= WAVE_LIMIT,
        ensures
            r@.len() == spec_enemy_count(wave_num as int) + spec_boss_count(wave_num as int)
                + spec_mini_boss_count(wave_num as int),
            forall|i: int|
                0 <= i < r@.len() ==> ((#[trigger] r@[i]).shape == EnemyShape::Octagon
                    <==> spec_enemy_count(wave_num as int) <= i < spec_enemy_count(
                    wave_num as int,
                ) + spec_boss_count(wave_num as int)),
            forall|i: int|
                spec_enemy_count(wave_num as int) + spec_boss_count(wave_num as int) <= i
                    < r@.len() ==> (#[trigger] r@[i]).shape == EnemyShape::Hexagon,
    {
        let count = self.calculate_enemy_count(wave_num);
        let mut enemies: Vec<EnemySpawnInfo> = Vec::new();
        let mut i: u32 = 0;
        while i < count
            invariant
                0 <= i <= count,
                enemies@.len() == i,
                forall|x: int|
                    0 <= x < enemies@.len() ==> (#[trigger] enemies@[x]).shape
                        != EnemyShape::Octagon,
            decreases count - i,
        {
            let shape = self.pick_enemy_shape(wave_num);
            enemies.push(EnemySpawnInfo { shape });
            i = i + 1;
        }
        let bosses = Self::boss_count(wave_num);
        let mut b: u32 = 0;
        while b < bosses
            invariant
                0 <= b <= bosses,
                enemies@.len() == count + b,
                forall|x: int|
                    0 <= x < count ==> (#[trigger] enemies@[x]).shape != EnemyShape::Octagon,
                forall|x: int|
                    count <= x < enemies@.len() ==> (#[trigger] enemies@[x]).shape
                        == EnemyShape::Octagon,
            decreases bosses - b,
        {
            enemies.push(EnemySpawnInfo { shape: EnemyShape::Octagon });
            b = b + 1;
        }
        let minis = Self::mini_boss_count(wave_num);
        let mut m: u32 = 0;
        while m < minis
            invariant
                0 <= m <= minis,
                enemies@.len() == count + bosses + m,
                forall|x: int|
                    0 <= x < count ==> (#[trigger] enemies@[x]).shape != EnemyShape::Octagon,
                forall|x: int|
                    count <= x < count + bosses ==> (#[trigger] enemies@[x]).shape
                        == EnemyShape::Octagon,
                forall|x: int|
                    count + bosses <= x < enemies@.len() ==> (#[trigger] enemies@[x]).shape
                        == EnemyShape::Hexagon,
            decreases minis - m,
        {
            enemies.push(EnemySpawnInfo { shape: EnemyShape::Hexagon });
            m = m + 1;
        }
        enemies
    }

    /// Advance to the next wave and queue its spawns.
    pub fn start_next_wave(&mut self)
        requires
            old(self).wf(),
            old(self).current_wave < WAVE_LIMIT,
        ensures
            final(self).wf(),
            final(self).current_wave == old(self).current_wave + 1,
            final(self).wave_active,
            final(self).spawn_timer == 0,
            final(self).enemies_to_spawn@.len() == spec_enemy_count(
                final(self).current_wave as int,
            ) + spec_boss_count(final(self).current_wave as int) + spec_mini_boss_count(
                final(self).current_wave as int,
            ),
            forall|i: int|
                0 <= i < final(self).enemies_to_spawn@.len() ==> ((#[trigger] final(self).enemies_to_spawn@[i]).shape == EnemyShape::Octagon <==> spec_enemy_count(
                    final(self).current_wave as int,
                ) <= i < spec_enemy_count(final(self).current_wave as int) + spec_boss_count(
                    final(self).current_wave as int,
                )),
            final(self).next_enemy_id == old(self).next_enemy_id,
            final(self).between_waves_timer == old(self).between_waves_timer,
            final(self).between_waves_duration == old(self).between_waves_duration,
            final(self).spawn_interval == old(self).spawn_interval,
    {
        self.current_wave = self.current_wave + 1;
        let queue = self.generate_wave(self.current_wave);
        self.enemies_to_spawn = queue;
        self.wave_active = true;
        self.spawn_timer = 0;
    }

    /// Enter the pause between waves.
    pub fn start_between_waves(&mut self)
        requires
            old(self).wf(),
        ensures
            final(self).wf(),
            !final(self).wave_active,
            final(self).between_waves_timer == old(self).between_waves_duration,
            *final(self) == (WaveManager {
                wave_active: false,
                between_waves_timer: final(self).between_waves_timer,
                ..*old(self)
            }),
    {
        self.wave_active = false;
        self.between_waves_timer = self.between_waves_duration;
    }

    /// Run the between-wave countdown; true when it elapses.
    pub fn tick_between_waves(&mut self, dt: i64) -> (r: bool)
        requires
            old(self).wf(),
            0 < dt <= DT_LIMIT,
        ensures
            final(self).wf(),
            final(self).between_waves_timer == crate::units::spec_max_i64(
                old(self).between_waves_timer - dt,
                -DURATION_LIMIT as int,
            ),
            r == (final(self).between_waves_timer <= 0),
            *final(self) == (WaveManager {
                between_waves_timer: final(self).between_waves_timer,
                ..*old(self)
            }),
    {
        let next = self.between_waves_timer - dt;
        self.between_waves_timer = if next < -DURATION_LIMIT {
            -DURATION_LIMIT
        } else {
            next
        };
        self.between_waves_timer <= 0
    }

    /// Has the running wave emptied its spawn queue?
    pub fn is_wave_complete(&self) -> (r: bool)
        ensures
            r == (self.wave_active && self.enemies_to_spawn@.len() == 0),
    {
        self.wave_active && self.enemies_to_spawn.len() == 0
    }

    /// One frame of spawning: at most one enemy leaves the queue, each
    /// `spawn_interval`, placed at a random point on an arena edge.
    pub fn tick(&mut self, dt: i64, viewport: (i64, i64)) -> (r: Vec<Enemy>)
        requires
            old(self).wf(),
            0 < dt <= DT_LIMIT,
            0 < viewport.0 <= COORD_LIMIT,
            0 < viewport.1 <= COORD_LIMIT,
        ensures
            final(self).wf(),
            final(self).current_wave == old(self).current_wave,
            r@.len() <= 1,
            forall|x: int| 0 <= x < r@.len() ==> (#[trigger] r@[x]).wf(),
            !old(self).wave_active || old(self).enemies_to_spawn@.len() == 0 ==> r@.len() == 0
                && *final(self) == *old(self),
            old(self).wave_active && old(self).enemies_to_spawn@.len() > 0 && old(self).spawn_timer - dt > 0 ==> r@.len() == 0 && final(self).spawn_timer == old(self).spawn_timer - dt && final(self).enemies_to_spawn@ == old(self).enemies_to_spawn@
                && final(self).next_enemy_id == old(self).next_enemy_id,
            old(self).wave_active && old(self).enemies_to_spawn@.len() > 0 && old(self).spawn_timer - dt <= 0 ==> {
                &&& r@.len() == 1
                &&& r@[0].wf()
                &&& r@[0].id == old(self).next_enemy_id
                &&& r@[0].shape == old(self).enemies_to_spawn@[0].shape
                &&& on_spawn_edge(r@[0].position, viewport)
                &&& final(self).enemies_to_spawn@ == old(self).enemies_to_spawn@.drop_first()
                &&& final(self).next_enemy_id == if old(self).next_enemy_id < usize::MAX {
                    old(self).next_enemy_id + 1
                } else {
                    0int
                }
                &&& final(self).spawn_timer == old(self).spawn_interval
            },
    {
        if !self.wave_active || self.enemies_to_spawn.len() == 0 {
            return Vec::new();
        }
        self.spawn_timer = self.spawn_timer - dt;
        if self.spawn_timer > 0 {
            return Vec::new();
        }
        self.spawn_timer = self.spawn_interval;
        let info = self.enemies_to_spawn.remove(0);
        let spawn_pos = self.random_edge_position(viewport);
        let id = self.next_enemy_id;
        if self.next_enemy_id < usize::MAX {
            self.next_enemy_id = self.next_enemy_id + 1;
        } else {
            self.next_enemy_id = 0;
        }
        let enemy = Enemy::new(id, info.shape, self.current_wave, spawn_pos);
        let mut out: Vec<Enemy> = Vec::new();
        out.push(enemy);
        proof {
            assert(old(self).enemies_to_spawn@.remove(0) =~= old(self).enemies_to_spawn@.drop_first());
        }
        out
    }

    /// A uniform point on one of the four arena edges, just outside the
    /// viewport margin.
    fn random_edge_position(&self, viewport: (i64, i64)) -> (r: Point2D)
        requires
            0 < viewport.0 <= COORD_LIMIT,
            0 < viewport.1 <= COORD_LIMIT,
        ensures
            r.in_bounds(),
            on_spawn_edge(r, viewport),
    {
        let half_w = viewport.0 / 2;
        let half_h = viewport.1 / 2;
        let margin: i64 = 30_000;
        proof {
            crate::units::lemma_div_le(0, viewport.0 as int, 2);
            crate::units::lemma_div_le(viewport.0 as int, COORD_LIMIT as int, 2);
            crate::units::lemma_div_le(0, viewport.1 as int, 2);
            crate::units::lemma_div_le(viewport.1 as int, COORD_LIMIT as int, 2);
        }
        let side = rng_range_u32(0, 4);
        if side == 0 {
            Point2D { x: rng_range_i64(-half_w, half_w + 1), y: -(half_h + margin) }
        } else if side == 1 {
            Point2D { x: rng_range_i64(-half_w, half_w + 1), y: half_h + margin }
        } else if side == 2 {
            Point2D { x: -(half_w + margin), y: rng_range_i64(-half_h, half_h + 1) }
        } else {
            Point2D { x: half_w + margin, y: rng_range_i64(-half_h, half_h + 1) }
        }
    }
}

} // verus!
