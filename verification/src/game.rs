//! The simulation state and its single mutation entry point: `tick`
//! advances every subsystem once per frame in a fixed phase order, and the
//! command methods apply player actions between frames.

use vstd::pervasive::VecAdditionalExecFns;
use vstd::prelude::*;

use crate::catalog::get_def;
use crate::defs::{
    EffectTarget, ResolvedAction, ResolvedDamage, ResolvedEffect, TowerKind, UpgradeableProp,
    resolved_ok,
};
use crate::elemental::{ElementalStateKind, TowerElement};
use crate::enemy::Enemy;
use crate::geom::{COORD_LIMIT, Point2D};
use crate::player::Player;
use crate::projectile::{PROJECTILE_FADE_DURATION, Projectile, ProjectileSource, copy_actions};
use crate::save::SaveData;
use crate::tower::{SkillState, SkillUpgradeId, Tower};
use crate::units::{
    AMOUNT_LIMIT, DT_LIMIT, DURATION_LIMIT, HP_LIMIT, hp_sub, min_i64, spec_max_i64, spec_u32_add,
    u32_add,
};
use crate::wave::WaveManager;

verus! {

#[derive(Clone, Copy, PartialEq, Eq, Structural, Debug)]
pub enum GamePhase {
    Preparing,
    Active,
    GameOver,
}

/// The energy shield around the player, unlocked by a shop upgrade.
#[derive(Clone, Copy, PartialEq, Eq, Structural, Debug)]
pub struct Shield {
    pub active: bool,
    pub hp: i64,
    pub max_hp: i64,
    pub radius: i64,
    pub regen_timer: i64,
    pub regen_delay: i64,
    pub low_hp_notified: bool,
}

impl Shield {
    pub open spec fn wf(self) -> bool {
        &&& -HP_LIMIT <= self.hp <= self.max_hp
        &&& 0 <= self.max_hp <= crate::units::MAX_HP_LIMIT
        &&& 0 <= self.radius <= COORD_LIMIT
        &&& -DURATION_LIMIT <= self.regen_timer <= DURATION_LIMIT
        &&& 0 < self.regen_delay <= DURATION_LIMIT
    }

    /// A shield of the given shop level: fifty hit points per level,
    /// absent at level zero.
    pub fn new(level: u32) -> (r: Shield)
        requires
            level <= 100_000,
        ensures
            r.wf(),
            level == 0 ==> !r.active && r.max_hp == 0,
            level > 0 ==> r.active && r.hp == r.max_hp == 50_000 * level && r.radius == 80_000,
            r.regen_delay == 15_000,
            !r.low_hp_notified,
    {
        if level == 0 {
            return Shield {
                active: false,
                hp: 0,
                max_hp: 0,
                radius: 0,
                regen_timer: 0,
                regen_delay: 15_000,
                low_hp_notified: false,
            };
        }
        let max_hp = 50_000 * (level as i64);
        Shield {
            active: true,
            hp: max_hp,
            max_hp,
            radius: 80_000,
            regen_timer: 0,
            regen_delay: 15_000,
            low_hp_notified: false,
        }
    }

    pub fn is_unlocked(&self) -> (r: bool)
        ensures
            r == (self.max_hp > 0),
    {
        self.max_hp > 0
    }
}

/// A color as hue, saturation and lightness, each in per-mille.
#[derive(Clone, Copy, PartialEq, Eq, Structural, Debug)]
pub struct Hsl {
    pub h: i64,
    pub s: i64,
    pub l: i64,
}

/// A fading ring shown where an area effect landed.
#[derive(Clone, Copy, PartialEq, Eq, Structural, Debug)]
pub struct AoeSplash {
    pub position: Point2D,
    pub radius: i64,
    pub color: Hsl,
    pub lifetime: i64,
    pub max_lifetime: i64,
}

/// A beam drawn for one strike.
#[derive(Clone, Copy, PartialEq, Eq, Structural, Debug)]
pub struct LaserBeam {
    pub start: Point2D,
    pub end: Point2D,
    pub color: Hsl,
    pub lifetime: i64,
    pub max_lifetime: i64,
    pub width: i64,
}

/// What a standing impact zone applies to enemies inside it.
#[derive(Clone, Copy, PartialEq, Eq, Structural, Debug)]
pub enum ImpactAuraType {
    Elemental { state: ElementalStateKind, duration: i64, strength: i64 },
    Cold { cold_duration: i64, freeze_duration: i64 },
}

/// A temporary zone left by a projectile impact, applying its effect on an
/// internal one-second clock.
#[derive(Clone, Copy, PartialEq, Eq, Structural, Debug)]
pub struct ImpactAura {
    pub position: Point2D,
    pub radius: i64,
    pub color: Hsl,
    pub remaining: i64,
    pub tick_cooldown: i64,
    pub aura_type: ImpactAuraType,
    pub element: TowerElement,
}

impl ImpactAura {
    pub open spec fn wf(self) -> bool {
        &&& self.position.in_bounds()
        &&& 0 <= self.radius <= COORD_LIMIT
        &&& -DURATION_LIMIT <= self.remaining <= DURATION_LIMIT
        &&& -DURATION_LIMIT <= self.tick_cooldown <= DURATION_LIMIT
        &&& match self.aura_type {
            ImpactAuraType::Elemental { state, duration, strength } => 0 <= duration
                <= DURATION_LIMIT && 0 <= strength <= crate::defs::STRENGTH_LIMIT,
            ImpactAuraType::Cold { cold_duration, freeze_duration } => 0 <= cold_duration
                <= DURATION_LIMIT && 0 <= freeze_duration <= DURATION_LIMIT,
        }
    }
}

/// An expanding ring shown when a tower pays out passive gold.
#[derive(Clone, Copy, PartialEq, Eq, Structural, Debug)]
pub struct GoldPulse {
    pub position: Point2D,
    pub radius: i64,
    pub max_radius: i64,
    pub lifetime: i64,
    pub max_lifetime: i64,
}

#[derive(Clone, Copy, PartialEq, Eq, Structural, Debug)]
pub struct Economy {
    pub gold: u32,
    pub score: u32,
    pub wave_number: u32,
    pub pepites: u32,
}

pub struct GameState {
    pub player: Player,
    pub shield: Shield,
    pub towers: Vec<Tower>,
    pub max_towers: u32,
    pub enemies: Vec<Enemy>,
    pub projectiles: Vec<Projectile>,
    pub aoe_splashes: Vec<AoeSplash>,
    pub gold_pulses: Vec<GoldPulse>,
    pub impact_auras: Vec<ImpactAura>,
    pub laser_beams: Vec<LaserBeam>,
    pub wave_manager: WaveManager,
    pub economy: Economy,
    pub phase: GamePhase,
    pub viewport_size: (i64, i64),
    pub placement_mode: Option<TowerKind>,
    pub move_mode: Option<usize>,
    pub selected_tower: Option<usize>,
    pub elapsed: i64,
    pub save_data: SaveData,
    pub speed_multiplier: u32,
}

/// Does the click land inside a tower's generous selection circle?
pub open spec fn click_hits(t: Tower, p: Point2D) -> bool {
    t.position.spec_dist_sq(p) < (t.radius + 20_000) * (t.radius + 20_000)
}

pub open spec fn towers_wf(towers: Seq<Tower>) -> bool {
    forall|i: int| 0 <= i < towers.len() ==> (#[trigger] towers[i]).wf()
}

pub open spec fn enemies_wf(enemies: Seq<Enemy>) -> bool {
    forall|i: int| 0 <= i < enemies.len() ==> (#[trigger] enemies[i]).wf()
}

pub open spec fn projectiles_wf(projectiles: Seq<Projectile>) -> bool {
    forall|i: int| 0 <= i < projectiles.len() ==> (#[trigger] projectiles[i]).wf()
}

pub open spec fn auras_wf(auras: Seq<ImpactAura>) -> bool {
    forall|i: int| 0 <= i < auras.len() ==> (#[trigger] auras[i]).wf()
}

impl GameState {
    pub open spec fn wf(self) -> bool {
        &&& self.player.wf()
        &&& self.shield.wf()
        &&& towers_wf(self.towers@)
        &&& enemies_wf(self.enemies@)
        &&& projectiles_wf(self.projectiles@)
        &&& auras_wf(self.impact_auras@)
        &&& self.wave_manager.wf()
        &&& 0 < self.viewport_size.0 <= COORD_LIMIT
        &&& 0 < self.viewport_size.1 <= COORD_LIMIT
        &&& 0 <= self.elapsed
        &&& 1 <= self.speed_multiplier <= 3
    }

    /// A fresh run seeded from the persistent record: starting gold, the
    /// shield, and the tower-slot cap come from its shop levels.
    pub fn new(save_data: &SaveData) -> (r: GameState)
        requires
            forall|i: int|
                0 <= i < save_data.shop_upgrades@.len() ==> (
                #[trigger] save_data.shop_upgrades@[i]).level <= 100_000,
        ensures
            r.wf(),
            r.phase == GamePhase::Preparing,
            r.towers@.len() == 0,
            r.enemies@.len() == 0,
            r.projectiles@.len() == 0,
            r.economy.score == 0,
            r.economy.wave_number == 0,
            r.economy.pepites == 0,
            r.economy.gold == 500 + 50 * crate::save::spec_upgrade_level(
                save_data.shop_upgrades@,
                "bonus_gold"@,
            ),
            r.max_towers == 5 + crate::save::spec_upgrade_level(
                save_data.shop_upgrades@,
                "tower_slots"@,
            ),
            r.player == (Player {
                position: Point2D { x: 0, y: 0 },
                hp: 120_000,
                max_hp: 120_000,
                attack_damage: 12_000,
                attack_range: 140_000,
                attack_speed: 1_200,
                attack_cooldown: 0,
                radius: 20_000,
                element: TowerElement::Neutral,
            }),
            ({
                let shield_level = crate::save::spec_upgrade_level(
                    save_data.shop_upgrades@,
                    "shield"@,
                );
                &&& r.shield.max_hp == 50_000 * shield_level
                &&& (shield_level == 0 ==> !r.shield.active)
                &&& (shield_level > 0 ==> r.shield.active && r.shield.hp == r.shield.max_hp
                    && r.shield.radius == 80_000)
            }),
            r.speed_multiplier == 1,
    {
        let bonus_gold_key: String = "bonus_gold".to_string();
        let shield_key: String = "shield".to_string();
        let slots_key: String = "tower_slots".to_string();
        let bonus_level = save_data.get_upgrade_level(&bonus_gold_key);
        let shield_level = save_data.get_upgrade_level(&shield_key);
        let slots_level = save_data.get_upgrade_level(&slots_key);
        proof {
            lemma_upgrade_level_bounded(save_data.shop_upgrades@, "bonus_gold"@, 100_000);
            lemma_upgrade_level_bounded(save_data.shop_upgrades@, "shield"@, 100_000);
            lemma_upgrade_level_bounded(save_data.shop_upgrades@, "tower_slots"@, 100_000);
        }
        GameState {
            player: Player::new(),
            shield: Shield::new(shield_level),
            towers: Vec::new(),
            max_towers: 5 + slots_level,
            enemies: Vec::new(),
            projectiles: Vec::new(),
            aoe_splashes: Vec::new(),
            gold_pulses: Vec::new(),
            impact_auras: Vec::new(),
            laser_beams: Vec::new(),
            wave_manager: WaveManager::new(),
            economy: Economy {
                gold: 500 + 50 * bonus_level,
                score: 0,
                wave_number: 0,
                pepites: 0,
            },
            phase: GamePhase::Preparing,
            viewport_size: (1_200_000, 800_000),
            placement_mode: None,
            move_mode: None,
            selected_tower: None,
            elapsed: 0,
            save_data: save_data.clone(),
            speed_multiplier: 1,
        }
    }

    /// Place a tower of `kind` at the clicked point: rejected at the slot
    /// cap, with too little gold, too close to another tower, or on top of
    /// the player; otherwise the cost is paid, the tower appended, and
    /// selected.
    pub fn try_place_tower(&mut self, kind: TowerKind, x: i64, y: i64) -> (placed: bool)
        requires
            old(self).wf(),
            -COORD_LIMIT <= x <= COORD_LIMIT,
            -COORD_LIMIT <= y <= COORD_LIMIT,
        ensures
            final(self).wf(),
            ({
                let pos = Point2D { x, y };
                let cost = crate::catalog::spec_def_cost(kind);
                let blocked = {
                    ||| old(self).towers@.len() >= old(self).max_towers
                    ||| old(self).economy.gold < cost
                    ||| exists|i: int|
                        0 <= i < old(self).towers@.len() && (#[trigger] old(self).towers@[i]).position.spec_dist_sq(pos) < 30_000 * 30_000
                    ||| pos.spec_dist_sq(Point2D { x: 0, y: 0 }) < (old(self).player.radius
                        + 20_000) * (old(self).player.radius + 20_000)
                };
                if blocked {
                    !placed && *final(self) == *old(self)
                } else {
                    &&& placed
                    &&& final(self).economy.gold == old(self).economy.gold - cost
                    &&& final(self).towers@.len() == old(self).towers@.len() + 1
                    &&& forall|i: int|
                        0 <= i < old(self).towers@.len() ==> #[trigger] final(self).towers@[i]
                            == old(self).towers@[i]
                    &&& final(self).towers@.last().kind == kind
                    &&& final(self).towers@.last().position == pos
                    &&& final(self).towers@.last().id == old(self).towers@.len()
                    &&& final(self).selected_tower == Some(old(self).towers@.len() as usize)
                    &&& *final(self) == (GameState {
                        towers: final(self).towers,
                        economy: final(self).economy,
                        selected_tower: final(self).selected_tower,
                        ..*old(self)
                    })
                    &&& final(self).economy == (Economy {
                        gold: final(self).economy.gold,
                        ..old(self).economy
                    })
                }
            }),
    {
        let pos = Point2D { x, y };
        let def = get_def(kind);
        let cost = def.base_cost;
        if self.towers.len() >= self.max_towers as usize {
            return false;
        }
        if self.economy.gold < cost {
            return false;
        }
        let mut i: usize = 0;
        while i < self.towers.len()
            invariant
                old(self).wf(),
                *self == *old(self),
                pos == (Point2D { x, y }),
                pos.in_bounds(),
                0 <= i <= self.towers@.len(),
                forall|j: int|
                    0 <= j < i ==> (#[trigger] self.towers@[j]).position.spec_dist_sq(pos)
                        >= 30_000 * 30_000,
            decreases self.towers@.len() - i,
        {
            let d = self.towers[i].position.dist_sq(&pos);
            if d < 30_000 * 30_000 {
                proof {
                    assert(pos == (Point2D { x, y }));
                    assert(self.towers@[i as int] == old(self).towers@[i as int]);
                    assert((old(self).towers@[i as int]).position.spec_dist_sq(
                        Point2D { x, y },
                    ) < 30_000 * 30_000);
                }
                return false;
            }
            i = i + 1;
        }
        let origin = Point2D::zero();
        proof {
            crate::geom::lemma_square_bound(
                (self.player.radius + 20_000) as int,
                2 * COORD_LIMIT as int,
            );
        }
        let guard = self.player.radius + 20_000;
        if pos.dist_sq(&origin) < guard * guard {
            return false;
        }
        self.economy.gold = self.economy.gold - cost;
        let id = self.towers.len();
        let tower = Tower::from_def(id, kind, pos);
        self.towers.push(tower);
        self.selected_tower = Some(id);
        true
    }

    /// Select the first tower whose generous click circle contains the
    /// point (a second click on the selected tower deselects it), or clear
    /// the selection on empty ground.
    pub fn try_select_at(&mut self, x: i64, y: i64)
        requires
            old(self).wf(),
            -COORD_LIMIT <= x <= COORD_LIMIT,
            -COORD_LIMIT <= y <= COORD_LIMIT,
        ensures
            final(self).wf(),
            *final(self) == (GameState { selected_tower: final(self).selected_tower, ..*old(self) }),
            ({
                let p = Point2D { x, y };
                if exists|i: int|
                    0 <= i < old(self).towers@.len() && click_hits(#[trigger] old(self).towers@[i], p) {
                    exists|i: int|
                        {
                            &&& 0 <= i < old(self).towers@.len()
                            &&& click_hits(#[trigger] old(self).towers@[i], p)
                            &&& forall|j: int|
                                0 <= j < i ==> !click_hits(#[trigger] old(self).towers@[j], p)
                            &&& final(self).selected_tower == if old(self).selected_tower
                                == Some(i as usize) {
                                None::<usize>
                            } else {
                                Some(i as usize)
                            }
                        }
                } else {
                    final(self).selected_tower is None
                }
            }),
    {
        let click_pos = Point2D { x, y };
        let mut i: usize = 0;
        while i < self.towers.len()
            invariant
                old(self).wf(),
                *self == *old(self),
                click_pos == (Point2D { x, y }),
                click_pos.in_bounds(),
                0 <= i <= self.towers@.len(),
                forall|j: int| 0 <= j < i ==> !click_hits(#[trigger] old(self).towers@[j], click_pos),
            decreases self.towers@.len() - i,
        {
            let click_radius = self.towers[i].radius + 20_000;
            proof {
                crate::geom::lemma_square_bound(click_radius as int, 2 * COORD_LIMIT as int);
            }
            if self.towers[i].position.dist_sq(&click_pos) < click_radius * click_radius {
                match self.selected_tower {
                    Some(s) if s == i => {
                        self.selected_tower = None;
                    },
                    _ => {
                        self.selected_tower = Some(i);
                    },
                }
                proof {
                    assert(click_hits(old(self).towers@[i as int], click_pos));
                }
                return ;
            }
            i = i + 1;
        }
        self.selected_tower = None;
    }

    /// Begin the queued wave at the player's request.
    pub fn start_wave(&mut self)
        requires
            old(self).wf(),
            old(self).wave_manager.current_wave < crate::wave::WAVE_LIMIT,
        ensures
            final(self).wf(),
            old(self).phase != GamePhase::Preparing ==> *final(self) == *old(self),
            old(self).phase == GamePhase::Preparing ==> {
                &&& final(self).phase == GamePhase::Active
                &&& final(self).wave_manager.current_wave == old(self).wave_manager.current_wave
                    + 1
                &&& final(self).economy.wave_number == final(self).wave_manager.current_wave
            },
    {
        if matches!(self.phase, GamePhase::Preparing) {
            self.wave_manager.start_next_wave();
            self.phase = GamePhase::Active;
            self.economy.wave_number = self.wave_manager.current_wave;
        }
    }

    /// Cycle the speed toggle through one, two and three.
    pub fn cycle_speed(&mut self)
        requires
            old(self).wf(),
        ensures
            final(self).wf(),
            final(self).speed_multiplier == match old(self).speed_multiplier {
                1u32 => 2u32,
                2u32 => 3u32,
                _ => 1u32,
            },
            *final(self) == (GameState {
                speed_multiplier: final(self).speed_multiplier,
                ..*old(self)
            }),
    {
        self.speed_multiplier = match self.speed_multiplier {
            1 => 2,
            2 => 3,
            _ => 1,
        };
    }

    /// Buy an upgrade on the active skill of one tower: rejected on a bad
    /// index, a missing or maxed property, or too little gold.
    pub fn upgrade_tower(&mut self, tower_idx: usize, upgrade_id: SkillUpgradeId) -> (r: bool)
        requires
            old(self).wf(),
        ensures
            final(self).wf(),
            r == (tower_idx < old(self).towers@.len() && match old(self).towers@[tower_idx as int].active_skill_index {
                Some(i) => old(self).towers@[tower_idx as int].upgrade_applicable(i, upgrade_id)
                    && old(self).economy.gold >= Tower::upgrade_prop_of(
                    old(self).towers@[tower_idx as int].skills@[i as int].spec_runtime().unwrap(),
                    upgrade_id,
                ).unwrap().spec_cost(),
                None => false,
            }),
            !r ==> *final(self) == *old(self),
            r ==> {
                let t0 = old(self).towers@[tower_idx as int];
                let i = t0.active_skill_index.unwrap();
                let p_old = Tower::upgrade_prop_of(
                    t0.skills@[i as int].spec_runtime().unwrap(),
                    upgrade_id,
                ).unwrap();
                &&& final(self).economy.gold == old(self).economy.gold - p_old.spec_cost()
                &&& final(self).economy == (Economy {
                    gold: final(self).economy.gold,
                    ..old(self).economy
                })
                &&& final(self).towers@.len() == old(self).towers@.len()
                &&& forall|j: int|
                    0 <= j < old(self).towers@.len() && j != tower_idx ==> #[trigger] final(self).towers@[j] == old(self).towers@[j]
                &&& Tower::upgrade_prop_of(
                    final(self).towers@[tower_idx as int].skills@[i as int].spec_runtime().unwrap(),
                    upgrade_id,
                ) == Some(
                    UpgradeableProp { current_level: (p_old.current_level + 1) as u32, ..p_old },
                )
                &&& *final(self) == (GameState {
                    towers: final(self).towers,
                    economy: final(self).economy,
                    ..*old(self)
                })
            },
    {
        if tower_idx >= self.towers.len() {
            return false;
        }
        let active_idx = match self.towers[tower_idx].active_skill_index {
            Some(i) => i,
            None => {
                return false;
            },
        };
        let cost = match self.towers[tower_idx].upgrade_cost_for_skill(active_idx, upgrade_id) {
            Some(c) => c,
            None => {
                return false;
            },
        };
        if self.economy.gold < cost {
            return false;
        }
        self.economy.gold = self.economy.gold - cost;
        let applied: bool;
        {
            let t = vstd::std_specs::vec::vec_index_mut(&mut self.towers, tower_idx);
            applied = t.apply_upgrade_to_skill(active_idx, upgrade_id);
        }
        applied
    }

    /// Buy an upgrade on a specific skill of one tower: rejected on a bad
    /// index, a missing or maxed property, or too little gold; on success
    /// the cost is paid and the property gains a level.
    pub fn upgrade_tower_skill(
        &mut self,
        tower_idx: usize,
        skill_idx: usize,
        upgrade_id: SkillUpgradeId,
    ) -> (r: bool)
        requires
            old(self).wf(),
        ensures
            final(self).wf(),
            r == (tower_idx < old(self).towers@.len() && old(self).towers@[tower_idx as int].upgrade_applicable(skill_idx, upgrade_id) && old(self).economy.gold >= Tower::upgrade_prop_of(
                old(self).towers@[tower_idx as int].skills@[skill_idx as int].spec_runtime().unwrap(),
                upgrade_id,
            ).unwrap().spec_cost()),
            !r ==> *final(self) == *old(self),
            r ==> {
                let t0 = old(self).towers@[tower_idx as int];
                let t1 = final(self).towers@[tower_idx as int];
                let p_old = Tower::upgrade_prop_of(
                    t0.skills@[skill_idx as int].spec_runtime().unwrap(),
                    upgrade_id,
                ).unwrap();
                &&& final(self).economy.gold == old(self).economy.gold - p_old.spec_cost()
                &&& final(self).economy == (Economy {
                    gold: final(self).economy.gold,
                    ..old(self).economy
                })
                &&& final(self).towers@.len() == old(self).towers@.len()
                &&& forall|j: int|
                    0 <= j < old(self).towers@.len() && j != tower_idx ==> #[trigger] final(self).towers@[j] == old(self).towers@[j]
                &&& t1.skills@.len() == 3
                &&& forall|j: int|
                    0 <= j < 3 && j != skill_idx ==> #[trigger] t1.skills@[j] == t0.skills@[j]
                &&& t1.skills@[skill_idx as int].spec_runtime() is Some
                &&& Tower::upgrade_prop_of(
                    t1.skills@[skill_idx as int].spec_runtime().unwrap(),
                    upgrade_id,
                ) == Some(
                    UpgradeableProp { current_level: (p_old.current_level + 1) as u32, ..p_old },
                )
                &&& t1.skills@[skill_idx as int] is Active == t0.skills@[skill_idx as int] is Active
                &&& t1 == (Tower { skills: t1.skills, ..t0 })
                &&& *final(self) == (GameState {
                    towers: final(self).towers,
                    economy: final(self).economy,
                    ..*old(self)
                })
            },
    {
        if tower_idx >= self.towers.len() {
            return false;
        }
        let cost = match self.towers[tower_idx].upgrade_cost_for_skill(skill_idx, upgrade_id) {
            Some(c) => c,
            None => {
                return false;
            },
        };
        if self.economy.gold < cost {
            return false;
        }
        self.economy.gold = self.economy.gold - cost;
        let applied: bool;
        {
            let t = vstd::std_specs::vec::vec_index_mut(&mut self.towers, tower_idx);
            applied = t.apply_upgrade_to_skill(skill_idx, upgrade_id);
        }
        applied
    }

    /// Buy a skill slot on one tower; the tower takes the gold itself.
    pub fn purchase_skill(&mut self, tower_idx: usize, skill_idx: usize) -> (r: bool)
        requires
            old(self).wf(),
        ensures
            final(self).wf(),
            r == (tower_idx < old(self).towers@.len() && skill_idx < 3 && !old(self).towers@[tower_idx as int].skills@[skill_idx as int].spec_is_purchased() && old(self).economy.gold >= old(self).towers@[tower_idx as int].def.skills@[skill_idx as int].purchase_cost),
            !r ==> final(self).towers@ == old(self).towers@ && final(self).economy == old(self).economy && *final(self) == (GameState { towers: final(self).towers, ..*old(self) }),
            r ==> {
                let t0 = old(self).towers@[tower_idx as int];
                let t1 = final(self).towers@[tower_idx as int];
                &&& final(self).economy.gold == old(self).economy.gold
                    - t0.def.skills@[skill_idx as int].purchase_cost
                &&& final(self).economy == (Economy {
                    gold: final(self).economy.gold,
                    ..old(self).economy
                })
                &&& final(self).towers@.len() == old(self).towers@.len()
                &&& forall|j: int|
                    0 <= j < old(self).towers@.len() && j != tower_idx ==> #[trigger] final(self).towers@[j] == old(self).towers@[j]
                &&& t1.skills@.len() == 3
                &&& forall|j: int|
                    0 <= j < 3 && j != skill_idx ==> #[trigger] t1.skills@[j] == t0.skills@[j]
                &&& t1.skills@[skill_idx as int].spec_is_purchased()
                &&& match t1.skills@[skill_idx as int].spec_runtime() {
                    Some(rt) => crate::tower::fresh_runtime(rt, t0.def.skills@[skill_idx as int])
                        && forall|j: int, k: int|
                        0 <= j < rt.action_states@.len() && 0 <= k
                            < rt.action_states@[j].upgrades@.len() ==> (
                        #[trigger] rt.action_states@[j].upgrades@[k]).current_level == 0,
                    None => false,
                }
                &&& if t0.active_skill_index is None {
                    t1.skills@[skill_idx as int] is Active && t1.active_skill_index == Some(
                        skill_idx,
                    )
                } else {
                    t1.skills@[skill_idx as int] is Purchased && t1.active_skill_index
                        == t0.active_skill_index
                }
                &&& t1 == (Tower {
                    skills: t1.skills,
                    active_skill_index: t1.active_skill_index,
                    ..t0
                })
                &&& *final(self) == (GameState {
                    towers: final(self).towers,
                    economy: final(self).economy,
                    ..*old(self)
                })
            },
    {
        if tower_idx >= self.towers.len() {
            return false;
        }
        let mut gold = self.economy.gold;
        let applied: bool;
        {
            let t = vstd::std_specs::vec::vec_index_mut(&mut self.towers, tower_idx);
            applied = t.purchase_skill(skill_idx, &mut gold);
        }
        self.economy.gold = gold;
        proof {
            if !applied {
                assert(self.towers@ =~= old(self).towers@);
            }
        }
        applied
    }

    /// Make a purchased skill the active one on a tower.
    pub fn activate_skill(&mut self, tower_idx: usize, skill_idx: usize) -> (r: bool)
        requires
            old(self).wf(),
        ensures
            final(self).wf(),
            r == (tower_idx < old(self).towers@.len() && skill_idx < 3 && old(self).towers@[tower_idx as int].skills@[skill_idx as int].spec_is_purchased()),
            !r ==> final(self).towers@ == old(self).towers@ && *final(self) == (GameState {
                towers: final(self).towers,
                ..*old(self)
            }),
            r ==> {
                let t0 = old(self).towers@[tower_idx as int];
                let t1 = final(self).towers@[tower_idx as int];
                &&& final(self).towers@.len() == old(self).towers@.len()
                &&& forall|j: int|
                    0 <= j < old(self).towers@.len() && j != tower_idx ==> #[trigger] final(self).towers@[j] == old(self).towers@[j]
                &&& t1.active_skill_index == Some(skill_idx)
                &&& t1.skills@.len() == 3
                &&& (t0.skills@[skill_idx as int] is Active ==> t1 == t0)
                &&& (t0.skills@[skill_idx as int] is Purchased ==> {
                    &&& t1.skills@[skill_idx as int] == SkillState::Active(
                        t0.skills@[skill_idx as int].spec_runtime().unwrap(),
                    )
                    &&& forall|j: int|
                        0 <= j < 3 && j != skill_idx ==> #[trigger] t1.skills@[j] == if t0.skills@[j] is Active {
                            SkillState::Purchased(t0.skills@[j].spec_runtime().unwrap())
                        } else {
                            t0.skills@[j]
                        }
                    &&& t1 == (Tower {
                        skills: t1.skills,
                        active_skill_index: t1.active_skill_index,
                        ..t0
                    })
                })
                &&& *final(self) == (GameState { towers: final(self).towers, ..*old(self) })
            },
    {
        if tower_idx >= self.towers.len() {
            return false;
        }
        let applied: bool;
        {
            let t = vstd::std_specs::vec::vec_index_mut(&mut self.towers, tower_idx);
            applied = t.activate_skill(skill_idx);
        }
        proof {
            if !applied {
                assert(self.towers@ =~= old(self).towers@);
            }
            if applied && old(self).towers@[tower_idx as int].skills@[skill_idx as int] is Active {
                assert(self.towers@ =~= old(self).towers@);
            }
        }
        applied
    }

    /// Sell a tower: half its total investment comes back, rounded down,
    /// and the tower leaves the field.
    pub fn sell_tower(&mut self, tower_idx: usize)
        requires
            old(self).wf(),
        ensures
            final(self).wf(),
            tower_idx >= old(self).towers@.len() ==> *final(self) == *old(self),
            tower_idx < old(self).towers@.len() ==> {
                &&& final(self).economy.gold == spec_u32_add(
                    old(self).economy.gold as int,
                    old(self).towers@[tower_idx as int].spec_sell_value(),
                )
                &&& final(self).towers@ == old(self).towers@.remove(tower_idx as int)
                &&& final(self).selected_tower is None
                &&& *final(self) == (GameState {
                    towers: final(self).towers,
                    economy: final(self).economy,
                    selected_tower: final(self).selected_tower,
                    ..*old(self)
                })
                &&& final(self).economy == (Economy {
                    gold: final(self).economy.gold,
                    ..old(self).economy
                })
            },
    {
        if tower_idx >= self.towers.len() {
            return ;
        }
        let value = self.towers[tower_idx].sell_value();
        self.economy.gold = u32_add(self.economy.gold, value);
        self.towers.remove(tower_idx);
        self.selected_tower = None;
    }

    /// Price of relocating a tower: a quarter of its sale value, rounded
    /// up.
    pub fn move_cost(&self, tower_idx: usize) -> (r: u32)
        requires
            self.wf(),
        ensures
            tower_idx >= self.towers@.len() ==> r == 0,
            tower_idx < self.towers@.len() ==> r == (self.towers@[tower_idx as int].spec_sell_value() + 3) / 4,
    {
        if tower_idx >= self.towers.len() {
            return 0;
        }
        (self.towers[tower_idx].sell_value() + 3) / 4
    }

    /// Move a tower to a new spot: rejected on a bad index, too little
    /// gold, a spot too close to another tower, or one on top of the
    /// player; on success the fee is paid and the tower stands at the new
    /// position.
    pub fn try_move_tower(&mut self, tower_idx: usize, x: i64, y: i64) -> (r: bool)
        requires
            old(self).wf(),
            -COORD_LIMIT <= x <= COORD_LIMIT,
            -COORD_LIMIT <= y <= COORD_LIMIT,
        ensures
            final(self).wf(),
            ({
                let pos = Point2D { x, y };
                let fee = (old(self).towers@[tower_idx as int].spec_sell_value() + 3) / 4;
                let collision = exists|i: int|
                    0 <= i < old(self).towers@.len() && i != tower_idx && (#[trigger] old(self).towers@[i]).position.spec_dist_sq(pos) < 30_000 * 30_000;
                let on_player = pos.spec_dist_sq(Point2D { x: 0, y: 0 }) < (old(self).player.radius
                    + 20_000) * (old(self).player.radius + 20_000);
                &&& r == (tower_idx < old(self).towers@.len() && old(self).economy.gold >= fee
                    && !collision && !on_player)
                &&& (tower_idx >= old(self).towers@.len() || (tower_idx < old(self).towers@.len()
                    && old(self).economy.gold < fee) ==> *final(self) == (GameState {
                    move_mode: None,
                    ..*old(self)
                }))
                &&& (!r && tower_idx < old(self).towers@.len() && old(self).economy.gold >= fee
                    ==> *final(self) == *old(self))
                &&& (r ==> {
                    &&& final(self).economy.gold == old(self).economy.gold - fee
                    &&& final(self).economy == (Economy {
                        gold: final(self).economy.gold,
                        ..old(self).economy
                    })
                    &&& final(self).towers@.len() == old(self).towers@.len()
                    &&& forall|j: int|
                        0 <= j < old(self).towers@.len() && j != tower_idx ==> #[trigger] final(self).towers@[j] == old(self).towers@[j]
                    &&& final(self).towers@[tower_idx as int] == (Tower {
                        position: pos,
                        ..old(self).towers@[tower_idx as int]
                    })
                    &&& final(self).move_mode is None
                    &&& final(self).selected_tower is None
                    &&& *final(self) == (GameState {
                        towers: final(self).towers,
                        economy: final(self).economy,
                        move_mode: None,
                        selected_tower: None,
                        ..*old(self)
                    })
                })
            }),
    {
        if tower_idx >= self.towers.len() {
            self.move_mode = None;
            return false;
        }
        let cost = self.move_cost(tower_idx);
        if self.economy.gold < cost {
            self.move_mode = None;
            return false;
        }
        let new_pos = Point2D { x, y };
        let mut i: usize = 0;
        while i < self.towers.len()
            invariant
                old(self).wf(),
                *self == *old(self),
                new_pos == (Point2D { x, y }),
                new_pos.in_bounds(),
                tower_idx < self.towers@.len(),
                (old(self).towers@[tower_idx as int].spec_sell_value() + 3) / 4 <= old(self).economy.gold,
                0 <= i <= self.towers@.len(),
                forall|j: int|
                    0 <= j < i && j != tower_idx ==> (#[trigger] old(self).towers@[j]).position.spec_dist_sq(new_pos) >= 30_000 * 30_000,
            decreases self.towers@.len() - i,
        {
            if i != tower_idx {
                let d = self.towers[i].position.dist_sq(&new_pos);
                if d < 30_000 * 30_000 {
                    proof {
                        assert((old(self).towers@[i as int]).position.spec_dist_sq(
                            Point2D { x, y },
                        ) < 30_000 * 30_000);
                    }
                    return false;
                }
            }
            i = i + 1;
        }
        let origin = Point2D::zero();
        proof {
            crate::geom::lemma_square_bound(
                (self.player.radius + 20_000) as int,
                2 * COORD_LIMIT as int,
            );
        }
        let guard = self.player.radius + 20_000;
        if new_pos.dist_sq(&origin) < guard * guard {
            return false;
        }
        self.economy.gold = self.economy.gold - cost;
        let t = vstd::std_specs::vec::vec_index_mut(&mut self.towers, tower_idx);
        t.position = new_pos;
        self.move_mode = None;
        self.selected_tower = None;
        true
    }
}

/// One projectile impact waiting to be applied: the primary target index,
/// the carried actions, and where the impact happened.
pub struct Hit {
    pub enemy_idx: usize,
    pub actions: Vec<ResolvedAction>,
    pub element: TowerElement,
    pub pos: Point2D,
    pub origin: Point2D,
}

impl Hit {
    pub open spec fn wf(self) -> bool {
        &&& self.pos.in_bounds()
        &&& self.origin.in_bounds()
        &&& forall|i: int| 0 <= i < self.actions@.len() ==> resolved_ok(#[trigger] self.actions@[i])
    }
}

pub open spec fn hits_wf(hits: Seq<Hit>) -> bool {
    forall|i: int| 0 <= i < hits.len() ==> (#[trigger] hits[i]).wf()
}

/// Total damage one hit deals capped at the representable bound.
fn add_damage(a: i64, b: i64) -> (r: i64)
    requires
        0 <= a <= crate::units::DAMAGE_LIMIT,
        0 <= b <= crate::units::DAMAGE_LIMIT,
    ensures
        0 <= r <= crate::units::DAMAGE_LIMIT,
        r == spec_max_i64(0, crate::units::spec_min_i64(a + b, crate::units::DAMAGE_LIMIT as int)),
{
    let v = a + b;
    if v > crate::units::DAMAGE_LIMIT {
        crate::units::DAMAGE_LIMIT
    } else {
        v
    }
}

/// First enemy with the given identifier.
fn find_enemy_by_id(enemies: &Vec<Enemy>, id: usize) -> (r: Option<usize>)
    ensures
        match r {
            Some(i) => i < enemies@.len() && enemies@[i as int].id == id,
            None => true,
        },
{
    let mut i: usize = 0;
    while i < enemies.len()
        invariant
            0 <= i <= enemies@.len(),
        decreases enemies@.len() - i,
    {
        if enemies[i].id == id {
            return Some(i);
        }
        i = i + 1;
    }
    None
}

impl GameState {
    /// The full per-frame step. A finished game never changes; otherwise
    /// the sixteen phases run in their fixed order: wave progress, shield
    /// regeneration, passive gold, enemy movement and attacks, player and
    /// tower attacks, projectile motion, hit application, status ticking,
    /// tower passives, impact zones, the death sweep, pruning, contact
    /// damage, and the game-over check.
    pub fn tick(&mut self, dt: i64)
        requires
            old(self).wf(),
            0 < dt <= DT_LIMIT,
        ensures
            final(self).wf(),
            old(self).phase == GamePhase::GameOver ==> *final(self) == *old(self),
            old(self).phase != GamePhase::GameOver ==> {
                &&& final(self).economy.score >= old(self).economy.score
                &&& final(self).economy.pepites >= old(self).economy.pepites
                &&& final(self).economy.gold >= old(self).economy.gold
                // Dead enemies never survive the frame's death sweep: every
                // enemy still standing afterwards has health left.
                &&& forall|i: int|
                    0 <= i < final(self).enemies@.len() ==> (#[trigger] final(self).enemies@[i]).hp > 0
                // A run that ends this frame clamps the player to zero and
                // merges the session into the persistent record...
                &&& (final(self).phase == GamePhase::GameOver ==> final(self).player.hp == 0
                    && final(self).save_data.pepites == spec_u32_add(
                    old(self).save_data.pepites as int,
                    final(self).economy.pepites as int,
                ) && final(self).save_data.best_score == spec_max_i64(
                    old(self).save_data.best_score as int,
                    final(self).economy.score as int,
                ) && final(self).save_data.max_wave == spec_max_i64(
                    old(self).save_data.max_wave as int,
                    final(self).economy.wave_number as int,
                ))
                // ...and one that does not leaves the record untouched.
                &&& (final(self).phase != GamePhase::GameOver ==> final(self).save_data == old(self).save_data)
                // A wave whose queue and field start the frame empty
                // completes: the reward is paid and the pause begins.
                &&& (old(self).phase == GamePhase::Active && old(self).wave_manager.wave_active
                    && old(self).wave_manager.enemies_to_spawn@.len() == 0 && old(self).enemies@.len() == 0 ==> final(self).economy.gold >= spec_u32_add(
                    old(self).economy.gold as int,
                    100 + 50 * old(self).wave_manager.current_wave,
                ) && (final(self).phase == GamePhase::Preparing || final(self).phase
                    == GamePhase::GameOver))
                // An elapsed between-wave countdown starts the next wave.
                &&& (old(self).phase == GamePhase::Preparing && spec_max_i64(
                    old(self).wave_manager.between_waves_timer - dt,
                    -DURATION_LIMIT as int,
                ) <= 0 && old(self).wave_manager.current_wave < crate::wave::WAVE_LIMIT ==> {
                    &&& final(self).wave_manager.current_wave == old(self).wave_manager.current_wave + 1
                    &&& final(self).economy.wave_number == old(self).wave_manager.current_wave
                        + 1
                    &&& final(self).phase == GamePhase::Active || final(self).phase
                        == GamePhase::GameOver
                })
            },
    {
        if matches!(self.phase, GamePhase::GameOver) {
            return ;
        }
        self.elapsed = if self.elapsed <= i64::MAX - dt {
            self.elapsed + dt
        } else {
            self.elapsed
        };
        self.phase_waves(dt);
        self.phase_shield_regen(dt);
        self.phase_passive_gold(dt);
        self.phase_enemy_movement(dt);
        self.phase_enemy_attacks(dt);
        self.phase_player_attack(dt);
        self.phase_tower_attacks(dt);
        let (player_damage, hits) = self.phase_projectiles(dt);
        self.player.hp = hp_sub(self.player.hp, player_damage);
        self.phase_apply_hits(hits);
        self.phase_tick_states(dt);
        self.phase_tower_passives(dt);
        self.phase_impact_auras(dt);
        self.phase_remove_dead();
        self.phase_prune(dt);
        self.phase_contact_damage();
        self.phase_game_over();
    }

    /// Wave progress: spawn from the queue while a wave runs and close it
    /// out with a completion reward; count down and auto-start the next
    /// wave between waves.
    fn phase_waves(&mut self, dt: i64)
        requires
            old(self).wf(),
            0 < dt <= DT_LIMIT,
        ensures
            final(self).wf(),
            final(self).economy == (Economy {
                gold: final(self).economy.gold,
                wave_number: final(self).economy.wave_number,
                ..old(self).economy
            }),
            final(self).economy.gold >= old(self).economy.gold,
            *final(self) == (GameState {
                wave_manager: final(self).wave_manager,
                enemies: final(self).enemies,
                economy: final(self).economy,
                phase: final(self).phase,
                ..*old(self)
            }),
            old(self).phase != GamePhase::GameOver ==> final(self).phase != GamePhase::GameOver,
            old(self).phase == GamePhase::Active ==> final(self).phase == GamePhase::Active
                || final(self).phase == GamePhase::Preparing,
            // A wave whose queue and field are already empty completes now:
            // the reward is paid and the between-wave pause starts.
            old(self).phase == GamePhase::Active && old(self).wave_manager.wave_active && old(self).wave_manager.enemies_to_spawn@.len() == 0 && old(self).enemies@.len() == 0 ==> {
                &&& final(self).phase == GamePhase::Preparing
                &&& final(self).economy.gold == spec_u32_add(
                    old(self).economy.gold as int,
                    100 + 50 * old(self).wave_manager.current_wave,
                )
                &&& !final(self).wave_manager.wave_active
                &&& final(self).wave_manager.current_wave == old(self).wave_manager.current_wave
            },
            // Between waves the countdown runs, and on elapse the next wave
            // starts by itself.
            old(self).phase == GamePhase::Preparing ==> {
                &&& final(self).enemies@ == old(self).enemies@
                &&& final(self).economy.gold == old(self).economy.gold
                &&& (crate::units::spec_max_i64(
                    old(self).wave_manager.between_waves_timer - dt,
                    -DURATION_LIMIT as int,
                ) <= 0 && old(self).wave_manager.current_wave < crate::wave::WAVE_LIMIT ==> {
                    &&& final(self).phase == GamePhase::Active
                    &&& final(self).wave_manager.current_wave == old(self).wave_manager.current_wave + 1
                    &&& final(self).economy.wave_number == old(self).wave_manager.current_wave
                        + 1
                })
            },
    {
        if matches!(self.phase, GamePhase::Active) {
            let new_enemies = self.wave_manager.tick(dt, self.viewport_size);
            let ghost after_spawn_tick = *self;
            let mut spawned = new_enemies;
            let ghost spawned0 = spawned@;
            while spawned.len() > 0
                invariant
                    old(self).wf(),
                    enemies_wf(self.enemies@),
                    self.wave_manager.wf(),
                    forall|i: int| 0 <= i < spawned@.len() ==> (#[trigger] spawned@[i]).wf(),
                    *self == (GameState {
                        enemies: self.enemies,
                        wave_manager: self.wave_manager,
                        ..*old(self)
                    }),
                    self.wave_manager == after_spawn_tick.wave_manager,
                    self.enemies@.len() + spawned@.len() == after_spawn_tick.enemies@.len()
                        + spawned0.len(),
                decreases spawned@.len(),
            {
                let e = spawned.remove(0);
                self.enemies.push(e);
            }
            if self.wave_manager.is_wave_complete() && self.enemies.len() == 0 {
                self.phase = GamePhase::Preparing;
                // Completion reward: one hundred gold plus fifty per wave.
                let bonus = 100 + self.wave_manager.current_wave * 50;
                self.economy.gold = u32_add(self.economy.gold, bonus);
                self.wave_manager.start_between_waves();
            }
        } else if matches!(self.phase, GamePhase::Preparing) {
            if self.wave_manager.tick_between_waves(dt) {
                if self.wave_manager.current_wave < crate::wave::WAVE_LIMIT {
                    self.wave_manager.start_next_wave();
                    self.phase = GamePhase::Active;
                    self.economy.wave_number = self.wave_manager.current_wave;
                }
            }
        }
    }

    /// Shield regeneration: a downed but unlocked shield counts toward
    /// coming back at full strength.
    fn phase_shield_regen(&mut self, dt: i64)
        requires
            old(self).wf(),
            0 < dt <= DT_LIMIT,
        ensures
            final(self).wf(),
            final(self).shield.max_hp == old(self).shield.max_hp,
            *final(self) == (GameState { shield: final(self).shield, ..*old(self) }),
            old(self).shield.max_hp > 0 && !old(self).shield.active ==> {
                &&& final(self).shield.regen_timer == spec_max_i64(
                    old(self).shield.regen_timer - dt,
                    -DURATION_LIMIT as int,
                )
                &&& (final(self).shield.regen_timer <= 0 <==> final(self).shield.active && final(self).shield.hp == final(self).shield.max_hp)
            },
            !(old(self).shield.max_hp > 0 && !old(self).shield.active) ==> final(self).shield
                == old(self).shield,
    {
        if self.shield.max_hp > 0 && !self.shield.active {
            let next = self.shield.regen_timer - dt;
            self.shield.regen_timer = if next < -DURATION_LIMIT {
                -DURATION_LIMIT
            } else {
                next
            };
            if self.shield.regen_timer <= 0 {
                self.shield.active = true;
                self.shield.hp = self.shield.max_hp;
                self.shield.low_hp_notified = false;
            }
        }
    }

    /// Passive gold: each tower whose active skill generates gold pays its
    /// floor amount once per whole second crossed, with a pulse.
    fn phase_passive_gold(&mut self, dt: i64)
        requires
            old(self).wf(),
            0 < dt <= DT_LIMIT,
        ensures
            final(self).wf(),
            final(self).economy.gold >= old(self).economy.gold,
            final(self).economy == (Economy {
                gold: final(self).economy.gold,
                ..old(self).economy
            }),
            *final(self) == (GameState {
                towers: final(self).towers,
                economy: final(self).economy,
                gold_pulses: final(self).gold_pulses,
                ..*old(self)
            }),
    {
        let mut idx: usize = 0;
        while idx < self.towers.len()
            invariant
                old(self).wf(),
                self.wf(),
                0 < dt <= DT_LIMIT,
                0 <= idx <= self.towers@.len(),
                self.towers@.len() == old(self).towers@.len(),
                self.economy.gold >= old(self).economy.gold,
                self.economy == (Economy { gold: self.economy.gold, ..old(self).economy }),
                *self == (GameState {
                    towers: self.towers,
                    economy: self.economy,
                    gold_pulses: self.gold_pulses,
                    ..*old(self)
                }),
            decreases self.towers@.len() - idx,
        {
            let resolved = self.towers[idx].resolved_actions();
            let mut a: usize = 0;
            while a < resolved.len()
                invariant
                    old(self).wf(),
                    self.wf(),
                    0 < dt <= DT_LIMIT,
                    idx < self.towers@.len(),
                    self.towers@.len() == old(self).towers@.len(),
                    forall|i: int| 0 <= i < resolved@.len() ==> resolved_ok(#[trigger] resolved@[i]),
                    0 <= a <= resolved@.len(),
                    self.economy.gold >= old(self).economy.gold,
                    self.economy == (Economy { gold: self.economy.gold, ..old(self).economy }),
                    *self == (GameState {
                        towers: self.towers,
                        economy: self.economy,
                        gold_pulses: self.gold_pulses,
                        ..*old(self)
                    }),
                decreases resolved@.len() - a,
            {
                if let ResolvedAction::GoldGen { gold_per_second } = resolved[a] {
                    let acc = self.towers[idx].gold_accumulator;
                    let next = acc + dt;
                    if next >= 1000 {
                        proof {
                            crate::units::lemma_div_le(
                                gold_per_second as int,
                                AMOUNT_LIMIT as int,
                                1000,
                            );
                            crate::units::lemma_div_le(0, gold_per_second as int, 1000);
                        }
                        let gold_earned = (gold_per_second / 1000) as u32;
                        self.economy.gold = u32_add(self.economy.gold, gold_earned);
                        let pulse_pos = self.towers[idx].position;
                        self.gold_pulses.push(
                            GoldPulse {
                                position: pulse_pos,
                                radius: 0,
                                max_radius: 40_000,
                                lifetime: 500,
                                max_lifetime: 500,
                            },
                        );
                        let t = vstd::std_specs::vec::vec_index_mut(&mut self.towers, idx);
                        t.gold_accumulator = next % 1000;
                    } else {
                        let t = vstd::std_specs::vec::vec_index_mut(&mut self.towers, idx);
                        t.gold_accumulator = next;
                    }
                }
                a = a + 1;
            }
            idx = idx + 1;
        }
    }

    /// Enemy movement and timers, blocked while stunned, stopping at the
    /// shield when it is up and at attack range otherwise.
    fn phase_enemy_movement(&mut self, dt: i64)
        requires
            old(self).wf(),
            0 < dt <= DT_LIMIT,
        ensures
            final(self).wf(),
            final(self).enemies@.len() == old(self).enemies@.len(),
            *final(self) == (GameState { enemies: final(self).enemies, ..*old(self) }),
    {
        let center = Point2D::zero();
        let shield_stop: Option<i64> = if self.shield.active {
            Some(self.shield.radius)
        } else {
            None
        };
        let mut i: usize = 0;
        while i < self.enemies.len()
            invariant
                old(self).wf(),
                enemies_wf(self.enemies@),
                self.enemies@.len() == old(self).enemies@.len(),
                0 < dt <= DT_LIMIT,
                center.in_bounds(),
                match shield_stop {
                    Some(r) => 0 <= r <= COORD_LIMIT,
                    None => true,
                },
                0 <= i <= self.enemies@.len(),
                *self == (GameState { enemies: self.enemies, ..*old(self) }),
            decreases self.enemies@.len() - i,
        {
            let e = vstd::std_specs::vec::vec_index_mut(&mut self.enemies, i);
            e.tick(dt, &center, shield_stop);
            i = i + 1;
        }
    }

    /// Enemy attacks: each unstunned enemy in range of the shield (when
    /// up) or the player fires a fixed-damage homing projectile.
    fn phase_enemy_attacks(&mut self, dt: i64)
        requires
            old(self).wf(),
            0 < dt <= DT_LIMIT,
        ensures
            final(self).wf(),
            final(self).enemies@.len() == old(self).enemies@.len(),
            *final(self) == (GameState {
                enemies: final(self).enemies,
                projectiles: final(self).projectiles,
                ..*old(self)
            }),
    {
        let player_pos = self.player.position;
        let attack_target_radius: i64 = if self.shield.active {
            self.shield.radius
        } else {
            0
        };
        let mut i: usize = 0;
        while i < self.enemies.len()
            invariant
                old(self).wf(),
                enemies_wf(self.enemies@),
                projectiles_wf(self.projectiles@),
                self.enemies@.len() == old(self).enemies@.len(),
                0 < dt <= DT_LIMIT,
                player_pos.in_bounds(),
                0 <= attack_target_radius <= COORD_LIMIT,
                0 <= i <= self.enemies@.len(),
                *self == (GameState {
                    enemies: self.enemies,
                    projectiles: self.projectiles,
                    ..*old(self)
                }),
            decreases self.enemies@.len() - i,
        {
            let e = vstd::std_specs::vec::vec_index_mut(&mut self.enemies, i);
            let shot = e.try_attack(&player_pos, attack_target_radius, dt);
            match shot {
                Some(proj) => {
                    self.projectiles.push(proj);
                },
                None => {},
            }
            i = i + 1;
        }
    }

    /// Player auto-attack at the nearest enemy in range.
    fn phase_player_attack(&mut self, dt: i64)
        requires
            old(self).wf(),
            0 < dt <= DT_LIMIT,
        ensures
            final(self).wf(),
            *final(self) == (GameState {
                player: final(self).player,
                projectiles: final(self).projectiles,
                ..*old(self)
            }),
    {
        let next_cd = self.player.attack_cooldown - dt;
        self.player.attack_cooldown = if next_cd < -DURATION_LIMIT {
            -DURATION_LIMIT
        } else {
            next_cd
        };
        if self.player.attack_cooldown <= 0 {
            match crate::targeting::find_nearest_in_range(
                &self.player.position,
                self.player.attack_range,
                &self.enemies,
            ) {
                Some(target_idx) => {
                    self.player.attack_cooldown = 1_000_000 / self.player.attack_speed;
                    proof {
                        crate::units::lemma_div_le(
                            1_000_000,
                            1_000_000,
                            self.player.attack_speed as int,
                        );
                    }
                    let target_pos = self.enemies[target_idx].position;
                    let target_id = self.enemies[target_idx].id;
                    let mut actions: Vec<ResolvedAction> = Vec::new();
                    actions.push(
                        ResolvedAction::ApplyDamage {
                            target: EffectTarget::Single,
                            damage: ResolvedDamage::Fixed(self.player.attack_damage),
                        },
                    );
                    self.projectiles.push(
                        Projectile {
                            origin: self.player.position,
                            target_pos,
                            current_pos: self.player.position,
                            speed: 400_000,
                            element: self.player.element,
                            source: ProjectileSource::Player,
                            actions,
                            lifetime: 3000,
                            target_enemy_id: Some(target_id),
                            fade_timer: None,
                            size: 4000,
                        },
                    );
                },
                None => {},
            }
        }
    }

    /// Tower auto-attacks: each tower with a live firing skill off
    /// cooldown picks its targets by priority and fires one projectile per
    /// target carrying the resolved action list.
    fn phase_tower_attacks(&mut self, dt: i64)
        requires
            old(self).wf(),
            0 < dt <= DT_LIMIT,
        ensures
            final(self).wf(),
            *final(self) == (GameState {
                towers: final(self).towers,
                projectiles: final(self).projectiles,
                ..*old(self)
            }),
    {
        let mut idx: usize = 0;
        while idx < self.towers.len()
            invariant
                old(self).wf(),
                towers_wf(self.towers@),
                projectiles_wf(self.projectiles@),
                enemies_wf(self.enemies@),
                self.towers@.len() == old(self).towers@.len(),
                0 < dt <= DT_LIMIT,
                0 <= idx <= self.towers@.len(),
                *self == (GameState {
                    towers: self.towers,
                    projectiles: self.projectiles,
                    ..*old(self)
                }),
            decreases self.towers@.len() - idx,
        {
            {
                let t = vstd::std_specs::vec::vec_index_mut(&mut self.towers, idx);
                let next_cd = t.attack_cooldown - dt;
                t.attack_cooldown = if next_cd < -DURATION_LIMIT {
                    -DURATION_LIMIT
                } else {
                    next_cd
                };
            }
            if self.towers[idx].attack_cooldown <= 0 {
                let tower_pos = self.towers[idx].position;
                let tower_range = self.towers[idx].attack_range();
                let tower_priority = self.towers[idx].target_priority;
                let found = crate::targeting::find_target_in_range(
                    &tower_pos,
                    tower_range,
                    &self.enemies,
                    tower_priority,
                );
                if found.is_some() {
                    let resolved = self.towers[idx].resolved_actions();
                    let element = self.towers[idx].element;
                    let proj_size = self.towers[idx].projectile_size();
                    let speed_val = self.towers[idx].attack_speed_value();
                    if speed_val > 0 {
                        {
                            let t = vstd::std_specs::vec::vec_index_mut(&mut self.towers, idx);
                            t.attack_cooldown = 1_000_000 / speed_val;
                            proof {
                                crate::units::lemma_div_le(1_000_000, 1_000_000, speed_val as int);
                            }
                        }
                        let max_targets = max_targets_of(&resolved);
                        let target_indices = crate::targeting::find_n_targets_in_range(
                            &tower_pos,
                            tower_range,
                            max_targets,
                            &self.enemies,
                            tower_priority,
                        );
                        let mut ti: usize = 0;
                        while ti < target_indices.len()
                            invariant
                                old(self).wf(),
                                towers_wf(self.towers@),
                                projectiles_wf(self.projectiles@),
                                enemies_wf(self.enemies@),
                                self.towers@.len() == old(self).towers@.len(),
                                idx < self.towers@.len(),
                                tower_pos.in_bounds(),
                                0 <= proj_size <= COORD_LIMIT,
                                forall|x: int|
                                    0 <= x < resolved@.len() ==> resolved_ok(
                                        #[trigger] resolved@[x],
                                    ),
                                forall|x: int|
                                    0 <= x < target_indices@.len()
                                        ==> #[trigger] target_indices@[x] < self.enemies@.len(),
                                0 <= ti <= target_indices@.len(),
                                *self == (GameState {
                                    towers: self.towers,
                                    projectiles: self.projectiles,
                                    ..*old(self)
                                }),
                            decreases target_indices@.len() - ti,
                        {
                            let t_idx = target_indices[ti];
                            let target_pos = self.enemies[t_idx].position;
                            let target_id = self.enemies[t_idx].id;
                            let carried = copy_actions(&resolved);
                            self.projectiles.push(
                                Projectile {
                                    origin: tower_pos,
                                    target_pos,
                                    current_pos: tower_pos,
                                    speed: 350_000,
                                    element,
                                    source: ProjectileSource::Tower(idx),
                                    actions: carried,
                                    lifetime: 3000,
                                    target_enemy_id: Some(target_id),
                                    fade_timer: None,
                                    size: proj_size,
                                },
                            );
                            ti = ti + 1;
                        }
                    }
                }
            }
            idx = idx + 1;
        }
    }
}

impl GameState {
    /// Projectile motion and collision: homing updates, movement toward
    /// the target, then impact tests; impacts queue hit records (tower and
    /// player shots) or damage the shield and then the player (enemy
    /// shots). Spent projectiles start fading rather than vanish.
    #[verifier::rlimit(50)]
    fn phase_projectiles(&mut self, dt: i64) -> (r: (i64, Vec<Hit>))
        requires
            old(self).wf(),
            0 < dt <= DT_LIMIT,
        ensures
            final(self).wf(),
            0 <= r.0 <= crate::units::DAMAGE_LIMIT,
            hits_wf(r.1@),
            forall|i: int|
                0 <= i < r.1@.len() ==> (#[trigger] r.1@[i]).actions@.len() <= 64,
            *final(self) == (GameState {
                projectiles: final(self).projectiles,
                shield: final(self).shield,
                ..*old(self)
            }),
    {
        let mut player_damage: i64 = 0;
        let mut hits: Vec<Hit> = Vec::new();
        let mut i: usize = 0;
        while i < self.projectiles.len()
            invariant
                old(self).wf(),
                projectiles_wf(self.projectiles@),
                enemies_wf(self.enemies@),
                self.shield.wf(),
                self.player.wf(),
                0 < dt <= DT_LIMIT,
                0 <= i <= self.projectiles@.len(),
                self.projectiles@.len() == old(self).projectiles@.len(),
                0 <= player_damage <= crate::units::DAMAGE_LIMIT,
                hits_wf(hits@),
                forall|x: int| 0 <= x < hits@.len() ==> (#[trigger] hits@[x]).actions@.len() <= 64,
                *self == (GameState {
                    projectiles: self.projectiles,
                    shield: self.shield,
                    ..*old(self)
                }),
            decreases self.projectiles@.len() - i,
        {
            let fading = self.projectiles[i].fade_timer.is_some();
            if fading {
                let p = vstd::std_specs::vec::vec_index_mut(&mut self.projectiles, i);
                match p.fade_timer {
                    Some(f) => {
                        let nf = if f - dt < -DURATION_LIMIT {
                            -DURATION_LIMIT
                        } else {
                            f - dt
                        };
                        p.fade_timer = Some(nf);
                    },
                    None => {},
                }
                i = i + 1;
                continue ;
            }
            // Homing: track the target enemy while it lives.
            match self.projectiles[i].target_enemy_id {
                Some(target_id) => {
                    match find_enemy_by_id(&self.enemies, target_id) {
                        Some(e_idx) => {
                            let new_target = self.enemies[e_idx].position;
                            let p = vstd::std_specs::vec::vec_index_mut(
                                &mut self.projectiles,
                                i,
                            );
                            p.target_pos = new_target;
                        },
                        None => {},
                    }
                },
                None => {},
            }
            // Movement toward the (possibly updated) target.
            let cur = self.projectiles[i].current_pos;
            let tgt = self.projectiles[i].target_pos;
            let d2 = cur.dist_sq(&tgt);
            if d2 > 1_000_000 {
                let dist = crate::geom::isqrt(d2);
                proof {
                    if dist < 1000 {
                        assert((dist + 1) * (dist + 1) <= 1000 * 1000) by (nonlinear_arith)
                            requires
                                0 <= dist,
                                dist + 1 <= 1000,
                        ;
                    }
                    crate::geom::lemma_mul_le(
                        self.projectiles@[i as int].speed as int,
                        dt as int,
                        crate::units::SPEED_LIMIT as int,
                        DT_LIMIT as int,
                    );
                    crate::units::lemma_div_le(
                        self.projectiles@[i as int].speed as int * dt as int,
                        crate::units::SPEED_LIMIT as int * DT_LIMIT as int,
                        1000,
                    );
                }
                let step = self.projectiles[i].speed * dt / 1000;
                let moved = crate::geom::move_toward(&cur, &tgt, step, dist);
                let p = vstd::std_specs::vec::vec_index_mut(&mut self.projectiles, i);
                p.current_pos = moved;
            }
            // Impact test, by who fired the projectile.
            let mut hit: bool = false;
            let source = self.projectiles[i].source;
            let now = self.projectiles[i].current_pos;
            match source {
                ProjectileSource::Player | ProjectileSource::Tower(_) => {
                    match first_enemy_hit(&self.enemies, &now) {
                        Some(e_idx) => {
                            let carried = copy_actions(&self.projectiles[i].actions);
                            let element = self.projectiles[i].element;
                            let origin = self.projectiles[i].origin;
                            if carried.len() <= 64 {
                                hits.push(
                                    Hit { enemy_idx: e_idx, actions: carried, element, pos: now, origin },
                                );
                            }
                            hit = true;
                        },
                        None => {},
                    }
                },
                ProjectileSource::Enemy(_) => {
                    let damage = fixed_damage_sum(&self.projectiles[i].actions);
                    if self.shield.active {
                        let guard = self.shield.radius + 5_000;
                        proof {
                            crate::geom::lemma_square_bound(guard as int, 2 * COORD_LIMIT as int);
                        }
                        if now.dist_sq(&self.player.position) < guard * guard {
                            self.shield.hp = hp_sub(self.shield.hp, damage);
                            if !self.shield.low_hp_notified && self.shield.hp > 0 && self.shield.hp
                                * 4 <= self.shield.max_hp {
                                if any_tower_wants_low_shield_alert(&self.towers) {
                                    self.shield.low_hp_notified = true;
                                }
                            }
                            if self.shield.hp <= 0 {
                                self.shield.hp = 0;
                                self.shield.active = false;
                                self.shield.regen_timer = self.shield.regen_delay;
                            }
                            hit = true;
                        }
                    } else {
                        let guard = self.player.radius + 5_000;
                        proof {
                            crate::geom::lemma_square_bound(guard as int, 2 * COORD_LIMIT as int);
                        }
                        if now.dist_sq(&self.player.position) < guard * guard {
                            player_damage = add_damage(player_damage, damage);
                            hit = true;
                        }
                    }
                },
            }
            if hit || d2 < 5_000 * 5_000 {
                let p = vstd::std_specs::vec::vec_index_mut(&mut self.projectiles, i);
                p.fade_timer = Some(PROJECTILE_FADE_DURATION);
            }
            {
                let p = vstd::std_specs::vec::vec_index_mut(&mut self.projectiles, i);
                let nl = if p.lifetime - dt < -DURATION_LIMIT {
                    -DURATION_LIMIT
                } else {
                    p.lifetime - dt
                };
                p.lifetime = nl;
            }
            i = i + 1;
        }
        (player_damage, hits)
    }

    /// Apply every queued hit in order; stale indices (enemies already
    /// swept) are skipped.
    fn phase_apply_hits(&mut self, hits: Vec<Hit>)
        requires
            old(self).wf(),
            hits_wf(hits@),
            forall|i: int| 0 <= i < hits@.len() ==> (#[trigger] hits@[i]).actions@.len() <= 64,
        ensures
            final(self).wf(),
            *final(self) == (GameState {
                enemies: final(self).enemies,
                projectiles: final(self).projectiles,
                aoe_splashes: final(self).aoe_splashes,
                impact_auras: final(self).impact_auras,
                ..*old(self)
            }),
    {
        let mut h: usize = 0;
        while h < hits.len()
            invariant
                old(self).wf(),
                self.wf(),
                hits_wf(hits@),
                forall|i: int| 0 <= i < hits@.len() ==> (#[trigger] hits@[i]).actions@.len() <= 64,
                0 <= h <= hits@.len(),
                *self == (GameState {
                    enemies: self.enemies,
                    projectiles: self.projectiles,
                    aoe_splashes: self.aoe_splashes,
                    impact_auras: self.impact_auras,
                    ..*old(self)
                }),
            decreases hits@.len() - h,
        {
            let idx = hits[h].enemy_idx;
            if idx < self.enemies.len() {
                let actions = copy_actions(&hits[h].actions);
                let element = hits[h].element;
                let pos = hits[h].pos;
                let origin = hits[h].origin;
                self.apply_hit(idx, &actions, element, pos, origin);
            }
            h = h + 1;
        }
    }

    /// Apply one impact's action list to its primary target and whatever
    /// the target shapes reach: direct damage, chains with relay
    /// projectiles, area splashes, status applications, annihilation, and
    /// standing impact zones.
    fn apply_hit(
        &mut self,
        idx: usize,
        actions: &Vec<ResolvedAction>,
        element: TowerElement,
        pos: Point2D,
        origin: Point2D,
    )
        requires
            old(self).wf(),
            idx < old(self).enemies@.len(),
            pos.in_bounds(),
            origin.in_bounds(),
            forall|i: int| 0 <= i < actions@.len() ==> resolved_ok(#[trigger] actions@[i]),
        ensures
            final(self).wf(),
            final(self).enemies@.len() == old(self).enemies@.len(),
            *final(self) == (GameState {
                enemies: final(self).enemies,
                projectiles: final(self).projectiles,
                aoe_splashes: final(self).aoe_splashes,
                impact_auras: final(self).impact_auras,
                ..*old(self)
            }),
    {
        let distance = origin.distance_to(&pos);
        proof {
            crate::geom::lemma_square_bound((origin.x - pos.x) as int, 2 * COORD_LIMIT as int);
            crate::geom::lemma_square_bound((origin.y - pos.y) as int, 2 * COORD_LIMIT as int);
            if distance > 300_000_000 {
                assert(distance * distance > 8 * COORD_LIMIT * COORD_LIMIT) by (nonlinear_arith)
                    requires
                        distance > 300_000_000,
                ;
            }
        }
        let mut a: usize = 0;
        while a < actions.len()
            invariant
                old(self).wf(),
                self.wf(),
                idx < self.enemies@.len(),
                self.enemies@.len() == old(self).enemies@.len(),
                forall|i: int| 0 <= i < actions@.len() ==> resolved_ok(#[trigger] actions@[i]),
                0 <= distance <= 300_000_000,
                pos.in_bounds(),
                0 <= a <= actions@.len(),
                *self == (GameState {
                    enemies: self.enemies,
                    projectiles: self.projectiles,
                    aoe_splashes: self.aoe_splashes,
                    impact_auras: self.impact_auras,
                    ..*old(self)
                }),
            decreases actions@.len() - a,
        {
            let action = actions[a];
            match action {
                ResolvedAction::ApplyDamage { target, damage } => {
                    let dmg: i64 = match damage {
                        ResolvedDamage::Fixed(d) => d,
                        ResolvedDamage::PercentHp(pct) => {
                            let max_hp = self.enemies[idx].max_hp;
                            proof {
                                crate::geom::lemma_mul_le(
                                    max_hp as int,
                                    pct as int,
                                    crate::units::MAX_HP_LIMIT as int,
                                    crate::units::PERCENT_LIMIT as int,
                                );
                                crate::units::lemma_div_le(
                                    max_hp as int * pct as int,
                                    crate::units::MAX_HP_LIMIT as int
                                        * crate::units::PERCENT_LIMIT as int,
                                    100_000,
                                );
                            }
                            max_hp * pct / 100_000
                        },
                        ResolvedDamage::DistanceScaled { base, bonus_per_distance } => {
                            proof {
                                crate::geom::lemma_mul_le(
                                    distance as int,
                                    bonus_per_distance as int,
                                    300_000_000,
                                    1_000_000,
                                );
                                crate::units::lemma_div_le(
                                    distance as int * bonus_per_distance as int,
                                    300_000_000int * 1_000_000,
                                    1000,
                                );
                            }
                            base + distance * bonus_per_distance / 1000
                        },
                    };
                    match target {
                        EffectTarget::Single | EffectTarget::Multi(_) => {
                            let e = vstd::std_specs::vec::vec_index_mut(&mut self.enemies, idx);
                            e.take_damage(dmg, element);
                        },
                        EffectTarget::Chain { count, range } => {
                            let e = vstd::std_specs::vec::vec_index_mut(&mut self.enemies, idx);
                            e.take_damage(dmg, element);
                            self.chain_from(
                                idx,
                                count,
                                range,
                                element,
                                ResolvedAction::ApplyDamage {
                                    target: EffectTarget::Single,
                                    damage,
                                },
                                true,
                            );
                        },
                        EffectTarget::Area(radius) => {
                            {
                                let e = vstd::std_specs::vec::vec_index_mut(
                                    &mut self.enemies,
                                    idx,
                                );
                                e.take_damage(dmg, element);
                            }
                            self.aoe_splashes.push(
                                AoeSplash {
                                    position: pos,
                                    radius,
                                    color: Hsl { h: 20, s: 900, l: 550 },
                                    lifetime: 400,
                                    max_lifetime: 400,
                                },
                            );
                            let half = dmg / 2;
                            proof {
                                crate::units::lemma_div_le(dmg as int, dmg as int, 2);
                                crate::units::lemma_div_le(0, dmg as int, 2);
                            }
                            let mut j: usize = 0;
                            while j < self.enemies.len()
                                invariant
                                    old(self).wf(),
                                    self.wf(),
                                    idx < self.enemies@.len(),
                                    self.enemies@.len() == old(self).enemies@.len(),
                                    pos.in_bounds(),
                                    0 <= radius <= COORD_LIMIT,
                                    0 <= half <= crate::units::DAMAGE_LIMIT,
                                    0 <= j <= self.enemies@.len(),
                                    *self == (GameState {
                                    enemies: self.enemies,
                                    projectiles: self.projectiles,
                                    aoe_splashes: self.aoe_splashes,
                                    impact_auras: self.impact_auras,
                                    ..*old(self)
                                }),
                                decreases self.enemies@.len() - j,
                            {
                                proof {
                                    crate::geom::lemma_square_bound(
                                        radius as int,
                                        COORD_LIMIT as int,
                                    );
                                }
                                if self.enemies[j].position.dist_sq(&pos) < radius * radius {
                                    let e = vstd::std_specs::vec::vec_index_mut(
                                        &mut self.enemies,
                                        j,
                                    );
                                    e.take_damage(half, element);
                                }
                                j = j + 1;
                            }
                        },
                    }
                },
                ResolvedAction::ApplyEffect { target, effect } => {
                    match target {
                        EffectTarget::Single | EffectTarget::Multi(_) => {
                            self.apply_effect_to_enemy(idx, effect);
                        },
                        EffectTarget::Chain { count, range } => {
                            self.apply_effect_to_enemy(idx, effect);
                            self.chain_from(
                                idx,
                                count,
                                range,
                                element,
                                ResolvedAction::ApplyEffect {
                                    target: EffectTarget::Single,
                                    effect,
                                },
                                true,
                            );
                        },
                        EffectTarget::Area(radius) => {
                            let mut j: usize = 0;
                            while j < self.enemies.len()
                                invariant
                                    old(self).wf(),
                                    self.wf(),
                                    idx < self.enemies@.len(),
                                    self.enemies@.len() == old(self).enemies@.len(),
                                    pos.in_bounds(),
                                    0 <= radius <= COORD_LIMIT,
                                    resolved_ok(
                                        ResolvedAction::ApplyEffect {
                                            target: EffectTarget::Area(radius),
                                            effect,
                                        },
                                    ),
                                    0 <= j <= self.enemies@.len(),
                                    *self == (GameState {
                                    enemies: self.enemies,
                                    projectiles: self.projectiles,
                                    aoe_splashes: self.aoe_splashes,
                                    impact_auras: self.impact_auras,
                                    ..*old(self)
                                }),
                                decreases self.enemies@.len() - j,
                            {
                                proof {
                                    crate::geom::lemma_square_bound(
                                        radius as int,
                                        COORD_LIMIT as int,
                                    );
                                }
                                if self.enemies[j].position.dist_sq(&pos) < radius * radius {
                                    self.apply_effect_to_enemy(j, effect);
                                }
                                j = j + 1;
                            }
                        },
                    }
                },
                ResolvedAction::GoldGen { .. } => {},
                ResolvedAction::ApplyElementalState { target, state, duration, strength } => {
                    match target {
                        EffectTarget::Single | EffectTarget::Multi(_) => {
                            self.apply_state_to_enemy(idx, state, duration, strength);
                        },
                        EffectTarget::Area(radius) => {
                            let mut j: usize = 0;
                            while j < self.enemies.len()
                                invariant
                                    old(self).wf(),
                                    self.wf(),
                                    idx < self.enemies@.len(),
                                    self.enemies@.len() == old(self).enemies@.len(),
                                    pos.in_bounds(),
                                    0 <= radius <= COORD_LIMIT,
                                    0 <= duration <= DURATION_LIMIT,
                                    0 <= strength <= crate::defs::STRENGTH_LIMIT,
                                    0 <= j <= self.enemies@.len(),
                                    *self == (GameState {
                                    enemies: self.enemies,
                                    projectiles: self.projectiles,
                                    aoe_splashes: self.aoe_splashes,
                                    impact_auras: self.impact_auras,
                                    ..*old(self)
                                }),
                                decreases self.enemies@.len() - j,
                            {
                                proof {
                                    crate::geom::lemma_square_bound(
                                        radius as int,
                                        COORD_LIMIT as int,
                                    );
                                }
                                if self.enemies[j].position.dist_sq(&pos) < radius * radius {
                                    self.apply_state_to_enemy(j, state, duration, strength);
                                }
                                j = j + 1;
                            }
                        },
                        EffectTarget::Chain { count, range } => {
                            self.apply_state_to_enemy(idx, state, duration, strength);
                            self.chain_states(idx, count, range, state, duration, strength);
                        },
                    }
                },
                ResolvedAction::Annihilate { required_states, boss_damage_percent } => {
                    let state_count = self.enemies[idx].count_states();
                    if state_count >= required_states as usize {
                        if self.enemies[idx].is_boss {
                            let max_hp = self.enemies[idx].max_hp;
                            proof {
                                crate::geom::lemma_mul_le(
                                    max_hp as int,
                                    boss_damage_percent as int,
                                    crate::units::MAX_HP_LIMIT as int,
                                    crate::units::PERCENT_LIMIT as int,
                                );
                                crate::units::lemma_div_le(
                                    max_hp as int * boss_damage_percent as int,
                                    crate::units::MAX_HP_LIMIT as int
                                        * crate::units::PERCENT_LIMIT as int,
                                    100_000,
                                );
                            }
                            let dmg = max_hp * boss_damage_percent / 100_000;
                            let e = vstd::std_specs::vec::vec_index_mut(&mut self.enemies, idx);
                            e.take_damage(dmg, element);
                            e.clear_states();
                        } else {
                            let e = vstd::std_specs::vec::vec_index_mut(&mut self.enemies, idx);
                            e.hp = 0;
                        }
                    }
                },
                ResolvedAction::ApplyCold {
                    target: _,
                    damage,
                    cold_duration,
                    freeze_duration,
                    aoe_radius,
                } => {
                    {
                        let e = vstd::std_specs::vec::vec_index_mut(&mut self.enemies, idx);
                        e.take_damage(damage, element);
                        let _ = e.apply_cold(freeze_duration, cold_duration);
                    }
                    if aoe_radius > 0 {
                        let main_pos = self.enemies[idx].position;
                        let mut j: usize = 0;
                        while j < self.enemies.len()
                            invariant
                                old(self).wf(),
                                self.wf(),
                                idx < self.enemies@.len(),
                                self.enemies@.len() == old(self).enemies@.len(),
                                main_pos.in_bounds(),
                                0 <= aoe_radius <= COORD_LIMIT,
                                0 <= cold_duration <= DURATION_LIMIT,
                                0 <= freeze_duration <= DURATION_LIMIT,
                                0 <= j <= self.enemies@.len(),
                                *self == (GameState {
                                    enemies: self.enemies,
                                    projectiles: self.projectiles,
                                    aoe_splashes: self.aoe_splashes,
                                    impact_auras: self.impact_auras,
                                    ..*old(self)
                                }),
                            decreases self.enemies@.len() - j,
                        {
                            proof {
                                crate::geom::lemma_square_bound(
                                    aoe_radius as int,
                                    COORD_LIMIT as int,
                                );
                            }
                            if j != idx {
                                if self.enemies[j].position.dist_sq(&main_pos) <= aoe_radius
                                    * aoe_radius {
                                    let e = vstd::std_specs::vec::vec_index_mut(
                                        &mut self.enemies,
                                        j,
                                    );
                                    let _ = e.apply_cold(freeze_duration, cold_duration);
                                }
                            }
                            j = j + 1;
                        }
                        self.aoe_splashes.push(
                            AoeSplash {
                                position: pos,
                                radius: aoe_radius,
                                color: Hsl { h: 550, s: 700, l: 600 },
                                lifetime: 300,
                                max_lifetime: 300,
                            },
                        );
                    }
                },
                ResolvedAction::ImpactAura { radius, duration, state, state_duration, strength } => {
                    self.impact_auras.push(
                        ImpactAura {
                            position: pos,
                            radius,
                            color: Hsl { h: 20, s: 900, l: 550 },
                            remaining: duration,
                            tick_cooldown: 0,
                            aura_type: ImpactAuraType::Elemental {
                                state,
                                duration: state_duration,
                                strength,
                            },
                            element,
                        },
                    );
                },
                ResolvedAction::ImpactColdAura { radius, duration, cold_duration, freeze_duration } => {
                    self.impact_auras.push(
                        ImpactAura {
                            position: pos,
                            radius,
                            color: Hsl { h: 550, s: 700, l: 600 },
                            remaining: duration,
                            tick_cooldown: 0,
                            aura_type: ImpactAuraType::Cold { cold_duration, freeze_duration },
                            element,
                        },
                    );
                },
                _ => {},
            }
            a = a + 1;
        }
    }

    /// One timed effect (burn, slow or stun) on one enemy.
    fn apply_effect_to_enemy(&mut self, idx: usize, effect: ResolvedEffect)
        requires
            old(self).wf(),
            idx < old(self).enemies@.len(),
            resolved_ok(
                ResolvedAction::ApplyEffect { target: EffectTarget::Single, effect },
            ),
        ensures
            final(self).wf(),
            final(self).enemies@.len() == old(self).enemies@.len(),
            *final(self) == (GameState { enemies: final(self).enemies, ..*old(self) }),
    {
        let e = vstd::std_specs::vec::vec_index_mut(&mut self.enemies, idx);
        match effect {
            ResolvedEffect::Burn { dps, duration } => {
                e.apply_burn(dps, duration);
            },
            ResolvedEffect::Slow { ratio, duration } => {
                e.apply_slow(ratio, duration);
            },
            ResolvedEffect::Stun { duration } => {
                e.apply_stun(duration);
            },
        }
    }

    /// One elemental state on one enemy; Cold reads (freeze, cold)
    /// durations from (strength, duration).
    fn apply_state_to_enemy(
        &mut self,
        idx: usize,
        state: ElementalStateKind,
        duration: i64,
        strength: i64,
    )
        requires
            old(self).wf(),
            idx < old(self).enemies@.len(),
            0 <= duration <= DURATION_LIMIT,
            0 <= strength <= crate::defs::STRENGTH_LIMIT,
        ensures
            final(self).wf(),
            final(self).enemies@.len() == old(self).enemies@.len(),
            *final(self) == (GameState { enemies: final(self).enemies, ..*old(self) }),
    {
        let e = vstd::std_specs::vec::vec_index_mut(&mut self.enemies, idx);
        match state {
            ElementalStateKind::Burned => {
                e.apply_burned(strength, duration);
            },
            ElementalStateKind::Soaked => {
                e.apply_soaked(strength, duration);
            },
            ElementalStateKind::Seismic => {
                e.apply_seismic(strength, duration);
            },
            ElementalStateKind::Cold => {
                let _ = e.apply_cold(
                    if strength <= DURATION_LIMIT {
                        strength
                    } else {
                        DURATION_LIMIT
                    },
                    duration,
                );
            },
            ElementalStateKind::Frozen => {
                e.apply_frozen(duration);
            },
        }
    }

    /// Greedy chain hops from the primary target: repeatedly jump to the
    /// nearest living unhit enemy within `range`, spawning a relay
    /// projectile per hop that carries the single-target action.
    fn chain_from(
        &mut self,
        idx: usize,
        count: u32,
        range: i64,
        element: TowerElement,
        relay_action: ResolvedAction,
        spawn_relays: bool,
    )
        requires
            old(self).wf(),
            idx < old(self).enemies@.len(),
            count <= crate::units::COUNT_LIMIT,
            0 <= range <= COORD_LIMIT,
            resolved_ok(relay_action),
        ensures
            final(self).wf(),
            final(self).enemies@ == old(self).enemies@,
            *final(self) == (GameState { projectiles: final(self).projectiles, ..*old(self) }),
    {
        let mut current_pos = self.enemies[idx].position;
        let mut hit_indices: Vec<usize> = Vec::new();
        hit_indices.push(idx);
        let mut hop: u32 = 0;
        while hop < count
            invariant
                old(self).wf(),
                self.wf(),
                idx < self.enemies@.len(),
                current_pos.in_bounds(),
                0 <= range <= COORD_LIMIT,
                resolved_ok(relay_action),
                0 <= hop <= count,
                *self == (GameState { projectiles: self.projectiles, ..*old(self) }),
            decreases count - hop,
        {
            match crate::targeting::find_chain_next(
                &current_pos,
                range,
                &self.enemies,
                &hit_indices,
            ) {
                Some(next_idx) => {
                    let next_pos = self.enemies[next_idx].position;
                    if spawn_relays {
                        let next_id = self.enemies[next_idx].id;
                        let mut relay_actions: Vec<ResolvedAction> = Vec::new();
                        relay_actions.push(relay_action);
                        self.projectiles.push(
                            Projectile {
                                origin: current_pos,
                                target_pos: next_pos,
                                current_pos,
                                speed: 250_000,
                                element,
                                source: ProjectileSource::Player,
                                actions: relay_actions,
                                lifetime: 1000,
                                target_enemy_id: Some(next_id),
                                fade_timer: None,
                                size: 3000,
                            },
                        );
                    }
                    current_pos = next_pos;
                    hit_indices.push(next_idx);
                },
                None => {
                    return ;
                },
            }
            hop = hop + 1;
        }
    }

    /// Greedy chain for state applications: collect the hops first, then
    /// apply the state to every hop.
    fn chain_states(
        &mut self,
        idx: usize,
        count: u32,
        range: i64,
        state: ElementalStateKind,
        duration: i64,
        strength: i64,
    )
        requires
            old(self).wf(),
            idx < old(self).enemies@.len(),
            count <= crate::units::COUNT_LIMIT,
            0 <= range <= COORD_LIMIT,
            0 <= duration <= DURATION_LIMIT,
            0 <= strength <= crate::defs::STRENGTH_LIMIT,
        ensures
            final(self).wf(),
            final(self).enemies@.len() == old(self).enemies@.len(),
            *final(self) == (GameState { enemies: final(self).enemies, ..*old(self) }),
    {
        let mut current_pos = self.enemies[idx].position;
        let mut hit_indices: Vec<usize> = Vec::new();
        hit_indices.push(idx);
        let mut hop: u32 = 0;
        while hop < count
            invariant
                old(self).wf(),
                self.wf(),
                idx < self.enemies@.len(),
                self.enemies@.len() == old(self).enemies@.len(),
                current_pos.in_bounds(),
                0 <= range <= COORD_LIMIT,
                0 <= hop <= count,
                forall|x: int|
                    0 <= x < hit_indices@.len() ==> #[trigger] hit_indices@[x]
                        < self.enemies@.len(),
                *self == (GameState { enemies: self.enemies, ..*old(self) }),
            decreases count - hop,
        {
            match crate::targeting::find_chain_next(
                &current_pos,
                range,
                &self.enemies,
                &hit_indices,
            ) {
                Some(next_idx) => {
                    current_pos = self.enemies[next_idx].position;
                    hit_indices.push(next_idx);
                },
                None => {
                    break ;
                },
            }
            hop = hop + 1;
        }
        let mut k: usize = 0;
        while k < hit_indices.len()
            invariant
                old(self).wf(),
                self.wf(),
                idx < self.enemies@.len(),
                self.enemies@.len() == old(self).enemies@.len(),
                forall|x: int|
                    0 <= x < hit_indices@.len() ==> #[trigger] hit_indices@[x]
                        < self.enemies@.len(),
                0 <= duration <= DURATION_LIMIT,
                0 <= strength <= crate::defs::STRENGTH_LIMIT,
                0 <= k <= hit_indices@.len(),
                *self == (GameState { enemies: self.enemies, ..*old(self) }),
            decreases hit_indices@.len() - k,
        {
            let target = hit_indices[k];
            if target != idx {
                self.apply_state_to_enemy(target, state, duration, strength);
            }
            k = k + 1;
        }
    }
}

impl GameState {
    /// Advance every enemy's status machine by one frame.
    fn phase_tick_states(&mut self, dt: i64)
        requires
            old(self).wf(),
            0 < dt <= DT_LIMIT,
        ensures
            final(self).wf(),
            final(self).enemies@.len() == old(self).enemies@.len(),
            *final(self) == (GameState { enemies: final(self).enemies, ..*old(self) }),
    {
        let mut i: usize = 0;
        while i < self.enemies.len()
            invariant
                old(self).wf(),
                enemies_wf(self.enemies@),
                self.enemies@.len() == old(self).enemies@.len(),
                0 < dt <= DT_LIMIT,
                0 <= i <= self.enemies@.len(),
                *self == (GameState { enemies: self.enemies, ..*old(self) }),
            decreases self.enemies@.len() - i,
        {
            let e = vstd::std_specs::vec::vec_index_mut(&mut self.enemies, i);
            e.tick_elemental_states(dt);
            i = i + 1;
        }
    }

    /// Tower passive effects: auras apply their state to enemies that lack
    /// it, life steal damages and heals, interval-gated zones deal percent
    /// damage or cold, burn auras deal continuous damage, and comet
    /// strikes hit randomly chosen living enemies.
    fn phase_tower_passives(&mut self, dt: i64)
        requires
            old(self).wf(),
            0 < dt <= DT_LIMIT,
        ensures
            final(self).wf(),
            final(self).enemies@.len() == old(self).enemies@.len(),
            *final(self) == (GameState {
                towers: final(self).towers,
                enemies: final(self).enemies,
                player: final(self).player,
                laser_beams: final(self).laser_beams,
                ..*old(self)
            }),
    {
        // Run down every passive clock first.
        let mut idx: usize = 0;
        while idx < self.towers.len()
            invariant
                old(self).wf(),
                self.wf(),
                0 < dt <= DT_LIMIT,
                0 <= idx <= self.towers@.len(),
                self.towers@.len() == old(self).towers@.len(),
                self.enemies@.len() == old(self).enemies@.len(),
                *self == (GameState {
                    towers: self.towers,
                    enemies: self.enemies,
                    player: self.player,
                    laser_beams: self.laser_beams,
                    ..*old(self)
                }),
            decreases self.towers@.len() - idx,
        {
            let mut c: usize = 0;
            while c < 3
                invariant
                    old(self).wf(),
                    self.wf(),
                    0 < dt <= DT_LIMIT,
                    idx < self.towers@.len(),
                    self.towers@.len() == old(self).towers@.len(),
                    0 <= c <= 3,
                    self.enemies@.len() == old(self).enemies@.len(),
                    *self == (GameState {
                        towers: self.towers,
                        enemies: self.enemies,
                        player: self.player,
                        laser_beams: self.laser_beams,
                        ..*old(self)
                    }),
                decreases 3 - c,
            {
                let cd = self.towers[idx].passive_cooldowns[c];
                if cd > 0 {
                    let t = vstd::std_specs::vec::vec_index_mut(&mut self.towers, idx);
                    t.passive_cooldowns.set(c, cd - dt);
                }
                c = c + 1;
            }
            idx = idx + 1;
        }
        // Then apply the effects.
        let mut tower_idx: usize = 0;
        while tower_idx < self.towers.len()
            invariant
                old(self).wf(),
                self.wf(),
                0 < dt <= DT_LIMIT,
                0 <= tower_idx <= self.towers@.len(),
                self.towers@.len() == old(self).towers@.len(),
                self.enemies@.len() == old(self).enemies@.len(),
                *self == (GameState {
                    towers: self.towers,
                    enemies: self.enemies,
                    player: self.player,
                    laser_beams: self.laser_beams,
                    ..*old(self)
                }),
            decreases self.towers@.len() - tower_idx,
        {
            let tower_pos = self.towers[tower_idx].position;
            let resolved = self.towers[tower_idx].resolved_actions();
            let element = self.towers[tower_idx].element;
            let active_skill_idx = match self.towers[tower_idx].active_skill_index {
                Some(i) => i,
                None => 0,
            };
            let mut a: usize = 0;
            while a < resolved.len()
                invariant
                    old(self).wf(),
                    self.wf(),
                    0 < dt <= DT_LIMIT,
                    tower_idx < self.towers@.len(),
                    self.towers@.len() == old(self).towers@.len(),
                    active_skill_idx < 3,
                    tower_pos.in_bounds(),
                    forall|x: int| 0 <= x < resolved@.len() ==> resolved_ok(#[trigger] resolved@[x]),
                    0 <= a <= resolved@.len(),
                    self.enemies@.len() == old(self).enemies@.len(),
                    *self == (GameState {
                        towers: self.towers,
                        enemies: self.enemies,
                        player: self.player,
                        laser_beams: self.laser_beams,
                        ..*old(self)
                    }),
                decreases resolved@.len() - a,
            {
                let action = resolved[a];
                self.apply_tower_passive(tower_idx, active_skill_idx, tower_pos, element, action, dt);
                a = a + 1;
            }
            tower_idx = tower_idx + 1;
        }
    }

    /// One passive action of one tower for this frame.
    fn apply_tower_passive(
        &mut self,
        tower_idx: usize,
        active_skill_idx: usize,
        tower_pos: Point2D,
        element: TowerElement,
        action: ResolvedAction,
        dt: i64,
    )
        requires
            old(self).wf(),
            tower_idx < old(self).towers@.len(),
            active_skill_idx < 3,
            tower_pos.in_bounds(),
            resolved_ok(action),
            0 < dt <= DT_LIMIT,
        ensures
            final(self).wf(),
            final(self).enemies@.len() == old(self).enemies@.len(),
            final(self).towers@.len() == old(self).towers@.len(),
            *final(self) == (GameState {
                towers: final(self).towers,
                enemies: final(self).enemies,
                player: final(self).player,
                laser_beams: final(self).laser_beams,
                ..*old(self)
            }),
    {
        match action {
            ResolvedAction::AuraEffect { radius, state, duration, strength } => {
                proof {
                    crate::geom::lemma_square_bound(radius as int, COORD_LIMIT as int);
                }
                let radius_sq = radius * radius;
                let mut j: usize = 0;
                while j < self.enemies.len()
                    invariant
                        old(self).wf(),
                        self.wf(),
                        tower_pos.in_bounds(),
                        0 <= radius <= COORD_LIMIT,
                        0 <= duration <= DURATION_LIMIT,
                        0 <= strength <= crate::defs::STRENGTH_LIMIT,
                        0 <= j <= self.enemies@.len(),
                        self.enemies@.len() == old(self).enemies@.len(),
                        self.towers@.len() == old(self).towers@.len(),
                        *self == (GameState {
                            towers: self.towers,
                            enemies: self.enemies,
                            player: self.player,
                            laser_beams: self.laser_beams,
                            ..*old(self)
                        }),
                    decreases self.enemies@.len() - j,
                {
                    if tower_pos.dist_sq(&self.enemies[j].position) <= radius_sq {
                        if !self.enemies[j].has_state(state) {
                            self.apply_state_to_enemy(j, state, duration, strength);
                        }
                    }
                    j = j + 1;
                }
            },
            ResolvedAction::LifeSteal { radius, damage_per_second, heal_ratio } => {
                proof {
                    crate::geom::lemma_square_bound(radius as int, COORD_LIMIT as int);
                    crate::geom::lemma_mul_le(
                        damage_per_second as int,
                        dt as int,
                        AMOUNT_LIMIT as int,
                        DT_LIMIT as int,
                    );
                    crate::units::lemma_div_le(
                        damage_per_second as int * dt as int,
                        AMOUNT_LIMIT as int * DT_LIMIT as int,
                        1000,
                    );
                }
                let radius_sq = radius * radius;
                let dmg = damage_per_second * dt / 1000;
                let mut heal_total: i64 = 0;
                let mut j: usize = 0;
                while j < self.enemies.len()
                    invariant
                        old(self).wf(),
                        self.wf(),
                        tower_pos.in_bounds(),
                        0 <= radius <= COORD_LIMIT,
                        0 <= dmg <= 10_000_000_000_000,
                        0 <= heal_ratio <= crate::units::PERCENT_LIMIT,
                        0 <= heal_total <= crate::units::DAMAGE_LIMIT,
                        0 <= j <= self.enemies@.len(),
                        self.enemies@.len() == old(self).enemies@.len(),
                        self.towers@.len() == old(self).towers@.len(),
                        *self == (GameState {
                            towers: self.towers,
                            enemies: self.enemies,
                            player: self.player,
                            laser_beams: self.laser_beams,
                            ..*old(self)
                        }),
                    decreases self.enemies@.len() - j,
                {
                    if tower_pos.dist_sq(&self.enemies[j].position) <= radius_sq {
                        {
                            let e = vstd::std_specs::vec::vec_index_mut(&mut self.enemies, j);
                            e.take_damage(dmg, element);
                        }
                        proof {
                            crate::geom::lemma_mul_le(
                                dmg as int,
                                heal_ratio as int,
                                10_000_000_000_000,
                                crate::units::PERCENT_LIMIT as int,
                            );
                            crate::units::lemma_div_le(
                                dmg as int * heal_ratio as int,
                                10_000_000_000_000 * crate::units::PERCENT_LIMIT as int,
                                100_000,
                            );
                        }
                        let heal = crate::units::mul_div(dmg, heal_ratio, 100_000);
                        heal_total = add_damage(heal_total, if heal <= AMOUNT_LIMIT {
                            heal
                        } else {
                            AMOUNT_LIMIT
                        });
                    }
                    j = j + 1;
                }
                if heal_total > 0 {
                    let healed = self.player.hp + heal_total;
                    self.player.hp = min_i64(healed, self.player.max_hp);
                    proof {
                        assert(self.player.wf());
                    }
                }
            },
            ResolvedAction::ConditionalDamage { min_states, damage_percent, radius, tick_rate } => {
                if self.towers[tower_idx].passive_cooldowns[active_skill_idx] <= 0 {
                    proof {
                        crate::geom::lemma_square_bound(radius as int, COORD_LIMIT as int);
                    }
                    let radius_sq = radius * radius;
                    let mut j: usize = 0;
                    while j < self.enemies.len()
                        invariant
                            old(self).wf(),
                            self.wf(),
                            tower_pos.in_bounds(),
                            0 <= radius <= COORD_LIMIT,
                            0 <= damage_percent <= crate::units::PERCENT_LIMIT,
                            0 <= j <= self.enemies@.len(),
                            self.enemies@.len() == old(self).enemies@.len(),
                            self.towers@.len() == old(self).towers@.len(),
                            *self == (GameState {
                                towers: self.towers,
                                enemies: self.enemies,
                                player: self.player,
                                laser_beams: self.laser_beams,
                                ..*old(self)
                            }),
                        decreases self.enemies@.len() - j,
                    {
                        if tower_pos.dist_sq(&self.enemies[j].position) <= radius_sq {
                            if self.enemies[j].count_states() >= min_states as usize {
                                let max_hp = self.enemies[j].max_hp;
                                proof {
                                    crate::geom::lemma_mul_le(
                                        max_hp as int,
                                        damage_percent as int,
                                        crate::units::MAX_HP_LIMIT as int,
                                        crate::units::PERCENT_LIMIT as int,
                                    );
                                    crate::units::lemma_div_le(
                                        max_hp as int * damage_percent as int,
                                        crate::units::MAX_HP_LIMIT as int
                                            * crate::units::PERCENT_LIMIT as int,
                                        100_000,
                                    );
                                }
                                let dmg = max_hp * damage_percent / 100_000;
                                let e = vstd::std_specs::vec::vec_index_mut(&mut self.enemies, j);
                                e.take_damage(dmg, element);
                            }
                        }
                        j = j + 1;
                    }
                    let t = vstd::std_specs::vec::vec_index_mut(&mut self.towers, tower_idx);
                    t.passive_cooldowns.set(active_skill_idx, tick_rate);
                }
            },
            ResolvedAction::ColdAura { radius, cold_duration, freeze_duration } => {
                proof {
                    crate::geom::lemma_square_bound(radius as int, COORD_LIMIT as int);
                }
                let radius_sq = radius * radius;
                let mut j: usize = 0;
                while j < self.enemies.len()
                    invariant
                        old(self).wf(),
                        self.wf(),
                        tower_pos.in_bounds(),
                        0 <= radius <= COORD_LIMIT,
                        0 <= cold_duration <= DURATION_LIMIT,
                        0 <= freeze_duration <= DURATION_LIMIT,
                        0 <= j <= self.enemies@.len(),
                        self.enemies@.len() == old(self).enemies@.len(),
                        self.towers@.len() == old(self).towers@.len(),
                        *self == (GameState {
                            towers: self.towers,
                            enemies: self.enemies,
                            player: self.player,
                            laser_beams: self.laser_beams,
                            ..*old(self)
                        }),
                    decreases self.enemies@.len() - j,
                {
                    if tower_pos.dist_sq(&self.enemies[j].position) <= radius_sq {
                        let e = vstd::std_specs::vec::vec_index_mut(&mut self.enemies, j);
                        let _ = e.apply_cold(freeze_duration, cold_duration);
                    }
                    j = j + 1;
                }
            },
            ResolvedAction::Glaciation {
                radius,
                damage_percent,
                cold_duration,
                freeze_duration,
                tick_rate,
            } => {
                if self.towers[tower_idx].passive_cooldowns[active_skill_idx] <= 0 {
                    proof {
                        crate::geom::lemma_square_bound(radius as int, COORD_LIMIT as int);
                    }
                    let radius_sq = radius * radius;
                    let mut j: usize = 0;
                    while j < self.enemies.len()
                        invariant
                            old(self).wf(),
                            self.wf(),
                            tower_pos.in_bounds(),
                            0 <= radius <= COORD_LIMIT,
                            0 <= damage_percent <= crate::units::PERCENT_LIMIT,
                            0 <= cold_duration <= DURATION_LIMIT,
                            0 <= freeze_duration <= DURATION_LIMIT,
                            0 <= j <= self.enemies@.len(),
                            self.enemies@.len() == old(self).enemies@.len(),
                            self.towers@.len() == old(self).towers@.len(),
                            *self == (GameState {
                                towers: self.towers,
                                enemies: self.enemies,
                                player: self.player,
                                laser_beams: self.laser_beams,
                                ..*old(self)
                            }),
                        decreases self.enemies@.len() - j,
                    {
                        if tower_pos.dist_sq(&self.enemies[j].position) <= radius_sq {
                            let hp = self.enemies[j].hp;
                            let dmg = if hp > 0 {
                                proof {
                                    crate::geom::lemma_mul_le(
                                        hp as int,
                                        damage_percent as int,
                                        crate::units::MAX_HP_LIMIT as int,
                                        crate::units::PERCENT_LIMIT as int,
                                    );
                                    crate::units::lemma_div_le(
                                        hp as int * damage_percent as int,
                                        crate::units::MAX_HP_LIMIT as int
                                            * crate::units::PERCENT_LIMIT as int,
                                        100_000,
                                    );
                                }
                                hp * damage_percent / 100_000
                            } else {
                                0
                            };
                            let e = vstd::std_specs::vec::vec_index_mut(&mut self.enemies, j);
                            e.take_damage(dmg, element);
                            let _ = e.apply_cold(freeze_duration, cold_duration);
                        }
                        j = j + 1;
                    }
                    let t = vstd::std_specs::vec::vec_index_mut(&mut self.towers, tower_idx);
                    t.passive_cooldowns.set(active_skill_idx, tick_rate);
                }
            },
            ResolvedAction::PassiveBurnAura { radius, dps } => {
                proof {
                    crate::geom::lemma_square_bound(radius as int, COORD_LIMIT as int);
                    crate::geom::lemma_mul_le(
                        dps as int,
                        dt as int,
                        AMOUNT_LIMIT as int,
                        DT_LIMIT as int,
                    );
                    crate::units::lemma_div_le(
                        dps as int * dt as int,
                        AMOUNT_LIMIT as int * DT_LIMIT as int,
                        1000,
                    );
                }
                let radius_sq = radius * radius;
                let dmg = dps * dt / 1000;
                let mut j: usize = 0;
                while j < self.enemies.len()
                    invariant
                        old(self).wf(),
                        self.wf(),
                        tower_pos.in_bounds(),
                        0 <= radius <= COORD_LIMIT,
                        0 <= dmg <= 10_000_000_000_000,
                        0 <= j <= self.enemies@.len(),
                        self.enemies@.len() == old(self).enemies@.len(),
                        self.towers@.len() == old(self).towers@.len(),
                        *self == (GameState {
                            towers: self.towers,
                            enemies: self.enemies,
                            player: self.player,
                            laser_beams: self.laser_beams,
                            ..*old(self)
                        }),
                    decreases self.enemies@.len() - j,
                {
                    if tower_pos.dist_sq(&self.enemies[j].position) <= radius_sq {
                        let e = vstd::std_specs::vec::vec_index_mut(&mut self.enemies, j);
                        e.take_damage(dmg, element);
                    }
                    j = j + 1;
                }
            },
            ResolvedAction::CometStrike { damage, target_count, interval } => {
                if self.towers[tower_idx].passive_cooldowns[active_skill_idx] <= 0
                    && self.enemies.len() > 0 {
                    let mut living: Vec<usize> = Vec::new();
                    let mut j: usize = 0;
                    while j < self.enemies.len()
                        invariant
                            0 <= j <= self.enemies@.len(),
                            forall|x: int|
                                0 <= x < living@.len() ==> #[trigger] living@[x]
                                    < self.enemies@.len(),
                        decreases self.enemies@.len() - j,
                    {
                        if self.enemies[j].hp > 0 {
                            living.push(j);
                        }
                        j = j + 1;
                    }
                    let ghost living0 = living@;
                    crate::rng::rng_shuffle_usize(&mut living);
                    proof {
                        lemma_shuffled_bound(living@, living0, self.enemies@.len() as int);
                    }
                    let mut k: usize = 0;
                    while k < living.len() && k < target_count as usize
                        invariant
                            old(self).wf(),
                            self.wf(),
                            tower_pos.in_bounds(),
                            0 <= damage <= AMOUNT_LIMIT,
                            forall|x: int|
                                0 <= x < living@.len() ==> #[trigger] living@[x]
                                    < self.enemies@.len(),
                            0 <= k <= living@.len(),
                            self.enemies@.len() == old(self).enemies@.len(),
                            self.towers@.len() == old(self).towers@.len(),
                            *self == (GameState {
                                towers: self.towers,
                                enemies: self.enemies,
                                player: self.player,
                                laser_beams: self.laser_beams,
                                ..*old(self)
                            }),
                        decreases living@.len() - k,
                    {
                        let e_idx = living[k];
                        let enemy_pos = self.enemies[e_idx].position;
                        {
                            let e = vstd::std_specs::vec::vec_index_mut(&mut self.enemies, e_idx);
                            e.take_damage(damage, element);
                        }
                        self.laser_beams.push(
                            LaserBeam {
                                start: tower_pos,
                                end: enemy_pos,
                                color: Hsl { h: 580, s: 900, l: 600 },
                                lifetime: 300,
                                max_lifetime: 300,
                                width: 1000,
                            },
                        );
                        k = k + 1;
                    }
                    let t = vstd::std_specs::vec::vec_index_mut(&mut self.towers, tower_idx);
                    t.passive_cooldowns.set(active_skill_idx, interval);
                }
            },
            _ => {},
        }
    }

    /// Standing impact zones: run their clocks, apply their effect on the
    /// internal one-second beat, and prune the expired.
    fn phase_impact_auras(&mut self, dt: i64)
        requires
            old(self).wf(),
            0 < dt <= DT_LIMIT,
        ensures
            final(self).wf(),
            final(self).enemies@.len() == old(self).enemies@.len(),
            *final(self) == (GameState {
                impact_auras: final(self).impact_auras,
                enemies: final(self).enemies,
                ..*old(self)
            }),
    {
        let mut i: usize = 0;
        while i < self.impact_auras.len()
            invariant
                old(self).wf(),
                self.wf(),
                0 < dt <= DT_LIMIT,
                0 <= i <= self.impact_auras@.len(),
                self.impact_auras@.len() == old(self).impact_auras@.len(),
                self.enemies@.len() == old(self).enemies@.len(),
                *self == (GameState {
                    impact_auras: self.impact_auras,
                    enemies: self.enemies,
                    ..*old(self)
                }),
            decreases self.impact_auras@.len() - i,
        {
            {
                let aura = vstd::std_specs::vec::vec_index_mut(&mut self.impact_auras, i);
                let nr = aura.remaining - dt;
                aura.remaining = if nr < -DURATION_LIMIT {
                    -DURATION_LIMIT
                } else {
                    nr
                };
                let nc = aura.tick_cooldown - dt;
                aura.tick_cooldown = if nc < -DURATION_LIMIT {
                    -DURATION_LIMIT
                } else {
                    nc
                };
            }
            if self.impact_auras[i].tick_cooldown <= 0 {
                {
                    let aura = vstd::std_specs::vec::vec_index_mut(&mut self.impact_auras, i);
                    aura.tick_cooldown = 1000;
                }
                let a_pos = self.impact_auras[i].position;
                let a_radius = self.impact_auras[i].radius;
                let a_type = self.impact_auras[i].aura_type;
                proof {
                    crate::geom::lemma_square_bound(a_radius as int, COORD_LIMIT as int);
                }
                let a_radius_sq = a_radius * a_radius;
                let mut j: usize = 0;
                while j < self.enemies.len()
                    invariant
                        old(self).wf(),
                        self.wf(),
                        a_pos.in_bounds(),
                        0 <= a_radius <= COORD_LIMIT,
                        match a_type {
                            ImpactAuraType::Elemental { state, duration, strength } => 0
                                <= duration <= DURATION_LIMIT && 0 <= strength
                                <= crate::defs::STRENGTH_LIMIT,
                            ImpactAuraType::Cold { cold_duration, freeze_duration } => 0
                                <= cold_duration <= DURATION_LIMIT && 0 <= freeze_duration
                                <= DURATION_LIMIT,
                        },
                        0 <= j <= self.enemies@.len(),
                        self.impact_auras@.len() == old(self).impact_auras@.len(),
                        self.enemies@.len() == old(self).enemies@.len(),
                        *self == (GameState {
                            impact_auras: self.impact_auras,
                            enemies: self.enemies,
                            ..*old(self)
                        }),
                    decreases self.enemies@.len() - j,
                {
                    if a_pos.dist_sq(&self.enemies[j].position) <= a_radius_sq {
                        match a_type {
                            ImpactAuraType::Elemental { state, duration, strength } => {
                                self.apply_state_to_enemy(j, state, duration, strength);
                            },
                            ImpactAuraType::Cold { cold_duration, freeze_duration } => {
                                let e = vstd::std_specs::vec::vec_index_mut(
                                    &mut self.enemies,
                                    j,
                                );
                                let _ = e.apply_cold(freeze_duration, cold_duration);
                            },
                        }
                    }
                    j = j + 1;
                }
            }
            i = i + 1;
        }
        // Prune the expired zones.
        let mut kept: Vec<ImpactAura> = Vec::new();
        let mut k: usize = 0;
        while k < self.impact_auras.len()
            invariant
                auras_wf(self.impact_auras@),
                auras_wf(kept@),
                0 <= k <= self.impact_auras@.len(),
            decreases self.impact_auras@.len() - k,
        {
            if self.impact_auras[k].remaining > 0 {
                let a = self.impact_auras[k];
                kept.push(a);
            }
            k = k + 1;
        }
        self.impact_auras = kept;
    }

    /// The death sweep: every enemy at zero or less leaves the field, pays
    /// its gold value into gold and score exactly once, and may drop
    /// premium currency (bosses always three to five, plus a tower slot;
    /// others with a one-in-ten chance).
    fn phase_remove_dead(&mut self)
        requires
            old(self).wf(),
        ensures
            final(self).wf(),
            final(self).enemies@ == old(self).enemies@.filter(|e: Enemy| e.hp > 0),
            final(self).economy.gold == spec_sweep_gold(
                old(self).enemies@,
                old(self).economy.gold as int,
            ),
            final(self).economy.score == spec_sweep_gold(
                old(self).enemies@,
                old(self).economy.score as int,
            ),
            final(self).economy.pepites >= old(self).economy.pepites,
            final(self).economy.gold >= old(self).economy.gold,
            final(self).economy.score >= old(self).economy.score,
            final(self).economy.wave_number == old(self).economy.wave_number,
            final(self).max_towers == spec_sweep_slots(
                old(self).enemies@,
                old(self).max_towers as int,
            ),
            final(self).max_towers >= old(self).max_towers,
            forall|i: int|
                0 <= i < final(self).enemies@.len() ==> (#[trigger] final(self).enemies@[i]).hp
                    > 0,
            *final(self) == (GameState {
                enemies: final(self).enemies,
                economy: final(self).economy,
                max_towers: final(self).max_towers,
                ..*old(self)
            }),
    {
        proof {
            lemma_sweep_gold_monotone(old(self).enemies@, old(self).economy.gold as int);
            lemma_sweep_gold_monotone(old(self).enemies@, old(self).economy.score as int);
            lemma_sweep_slots_monotone(old(self).enemies@, old(self).max_towers as int);
        }
        let ghost e0 = self.enemies@;
        let ghost alive = |e: Enemy| e.hp > 0;
        let mut i: usize = 0;
        let ghost k: int = 0;
        proof {
            assert(e0.take(0).filter(alive) =~= Seq::<Enemy>::empty());
            assert(e0.skip(0) =~= e0);
            assert(e0.take(0).filter(alive) + e0.skip(0) =~= e0);
        }
        while i < self.enemies.len()
            invariant
                old(self).wf(),
                self.wf(),
                e0 == old(self).enemies@,
                alive == (|e: Enemy| e.hp > 0),
                0 <= k <= e0.len(),
                i == e0.take(k).filter(alive).len(),
                self.enemies@ == e0.take(k).filter(alive) + e0.skip(k),
                self.economy.gold == spec_sweep_gold(e0.take(k), old(self).economy.gold as int),
                self.economy.score == spec_sweep_gold(e0.take(k), old(self).economy.score as int),
                self.economy.pepites >= old(self).economy.pepites,
                self.economy.wave_number == old(self).economy.wave_number,
                self.max_towers == spec_sweep_slots(e0.take(k), old(self).max_towers as int),
                self.max_towers >= old(self).max_towers,
                *self == (GameState {
                    enemies: self.enemies,
                    economy: self.economy,
                    max_towers: self.max_towers,
                    ..*old(self)
                }),
            decreases e0.len() - k,
        {
            proof {
                e0.take(k).lemma_filter_len(alive);
                assert(k < e0.len()) by {
                    if k == e0.len() {
                        assert(e0.skip(k).len() == 0);
                        assert(e0.take(k).filter(alive).len() == i);
                    }
                }
                assert(e0.skip(k)[0] == e0[k]);
                assert(self.enemies@[i as int] == e0[k]);
                assert(e0.take(k + 1).drop_last() =~= e0.take(k));
                assert(e0.take(k + 1).last() == e0[k]);
                assert(e0.take(k + 1) =~= e0.take(k).push(e0[k]));
                lemma_filter_push(e0.take(k), e0[k], alive);
                assert(e0.skip(k).drop_first() =~= e0.skip(k + 1));
            }
            let enemy_dead = self.enemies[i].hp <= 0;
            if enemy_dead {
                let gv = self.enemies[i].gold_value;
                self.economy.gold = u32_add(self.economy.gold, gv);
                self.economy.score = u32_add(self.economy.score, gv);
                if self.enemies[i].is_boss {
                    let drop = crate::rng::rng_range_u32(3, 6);
                    self.economy.pepites = u32_add(self.economy.pepites, drop);
                    self.max_towers = u32_add(self.max_towers, 1);
                } else {
                    let roll = crate::rng::rng_range_u32(0, 100);
                    if roll < 10 {
                        self.economy.pepites = u32_add(self.economy.pepites, 1);
                    }
                }
                let ghost prev = self.enemies@;
                self.enemies.remove(i);
                proof {
                    assert(e0.take(k + 1).filter(alive) =~= e0.take(k).filter(alive));
                    assert(self.enemies@ == prev.remove(i as int));
                    assert forall|m: int|
                        0 <= m < self.enemies@.len() implies #[trigger] self.enemies@[m] == (
                    e0.take(k + 1).filter(alive) + e0.skip(k + 1))[m] by {
                        if m < i {
                            assert(prev.remove(i as int)[m] == prev[m]);
                        } else {
                            assert(prev.remove(i as int)[m] == prev[m + 1]);
                            assert(prev[m + 1] == e0.skip(k)[m + 1 - i]);
                            assert(e0.skip(k)[m + 1 - i] == e0[k + m + 1 - i]);
                            assert(e0.skip(k + 1)[m - i] == e0[k + 1 + m - i]);
                        }
                    }
                    assert(self.enemies@ =~= e0.take(k + 1).filter(alive) + e0.skip(k + 1));
                }
            } else {
                i = i + 1;
                proof {
                    assert(e0.take(k + 1).filter(alive) =~= e0.take(k).filter(alive).push(e0[k]));
                    assert forall|m: int|
                        0 <= m < self.enemies@.len() implies #[trigger] self.enemies@[m] == (
                    e0.take(k + 1).filter(alive) + e0.skip(k + 1))[m] by {
                        let t = e0.take(k).filter(alive);
                        if m < t.len() {
                        } else if m == t.len() {
                            assert(self.enemies@[m] == e0.skip(k)[0]);
                            assert(e0.skip(k)[0] == e0[k]);
                        } else {
                            assert(self.enemies@[m] == e0.skip(k)[m - t.len()]);
                            assert(e0.skip(k)[m - t.len()] == e0[k + m - t.len()]);
                            assert(e0.skip(k + 1)[m - t.len() - 1] == e0[k + m - t.len()]);
                        }
                    }
                    assert(self.enemies@ =~= e0.take(k + 1).filter(alive) + e0.skip(k + 1));
                }
            }
            proof {
                k = k + 1;
            }
        }
        proof {
            e0.take(k).lemma_filter_len(alive);
            assert(k == e0.len()) by {
                if k < e0.len() {
                    assert(e0.skip(k).len() > 0);
                }
            }
            assert(e0.take(k) =~= e0);
            assert(e0.skip(k).len() == 0);
            assert(self.enemies@ =~= e0.filter(alive));
            assert forall|m: int| 0 <= m < self.enemies@.len() implies (
            #[trigger] self.enemies@[m]).hp > 0 by {
                e0.lemma_filter_pred(alive, m);
            }
        }
    }

    /// Prune spent projectiles and advance the visual timers.
    fn phase_prune(&mut self, dt: i64)
        requires
            old(self).wf(),
            0 < dt <= DT_LIMIT,
        ensures
            final(self).wf(),
            *final(self) == (GameState {
                projectiles: final(self).projectiles,
                aoe_splashes: final(self).aoe_splashes,
                gold_pulses: final(self).gold_pulses,
                laser_beams: final(self).laser_beams,
                ..*old(self)
            }),
    {
        let mut i: usize = 0;
        while i < self.projectiles.len()
            invariant
                projectiles_wf(self.projectiles@),
                0 <= i <= self.projectiles@.len(),
                *self == (GameState { projectiles: self.projectiles, ..*old(self) }),
            decreases self.projectiles@.len() - i,
        {
            let keep = match self.projectiles[i].fade_timer {
                Some(f) => f > 0,
                None => self.projectiles[i].lifetime > 0,
            };
            if keep {
                i = i + 1;
            } else {
                self.projectiles.remove(i);
            }
        }
        let mut j: usize = 0;
        while j < self.aoe_splashes.len()
            invariant
                projectiles_wf(self.projectiles@),
                0 <= j <= self.aoe_splashes@.len(),
                0 < dt,
                *self == (GameState {
                    projectiles: self.projectiles,
                    aoe_splashes: self.aoe_splashes,
                    ..*old(self)
                }),
            decreases self.aoe_splashes@.len() - j,
        {
            let next = self.aoe_splashes[j].lifetime;
            if next > dt {
                let sp = vstd::std_specs::vec::vec_index_mut(&mut self.aoe_splashes, j);
                sp.lifetime = next - dt;
                j = j + 1;
            } else {
                self.aoe_splashes.remove(j);
            }
        }
        let mut p: usize = 0;
        while p < self.gold_pulses.len()
            invariant
                projectiles_wf(self.projectiles@),
                0 <= p <= self.gold_pulses@.len(),
                0 < dt,
                *self == (GameState {
                    projectiles: self.projectiles,
                    aoe_splashes: self.aoe_splashes,
                    gold_pulses: self.gold_pulses,
                    ..*old(self)
                }),
            decreases self.gold_pulses@.len() - p,
        {
            let next = self.gold_pulses[p].lifetime;
            if next > dt {
                let gp = vstd::std_specs::vec::vec_index_mut(&mut self.gold_pulses, p);
                gp.lifetime = next - dt;
                p = p + 1;
            } else {
                self.gold_pulses.remove(p);
            }
        }
        let mut b: usize = 0;
        while b < self.laser_beams.len()
            invariant
                projectiles_wf(self.projectiles@),
                0 <= b <= self.laser_beams@.len(),
                0 < dt,
                *self == (GameState {
                    projectiles: self.projectiles,
                    aoe_splashes: self.aoe_splashes,
                    gold_pulses: self.gold_pulses,
                    laser_beams: self.laser_beams,
                    ..*old(self)
                }),
            decreases self.laser_beams@.len() - b,
        {
            let next = self.laser_beams[b].lifetime;
            if next > dt {
                let lb = vstd::std_specs::vec::vec_index_mut(&mut self.laser_beams, b);
                lb.lifetime = next - dt;
                b = b + 1;
            } else {
                self.laser_beams.remove(b);
            }
        }
    }

    /// With the shield down, enemies that reach the player leave the field
    /// and deal their contact damage.
    fn phase_contact_damage(&mut self)
        requires
            old(self).wf(),
        ensures
            final(self).wf(),
            old(self).shield.active ==> *final(self) == *old(self),
            *final(self) == (GameState {
                enemies: final(self).enemies,
                player: final(self).player,
                ..*old(self)
            }),
            (forall|i: int|
                0 <= i < old(self).enemies@.len() ==> (#[trigger] old(self).enemies@[i]).hp > 0)
                ==> forall|i: int|
                0 <= i < final(self).enemies@.len() ==> (#[trigger] final(self).enemies@[i]).hp
                    > 0,
    {
        if self.shield.active {
            return ;
        }
        let center = Point2D::zero();
        let player_radius = self.player.radius;
        let mut contact_damage: i64 = 0;
        let mut i: usize = 0;
        while i < self.enemies.len()
            invariant
                old(self).wf(),
                self.wf(),
                center.in_bounds(),
                0 <= player_radius <= COORD_LIMIT,
                0 <= i <= self.enemies@.len(),
                0 <= contact_damage <= crate::units::DAMAGE_LIMIT,
                *self == (GameState { enemies: self.enemies, ..*old(self) }),
                (forall|x: int|
                    0 <= x < old(self).enemies@.len() ==> (#[trigger] old(self).enemies@[x]).hp
                        > 0) ==> forall|x: int|
                    0 <= x < self.enemies@.len() ==> (#[trigger] self.enemies@[x]).hp > 0,
            decreases self.enemies@.len() - i,
        {
            let reach = player_radius + self.enemies[i].radius;
            proof {
                crate::geom::lemma_square_bound(reach as int, 2 * COORD_LIMIT as int);
            }
            if self.enemies[i].position.dist_sq(&center) < reach * reach {
                contact_damage = add_damage(contact_damage, self.enemies[i].damage);
                self.enemies.remove(i);
            } else {
                i = i + 1;
            }
        }
        self.player.hp = hp_sub(self.player.hp, contact_damage);
    }

    /// The game-over check: at zero health the run ends, health clamps to
    /// zero, and the session's currency and records merge into the
    /// persistent record.
    fn phase_game_over(&mut self)
        requires
            old(self).wf(),
        ensures
            final(self).wf(),
            old(self).player.hp > 0 ==> *final(self) == *old(self),
            old(self).player.hp <= 0 ==> {
                &&& final(self).player.hp == 0
                &&& final(self).phase == GamePhase::GameOver
                &&& final(self).save_data.pepites == spec_u32_add(
                    old(self).save_data.pepites as int,
                    old(self).economy.pepites as int,
                )
                &&& final(self).save_data.best_score == spec_max_i64(
                    old(self).save_data.best_score as int,
                    old(self).economy.score as int,
                )
                &&& final(self).save_data.max_wave == spec_max_i64(
                    old(self).save_data.max_wave as int,
                    old(self).economy.wave_number as int,
                )
            },
            final(self).economy == old(self).economy,
            *final(self) == (GameState {
                player: final(self).player,
                phase: final(self).phase,
                save_data: final(self).save_data,
                ..*old(self)
            }),
    {
        if self.player.hp <= 0 {
            self.player.hp = 0;
            self.phase = GamePhase::GameOver;
            self.save_data.pepites = u32_add(self.save_data.pepites, self.economy.pepites);
            if self.economy.score > self.save_data.best_score {
                self.save_data.best_score = self.economy.score;
            }
            if self.economy.wave_number > self.save_data.max_wave {
                self.save_data.max_wave = self.economy.wave_number;
            }
        }
    }
}

/// Filtering after a push keeps the element exactly when it passes.
pub proof fn lemma_filter_push<A>(s: Seq<A>, x: A, pred: spec_fn(A) -> bool)
    ensures
        s.push(x).filter(pred) == if pred(x) {
            s.filter(pred).push(x)
        } else {
            s.filter(pred)
        },
{
    reveal(Seq::filter);
    assert(s.push(x).drop_last() =~= s);
    assert(s.push(x).last() == x);
}

/// A permutation of in-range indices stays in range.
proof fn lemma_shuffled_bound(s_new: Seq<usize>, s_old: Seq<usize>, bound: int)
    requires
        s_new.to_multiset() == s_old.to_multiset(),
        forall|j: int| 0 <= j < s_old.len() ==> #[trigger] s_old[j] < bound,
    ensures
        forall|i: int| 0 <= i < s_new.len() ==> #[trigger] s_new[i] < bound,
{
    broadcast use vstd::seq_lib::group_to_multiset_ensures;

    assert forall|i: int| 0 <= i < s_new.len() implies #[trigger] s_new[i] < bound by {
        assert(s_new.contains(s_new[i]));
        assert(s_new.to_multiset().count(s_new[i]) > 0);
        assert(s_old.to_multiset().count(s_new[i]) > 0);
        assert(s_old.contains(s_new[i]));
        let j = choose|j: int| 0 <= j < s_old.len() && s_old[j] == s_new[i];
    }
}

/// Gold and score paid by a death sweep: each fallen enemy's value joins
/// the running saturating total.
pub open spec fn spec_sweep_gold(enemies: Seq<Enemy>, start: int) -> int
    decreases enemies.len(),
{
    if enemies.len() == 0 {
        start
    } else {
        let prior = spec_sweep_gold(enemies.drop_last(), start);
        if enemies.last().hp <= 0 {
            spec_u32_add(prior, enemies.last().gold_value as int)
        } else {
            prior
        }
    }
}

/// A sweep never takes money away.
pub proof fn lemma_sweep_gold_monotone(enemies: Seq<Enemy>, start: int)
    requires
        0 <= start <= u32::MAX,
    ensures
        start <= spec_sweep_gold(enemies, start) <= u32::MAX,
    decreases enemies.len(),
{
    if enemies.len() > 0 {
        lemma_sweep_gold_monotone(enemies.drop_last(), start);
    }
}

/// Tower slots granted by a death sweep: one per fallen boss, joining the
/// running saturating total.
pub open spec fn spec_sweep_slots(enemies: Seq<Enemy>, start: int) -> int
    decreases enemies.len(),
{
    if enemies.len() == 0 {
        start
    } else {
        let prior = spec_sweep_slots(enemies.drop_last(), start);
        if enemies.last().hp <= 0 && enemies.last().is_boss {
            spec_u32_add(prior, 1)
        } else {
            prior
        }
    }
}

/// A sweep never takes slots away.
pub proof fn lemma_sweep_slots_monotone(enemies: Seq<Enemy>, start: int)
    requires
        0 <= start <= u32::MAX,
    ensures
        start <= spec_sweep_slots(enemies, start) <= u32::MAX,
    decreases enemies.len(),
{
    if enemies.len() > 0 {
        lemma_sweep_slots_monotone(enemies.drop_last(), start);
    }
}

/// Sum of the fixed damage entries an enemy projectile carries.
fn fixed_damage_sum(actions: &Vec<ResolvedAction>) -> (r: i64)
    requires
        forall|i: int| 0 <= i < actions@.len() ==> resolved_ok(#[trigger] actions@[i]),
    ensures
        0 <= r <= crate::units::DAMAGE_LIMIT,
{
    let mut total: i64 = 0;
    let mut i: usize = 0;
    while i < actions.len()
        invariant
            forall|x: int| 0 <= x < actions@.len() ==> resolved_ok(#[trigger] actions@[x]),
            0 <= i <= actions@.len(),
            0 <= total <= crate::units::DAMAGE_LIMIT,
        decreases actions@.len() - i,
    {
        match &actions[i] {
            ResolvedAction::ApplyDamage { damage: ResolvedDamage::Fixed(d), .. } => {
                total = add_damage(total, *d);
            },
            _ => {},
        }
        i = i + 1;
    }
    total
}

/// Does any utility tower ask for the low-shield alert?
fn any_tower_wants_low_shield_alert(towers: &Vec<Tower>) -> (r: bool) {
    let mut i: usize = 0;
    while i < towers.len()
        invariant
            0 <= i <= towers@.len(),
        decreases towers@.len() - i,
    {
        match &towers[i].notification_settings {
            Some(settings) => {
                if settings.shield_low {
                    return true;
                }
            },
            None => {},
        }
        i = i + 1;
    }
    false
}

/// First enemy whose body the projectile head touches.
fn first_enemy_hit(enemies: &Vec<Enemy>, at: &Point2D) -> (r: Option<usize>)
    requires
        at.in_bounds(),
        enemies_wf(enemies@),
    ensures
        match r {
            Some(i) => i < enemies@.len(),
            None => true,
        },
{
    let mut i: usize = 0;
    while i < enemies.len()
        invariant
            at.in_bounds(),
            enemies_wf(enemies@),
            0 <= i <= enemies@.len(),
        decreases enemies@.len() - i,
    {
        let reach = enemies[i].radius + 10_000;
        proof {
            crate::geom::lemma_square_bound(reach as int, 2 * COORD_LIMIT as int);
        }
        if enemies[i].position.dist_sq(at) < reach * reach {
            return Some(i);
        }
        i = i + 1;
    }
    None
}

/// The target budget an action list implies: the largest multi-target
/// count, one for single-target or impact actions, none for pure passives.
fn max_targets_of(resolved: &Vec<ResolvedAction>) -> (r: usize)
    ensures
        r <= crate::units::COUNT_LIMIT + 1,
{
    let mut max: usize = 0;
    let mut seen_any: bool = false;
    let mut i: usize = 0;
    while i < resolved.len()
        invariant
            0 <= i <= resolved@.len(),
            max <= crate::units::COUNT_LIMIT + 1,
        decreases resolved@.len() - i,
    {
        let cand: usize = match &resolved[i] {
            ResolvedAction::ApplyDamage { target, .. } | ResolvedAction::ApplyEffect {
                target,
                ..
            } | ResolvedAction::ApplyElementalState { target, .. } | ResolvedAction::ApplyCold {
                target,
                ..
            } => match target {
                EffectTarget::Multi(n) => {
                    if *n <= crate::units::COUNT_LIMIT {
                        *n as usize
                    } else {
                        crate::units::COUNT_LIMIT as usize
                    }
                },
                _ => 1,
            },
            ResolvedAction::GoldGen { .. } | ResolvedAction::AuraEffect { .. }
                | ResolvedAction::LifeSteal { .. } | ResolvedAction::ConditionalDamage { .. }
                | ResolvedAction::RandomBombard { .. } | ResolvedAction::ColdAura { .. }
                | ResolvedAction::Glaciation { .. } | ResolvedAction::PassiveBurnAura { .. }
                | ResolvedAction::CometStrike { .. } => 0,
            ResolvedAction::ImpactAura { .. } | ResolvedAction::ImpactColdAura { .. }
                | ResolvedAction::Annihilate { .. } => 1,
        };
        if !seen_any || cand > max {
            max = cand;
            seen_any = true;
        }
        i = i + 1;
    }
    if !seen_any {
        1
    } else {
        max
    }
}

/// Every stored shop level at most `cap` bounds the looked-up level too.
pub proof fn lemma_upgrade_level_bounded(
    entries: Seq<crate::save::ShopUpgradeState>,
    id: Seq<char>,
    cap: int,
)
    requires
        forall|i: int| 0 <= i < entries.len() ==> (#[trigger] entries[i]).level <= cap,
        0 <= cap,
    ensures
        0 <= crate::save::spec_upgrade_level(entries, id) <= cap,
    decreases entries.len(),
{
    if entries.len() > 0 {
        if entries[0].id@ == id {
        } else {
            assert(forall|i: int|
                0 <= i < entries.drop_first().len() ==> (#[trigger] entries.drop_first()[i]).level
                    == entries[i + 1].level);
            lemma_upgrade_level_bounded(entries.drop_first(), id, cap);
        }
    }
}

} // verus!
