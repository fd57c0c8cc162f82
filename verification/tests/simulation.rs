//! Scenario tests of the simulation core: the elemental state machine,
//! tower lifecycle, the economy, and full ticks.

use sentinels_core::defs::{EffectTarget, ResolvedAction, ResolvedDamage, TowerKind};
use sentinels_core::elemental::{ElementalStateKind, TowerElement};
use sentinels_core::enemy::{Enemy, EnemyShape};
use sentinels_core::game::{GamePhase, GameState, Shield};
use sentinels_core::geom::Point2D;
use sentinels_core::projectile::{Projectile, ProjectileSource};
use sentinels_core::save::SaveData;
use sentinels_core::tower::{SkillUpgradeId, Tower};

fn fresh_enemy() -> Enemy {
    Enemy::new(0, EnemyShape::Square, 1, Point2D { x: 200_000, y: 0 })
}

#[test]
fn cold_on_soaked_freezes_and_consumes_both() {
    let mut e = fresh_enemy();
    e.apply_soaked(600, 4_000);
    assert!(e.has_state(ElementalStateKind::Soaked));
    let froze = e.apply_cold(2_000, 4_000);
    assert!(froze);
    assert!(e.has_state(ElementalStateKind::Frozen));
    assert!(!e.has_state(ElementalStateKind::Soaked));
    assert!(!e.has_state(ElementalStateKind::Cold));
    assert_eq!(e.freeze_immunity, 4_000);
}

#[test]
fn freeze_immunity_rejects_soaked_and_cold() {
    let mut e = fresh_enemy();
    e.apply_frozen(0);
    // Let the zero-length freeze expire; the immunity stays armed.
    e.tick_elemental_states(100);
    assert!(!e.has_state(ElementalStateKind::Frozen));
    assert!(e.freeze_immunity > 0);
    e.apply_soaked(600, 4_000);
    let froze = e.apply_cold(2_000, 4_000);
    assert!(!froze);
    assert!(!e.has_state(ElementalStateKind::Soaked));
    assert!(!e.has_state(ElementalStateKind::Cold));
    assert_eq!(e.count_states(), 0);
}

#[test]
fn frozen_blocks_every_new_state() {
    let mut e = fresh_enemy();
    e.apply_soaked(600, 4_000);
    assert!(e.apply_cold(2_000, 4_000));
    // Frozen is up: nothing new lands, not even Burned or Seismic.
    e.apply_burned(5_000, 4_000);
    e.apply_seismic(150, 4_000);
    e.apply_soaked(600, 4_000);
    assert_eq!(e.count_states(), 1);
    assert!(e.has_state(ElementalStateKind::Frozen));
}

#[test]
fn surpression_amplifies_damage_by_twenty_percent() {
    let mut e = fresh_enemy();
    e.apply_burned(5_000, 4_000);
    e.apply_soaked(600, 4_000);
    assert_eq!(e.surpression_multiplier(), 1_200);
    let hp0 = e.hp;
    // Base damage of 10 points lands as exactly 12.
    e.take_damage(10_000, TowerElement::Neutral);
    assert_eq!(e.hp, hp0 - 12_000);
}

#[test]
fn no_surpression_without_both_states() {
    let mut e = fresh_enemy();
    e.apply_burned(5_000, 4_000);
    let hp0 = e.hp;
    e.take_damage(10_000, TowerElement::Neutral);
    assert_eq!(e.hp, hp0 - 10_000);
}

#[test]
fn burned_on_soaked_evaporates_the_soak() {
    let mut e = fresh_enemy();
    e.apply_soaked(600, 4_000);
    e.apply_burned(5_000, 4_000);
    assert!(e.has_state(ElementalStateKind::Burned));
    assert!(!e.has_state(ElementalStateKind::Soaked));
}

#[test]
fn state_reapplication_keeps_strongest_never_stacks() {
    let mut e = fresh_enemy();
    e.apply_burned(5_000, 4_000);
    // Wait out the one-second reapplication cooldown.
    e.tick(1_100, &Point2D { x: 0, y: 0 }, None);
    e.apply_burned(3_000, 9_000);
    assert_eq!(e.count_states(), 1);
    // Strongest damage per second and the longer duration survive; the
    // first tick already ran the clock down by 1.1 seconds.
    let burned = e
        .elemental_states
        .iter()
        .find(|s| s.kind == ElementalStateKind::Burned)
        .unwrap();
    assert_eq!(burned.strength, 5_000);
    assert_eq!(burned.remaining, 9_000);
}

#[test]
fn state_cooldown_drops_rapid_reapplication() {
    let mut e = fresh_enemy();
    e.apply_soaked(600, 4_000);
    // Immediately reapplying with a stronger slow is dropped.
    e.apply_soaked(300, 9_000);
    let soaked = e
        .elemental_states
        .iter()
        .find(|s| s.kind == ElementalStateKind::Soaked)
        .unwrap();
    assert_eq!(soaked.strength, 600);
    assert_eq!(soaked.remaining, 4_000);
}

#[test]
fn elemental_reaction_steam_slows() {
    let mut e = fresh_enemy();
    e.take_damage(1_000, TowerElement::Fire);
    assert_eq!(e.applied_elements.len(), 1);
    e.take_damage(1_000, TowerElement::Water);
    assert_eq!(e.applied_elements.len(), 0);
    assert_eq!(e.slow_factor, 500);
    assert_eq!(e.slow_duration, 2_000);
}

#[test]
fn killing_blow_goes_below_zero() {
    let mut e = fresh_enemy();
    e.hp = 10_000;
    e.max_hp = 10_000;
    e.take_damage(15_000, TowerElement::Neutral);
    assert_eq!(e.hp, -5_000);
    assert!(e.is_dead());
}

#[test]
fn lethal_hit_is_swept_and_pays_exactly_once() {
    let save = SaveData::new();
    let mut g = GameState::new(&save);
    let mut e = fresh_enemy();
    e.hp = 10_000;
    e.max_hp = 10_000;
    e.gold_value = 5;
    e.stun_duration = 100_000; // hold it still for the tick
    let pos = e.position;
    g.enemies.push(e);
    let mut actions = Vec::new();
    actions.push(ResolvedAction::ApplyDamage {
        target: EffectTarget::Single,
        damage: ResolvedDamage::Fixed(15_000),
    });
    g.projectiles.push(Projectile {
        origin: pos,
        target_pos: pos,
        current_pos: pos,
        speed: 0,
        element: TowerElement::Neutral,
        source: ProjectileSource::Tower(0),
        actions,
        lifetime: 3_000,
        target_enemy_id: None,
        fade_timer: None,
        size: 1_000,
    });
    let gold0 = g.economy.gold;
    g.tick(16);
    assert_eq!(g.enemies.len(), 0, "dead enemy pruned in the same tick");
    assert_eq!(g.economy.gold, gold0 + 5, "gold awarded exactly once");
    assert_eq!(g.economy.score, 5, "score awarded exactly once");
}

#[test]
fn placing_a_tower_pays_and_selects_it() {
    let save = SaveData::new();
    let mut g = GameState::new(&save);
    assert_eq!(g.economy.gold, 500);
    assert!(g.try_place_tower(TowerKind::Sentinelle, 100_000, 100_000));
    assert_eq!(g.economy.gold, 450);
    assert_eq!(g.towers.len(), 1);
    assert_eq!(g.towers[0].position, Point2D { x: 100_000, y: 100_000 });
    assert_eq!(g.selected_tower, Some(0));
}

#[test]
fn placement_rejections_change_nothing() {
    let save = SaveData::new();
    let mut g = GameState::new(&save);
    // On top of the player.
    assert!(!g.try_place_tower(TowerKind::Sentinelle, 0, 0));
    assert_eq!(g.towers.len(), 0);
    assert_eq!(g.economy.gold, 500);
    // Too close to another tower.
    assert!(g.try_place_tower(TowerKind::Sentinelle, 100_000, 100_000));
    assert!(!g.try_place_tower(TowerKind::Sentinelle, 110_000, 100_000));
    assert_eq!(g.towers.len(), 1);
    assert_eq!(g.economy.gold, 450);
    // Too little gold.
    g.economy.gold = 10;
    assert!(!g.try_place_tower(TowerKind::Sentinelle, 300_000, 300_000));
    assert_eq!(g.towers.len(), 1);
    assert_eq!(g.economy.gold, 10);
}

#[test]
fn selling_refunds_half_of_the_investment() {
    let save = SaveData::new();
    let mut g = GameState::new(&save);
    assert!(g.try_place_tower(TowerKind::Sentinelle, 100_000, 100_000));
    assert_eq!(g.economy.gold, 450);
    assert!(g.purchase_skill(0, 1)); // second slot costs 60
    assert_eq!(g.economy.gold, 390);
    assert_eq!(g.towers[0].sell_value(), (50 + 0 + 60) / 2);
    g.sell_tower(0);
    assert_eq!(g.economy.gold, 390 + 55);
    assert_eq!(g.towers.len(), 0);
    assert_eq!(g.selected_tower, None);
}

#[test]
fn at_most_one_active_skill_over_any_sequence() {
    let save = SaveData::new();
    let mut g = GameState::new(&save);
    g.economy.gold = 10_000;
    g.try_place_tower(TowerKind::Sentinelle, 100_000, 100_000);
    assert!(g.purchase_skill(0, 1));
    assert!(g.purchase_skill(0, 2));
    assert!(g.activate_skill(0, 1));
    assert!(g.activate_skill(0, 2));
    assert!(g.activate_skill(0, 2));
    let actives = g.towers[0].skills.iter().filter(|s| s.is_active()).count();
    assert_eq!(actives, 1);
    assert_eq!(g.towers[0].active_skill_index, Some(2));
    // Rejections: already purchased, locked activation, bad indices.
    assert!(!g.purchase_skill(0, 1));
    assert!(!g.activate_skill(0, 5));
    assert!(!g.purchase_skill(3, 1));
}

#[test]
fn upgrades_never_exceed_max_level_and_cost_rises() {
    let mut t = Tower::from_def(0, TowerKind::Sentinelle, Point2D { x: 0, y: 100_000 });
    let id = SkillUpgradeId::Action { action_idx: 0, upgrade_idx: 0 };
    let mut last_cost = 0;
    let mut applied = 0;
    for _ in 0..10 {
        if let Some(c) = t.skill_upgrade_cost(0, id) {
            assert!(c >= last_cost, "cost is monotone in the level");
            last_cost = c;
        }
        if t.apply_upgrade_to_skill(0, id) {
            applied += 1;
        }
    }
    // The damage upgrade allows five levels; the rest are rejected.
    assert_eq!(applied, 5);
    assert!(t.skill_upgrade_cost(0, id).is_none());
}

#[test]
fn resolution_adds_bonus_per_level() {
    let mut t = Tower::from_def(0, TowerKind::Sentinelle, Point2D { x: 0, y: 100_000 });
    let id = SkillUpgradeId::Action { action_idx: 0, upgrade_idx: 0 };
    assert!(t.apply_upgrade_to_skill(0, id));
    assert!(t.apply_upgrade_to_skill(0, id));
    let resolved = t.resolved_actions();
    assert_eq!(resolved.len(), 1);
    // Base 10 damage plus two levels of +2.
    assert_eq!(
        resolved[0],
        ResolvedAction::ApplyDamage {
            target: EffectTarget::Single,
            damage: ResolvedDamage::Fixed(14_000),
        }
    );
}

#[test]
fn upgrade_through_game_state_pays_gold() {
    let save = SaveData::new();
    let mut g = GameState::new(&save);
    g.try_place_tower(TowerKind::Sentinelle, 100_000, 100_000);
    let id = SkillUpgradeId::Action { action_idx: 0, upgrade_idx: 0 };
    let gold0 = g.economy.gold;
    assert!(g.upgrade_tower_skill(0, 0, id));
    assert_eq!(g.economy.gold, gold0 - 30);
    assert!(g.upgrade_tower_skill(0, 0, id));
    assert_eq!(g.economy.gold, gold0 - 30 - 55);
}

#[test]
fn game_over_tick_changes_nothing() {
    let save = SaveData::new();
    let mut g = GameState::new(&save);
    g.phase = GamePhase::GameOver;
    let gold0 = g.economy.gold;
    let elapsed0 = g.elapsed;
    g.tick(16);
    assert_eq!(g.economy.gold, gold0);
    assert_eq!(g.elapsed, elapsed0);
    assert_eq!(g.phase, GamePhase::GameOver);
}

#[test]
fn game_over_merges_session_into_save() {
    let save = SaveData::new();
    let mut g = GameState::new(&save);
    g.player.hp = 0;
    g.economy.score = 123;
    g.economy.pepites = 7;
    g.economy.wave_number = 4;
    g.tick(16);
    assert_eq!(g.phase, GamePhase::GameOver);
    assert_eq!(g.save_data.pepites, 7);
    assert_eq!(g.save_data.best_score, 123);
    assert_eq!(g.save_data.max_wave, 4);
    assert_eq!(g.player.hp, 0);
}

#[test]
fn start_wave_and_speed_toggle() {
    let save = SaveData::new();
    let mut g = GameState::new(&save);
    assert_eq!(g.phase, GamePhase::Preparing);
    g.start_wave();
    assert_eq!(g.phase, GamePhase::Active);
    assert_eq!(g.economy.wave_number, 1);
    assert_eq!(g.speed_multiplier, 1);
    g.cycle_speed();
    assert_eq!(g.speed_multiplier, 2);
    g.cycle_speed();
    assert_eq!(g.speed_multiplier, 3);
    g.cycle_speed();
    assert_eq!(g.speed_multiplier, 1);
}

#[test]
fn shield_levels() {
    let none = Shield::new(0);
    assert!(!none.active);
    assert!(!none.is_unlocked());
    let two = Shield::new(2);
    assert!(two.active);
    assert_eq!(two.max_hp, 100_000);
    assert_eq!(two.radius, 80_000);
}

#[test]
fn move_tower_charges_a_quarter_of_the_sale() {
    let save = SaveData::new();
    let mut g = GameState::new(&save);
    g.try_place_tower(TowerKind::Sentinelle, 100_000, 100_000);
    // Sale value 25, so the move fee is (25 + 3) / 4 = 7.
    assert_eq!(g.move_cost(0), (25 + 3) / 4);
    let gold0 = g.economy.gold;
    assert!(g.try_move_tower(0, 200_000, 200_000));
    assert_eq!(g.economy.gold, gold0 - 7);
    assert_eq!(g.towers[0].position, Point2D { x: 200_000, y: 200_000 });
}
