//! Lifecycle tests: spawning, movement, ticking waves, chains, the skill
//! graph, and aura display zones.

use sentinels_core::defs::TowerKind;
use sentinels_core::elemental::TowerElement;
use sentinels_core::enemy::{Enemy, EnemyShape};
use sentinels_core::game::{GamePhase, GameState};
use sentinels_core::geom::Point2D;
use sentinels_core::save::SaveData;
use sentinels_core::skill_tree::{SkillEffect, SkillNode, SkillTree};
use sentinels_core::targeting::find_chain_next;
use sentinels_core::tower::{SkillUpgradeId, Tower};
use sentinels_core::wave::WaveManager;

#[test]
fn enemies_walk_toward_the_center() {
    let mut e = Enemy::new(0, EnemyShape::Square, 1, Point2D { x: 200_000, y: 0 });
    let x0 = e.position.x;
    e.tick(100, &Point2D { x: 0, y: 0 }, None);
    assert!(e.position.x < x0);
    assert_eq!(e.position.y, 0);
}

#[test]
fn stunned_enemies_stand_still() {
    let mut e = Enemy::new(0, EnemyShape::Square, 1, Point2D { x: 200_000, y: 0 });
    e.apply_stun(5_000);
    let p0 = e.position;
    e.tick(100, &Point2D { x: 0, y: 0 }, None);
    assert_eq!(e.position, p0);
}

#[test]
fn legacy_burn_ticks_damage_and_expires() {
    let mut e = Enemy::new(0, EnemyShape::Square, 1, Point2D { x: 200_000, y: 0 });
    e.apply_burn(4_000, 1_500);
    let hp0 = e.hp;
    e.tick(1_000, &Point2D { x: 0, y: 0 }, None);
    assert_eq!(e.hp, hp0 - 4_000);
    e.tick(1_000, &Point2D { x: 0, y: 0 }, None);
    assert_eq!(e.hp, hp0 - 8_000);
    assert!(e.burn.is_none(), "burn expired after its duration");
}

#[test]
fn wave_manager_spawns_on_its_interval() {
    let mut w = WaveManager::new();
    w.start_next_wave();
    let queued = w.enemies_to_spawn.len();
    assert!(queued > 0);
    // The first frame pulls the timer to zero and spawns one enemy.
    let spawned = w.tick(16, (1_200_000, 800_000));
    assert_eq!(spawned.len(), 1);
    assert_eq!(w.enemies_to_spawn.len(), queued - 1);
    assert_eq!(spawned[0].id, 0);
    // The interval now gates the next spawn.
    let none = w.tick(16, (1_200_000, 800_000));
    assert_eq!(none.len(), 0);
}

#[test]
fn between_waves_countdown_restarts_the_next_wave() {
    let save = SaveData::new();
    let mut g = GameState::new(&save);
    g.start_wave();
    assert_eq!(g.economy.wave_number, 1);
    // Drain the spawn queue and the field, then finish the wave.
    g.wave_manager.enemies_to_spawn = Vec::new();
    g.enemies = Vec::new();
    g.tick(16);
    assert_eq!(g.phase, GamePhase::Preparing);
    // Completion pays one hundred gold plus fifty per wave.
    assert_eq!(g.economy.gold, 500 + 150);
    // Let the five-second pause elapse; the next wave starts by itself.
    for _ in 0..320 {
        g.tick(16);
    }
    assert_eq!(g.phase, GamePhase::Active);
    assert_eq!(g.economy.wave_number, 2);
}

#[test]
fn player_fires_at_an_enemy_in_range() {
    let save = SaveData::new();
    let mut g = GameState::new(&save);
    let mut e = Enemy::new(0, EnemyShape::Square, 1, Point2D { x: 100_000, y: 0 });
    e.stun_duration = 100_000;
    g.enemies.push(e);
    g.tick(16);
    assert!(
        g.projectiles.iter().any(|p| p.target_enemy_id == Some(0)),
        "the player fired a homing shot at the enemy",
    );
}

#[test]
fn chain_hops_to_the_nearest_unhit_living_enemy() {
    let a = Enemy::new(0, EnemyShape::Square, 1, Point2D { x: 0, y: 0 });
    let b = Enemy::new(1, EnemyShape::Square, 1, Point2D { x: 50_000, y: 0 });
    let mut c = Enemy::new(2, EnemyShape::Square, 1, Point2D { x: 30_000, y: 0 });
    c.hp = 0; // dead enemies are skipped
    let enemies = vec![a, b, c];
    let hit = vec![0usize];
    let next = find_chain_next(&Point2D { x: 0, y: 0 }, 100_000, &enemies, &hit);
    assert_eq!(next, Some(1));
    let exhausted = find_chain_next(&Point2D { x: 0, y: 0 }, 10_000, &enemies, &hit);
    assert_eq!(exhausted, None);
}

#[test]
fn skill_graph_respects_prerequisites_and_gold() {
    let mut tree = SkillTree::new();
    tree.nodes.push(SkillNode {
        id: 0,
        name: String::from("root"),
        description: String::from("first step"),
        effect: SkillEffect::DamageBonus(1_000),
        cost: 10,
        unlocked: false,
        prerequisites: Vec::new(),
    });
    tree.nodes.push(SkillNode {
        id: 1,
        name: String::from("branch"),
        description: String::from("needs the root"),
        effect: SkillEffect::GoldBonus(2_000),
        cost: 20,
        unlocked: false,
        prerequisites: vec![0],
    });
    assert!(!tree.can_unlock(1, 100), "prerequisite still locked");
    assert!(!tree.can_unlock(0, 5), "too poor");
    assert!(tree.can_unlock(0, 10));
    assert_eq!(tree.unlock(0), Some(SkillEffect::DamageBonus(1_000)));
    assert_eq!(tree.unlock(0), None, "already unlocked");
    assert!(tree.can_unlock(1, 20));
    assert_eq!(tree.unlock(1), Some(SkillEffect::GoldBonus(2_000)));
    assert!(!tree.can_unlock(7, 1_000), "unknown node");
}

#[test]
fn aura_zones_follow_the_purchased_passives() {
    let mut t = Tower::from_def(0, TowerKind::Inferno, Point2D { x: 0, y: 100_000 });
    assert_eq!(t.active_aura_zones().len(), 0, "no aura before the passive is bought");
    let mut gold: u32 = 1_000;
    assert!(t.purchase_skill(1, &mut gold));
    let zones = t.active_aura_zones();
    assert_eq!(zones.len(), 1);
    assert_eq!(zones[0].0, 100_000, "the burn aura's base radius");
}

#[test]
fn enemy_attacks_once_in_range_and_off_cooldown() {
    let mut e = Enemy::new(0, EnemyShape::Square, 1, Point2D { x: 40_000, y: 0 });
    let target = Point2D { x: 0, y: 0 };
    let shot = e.try_attack(&target, 0, 16);
    let p = shot.expect("in range, cooldown starts at zero");
    assert_eq!(p.origin, e.position);
    assert_eq!(p.element, TowerElement::Neutral);
    // The cooldown now holds fire.
    assert!(e.try_attack(&target, 0, 16).is_none());
    // Out of range: no shot and no cooldown spent.
    let mut far = Enemy::new(1, EnemyShape::Square, 1, Point2D { x: 400_000, y: 0 });
    assert!(far.try_attack(&target, 0, 16).is_none());
}

#[test]
fn selection_toggles_on_the_first_hit_tower() {
    let save = SaveData::new();
    let mut g = GameState::new(&save);
    assert!(g.try_place_tower(TowerKind::Sentinelle, 100_000, 0));
    assert!(g.try_place_tower(TowerKind::Sentinelle, 200_000, 0));
    g.try_select_at(101_000, 0);
    assert_eq!(g.selected_tower, Some(0));
    g.try_select_at(101_000, 0);
    assert_eq!(g.selected_tower, None, "a second click deselects");
    g.try_select_at(200_000, 1_000);
    assert_eq!(g.selected_tower, Some(1));
    g.try_select_at(500_000, 500_000);
    assert_eq!(g.selected_tower, None, "empty ground clears the selection");
}

#[test]
fn move_rejections_leave_the_state_alone() {
    let save = SaveData::new();
    let mut g = GameState::new(&save);
    assert!(g.try_place_tower(TowerKind::Sentinelle, 100_000, 0));
    assert!(g.try_place_tower(TowerKind::Sentinelle, 200_000, 0));
    let gold0 = g.economy.gold;
    // Too close to the other tower.
    assert!(!g.try_move_tower(0, 210_000, 0));
    assert_eq!(g.economy.gold, gold0);
    assert_eq!(g.towers[0].position, Point2D { x: 100_000, y: 0 });
    // On top of the player.
    assert!(!g.try_move_tower(0, 0, 0));
    assert_eq!(g.economy.gold, gold0);
    // Bad index.
    assert!(!g.try_move_tower(9, 400_000, 0));
    assert_eq!(g.economy.gold, gold0);
}

#[test]
fn upgrade_commands_accept_iff_applicable_and_affordable() {
    let save = SaveData::new();
    let mut g = GameState::new(&save);
    assert!(g.try_place_tower(TowerKind::Sentinelle, 100_000, 0));
    let id = SkillUpgradeId::Action { action_idx: 0, upgrade_idx: 0 };
    // Through the active skill.
    assert!(g.upgrade_tower(0, id));
    // Too poor: rejected with nothing spent.
    let towers_before = g.towers[0].level();
    g.economy.gold = 0;
    assert!(!g.upgrade_tower(0, id));
    assert!(!g.upgrade_tower_skill(0, 0, id));
    assert_eq!(g.economy.gold, 0);
    assert_eq!(g.towers[0].level(), towers_before);
    // Absent property: rejected.
    g.economy.gold = 10_000;
    assert!(!g.upgrade_tower_skill(0, 0, SkillUpgradeId::Action { action_idx: 7, upgrade_idx: 0 }));
    // Locked slot: rejected.
    assert!(!g.upgrade_tower_skill(0, 2, id));
}
