//! Exact-value tests of the formulas: wave scaling, counts, costs,
//! geometry, saturating arithmetic, presets, and the random wrappers.

use sentinels_core::catalog::{all_tower_defs, get_def};
use sentinels_core::defs::{
    ActionUpgrade, ActionUpgradeTarget, DamageType, EffectTarget, ResolvedAction, TargetPriority,
    TowerAction, TowerActionDef, TowerKind, UpgradeableProp,
};
use sentinels_core::elemental::{ElementalReaction, ElementalStateKind, TowerElement};
use sentinels_core::enemy::{Enemy, EnemyShape};
use sentinels_core::enemy_types::get_preset;
use sentinels_core::geom::{Point2D, isqrt};
use sentinels_core::rng::{rng_range_i64, rng_range_u32, rng_shuffle_usize};
use sentinels_core::save::{SaveData, shop_upgrades};
use sentinels_core::targeting::{find_n_targets_in_range, find_target_in_range};
use sentinels_core::units::{hp_sub, mul_div, u32_add};
use sentinels_core::wave::WaveManager;

#[test]
fn tier_scaling_at_the_boundaries() {
    // Tier ends: wave 5, 10, 20, 50 and 100.
    assert_eq!(Enemy::get_tier_scaling(1), (1_000, 1_000, 1_000));
    assert_eq!(Enemy::get_tier_scaling(5), (1_150, 1_100, 1_000));
    assert_eq!(Enemy::get_tier_scaling(10), (1_500, 1_300, 1_150));
    assert_eq!(Enemy::get_tier_scaling(20), (2_750, 1_850, 1_500));
    assert_eq!(Enemy::get_tier_scaling(50), (4_145, 2_198, 2_100));
    assert_eq!(Enemy::get_tier_scaling(100), (9_145, 4_698, 3_600));
    // Past one hundred the curve compounds by 3.5 percent per wave.
    let (hp, _, _) = Enemy::get_tier_scaling(101);
    assert_eq!(hp, 9_145 * 1_035 / 1_000);
}

#[test]
fn spawned_enemy_scales_its_preset() {
    let e = Enemy::new(7, EnemyShape::Octagon, 20, Point2D { x: 0, y: 500_000 });
    let preset = get_preset(EnemyShape::Octagon);
    assert_eq!(e.max_hp, preset.base_hp * 2_750 / 1_000);
    assert_eq!(e.hp, e.max_hp);
    assert_eq!(e.damage, preset.base_damage * 1_850 / 1_000);
    assert_eq!(e.gold_value, preset.gold_value * 1_500 / 1_000);
    assert_eq!(e.speed, preset.base_speed);
    assert!(e.is_boss);
    assert_eq!(e.id, 7);
}

#[test]
fn enemy_count_follows_the_piecewise_curve() {
    let w = WaveManager::new();
    assert_eq!(w.calculate_enemy_count(1), 8);
    assert_eq!(w.calculate_enemy_count(20), 46);
    assert_eq!(w.calculate_enemy_count(21), 49);
    assert_eq!(w.calculate_enemy_count(50), 136);
    assert_eq!(w.calculate_enemy_count(51), 140);
    assert_eq!(w.calculate_enemy_count(100), 336);
    assert_eq!(w.calculate_enemy_count(101), 336 * 1_030 / 1_000);
}

#[test]
fn boss_counts_per_tier() {
    assert_eq!(WaveManager::boss_count(4), 0);
    assert_eq!(WaveManager::boss_count(5), 1);
    assert_eq!(WaveManager::boss_count(7), 0);
    assert_eq!(WaveManager::boss_count(20), 2);
    assert_eq!(WaveManager::boss_count(30), 4);
    assert_eq!(WaveManager::boss_count(100), 10);
    assert_eq!(WaveManager::mini_boss_count(20), 0);
    assert_eq!(WaveManager::mini_boss_count(30), 1);
    assert_eq!(WaveManager::mini_boss_count(31), 0);
}

#[test]
fn wave_twenty_queue_has_the_formula_count_and_a_boss() {
    let mut w = WaveManager::new();
    for _ in 0..20 {
        w.start_next_wave();
    }
    assert_eq!(w.current_wave, 20);
    // 46 regulars plus 2 bosses, no mini-bosses at wave 20.
    assert_eq!(w.enemies_to_spawn.len(), 48);
    assert!(w
        .enemies_to_spawn
        .iter()
        .any(|info| info.shape == EnemyShape::Octagon));
}

#[test]
fn upgradeable_property_arithmetic() {
    let mut p = UpgradeableProp::new(10_000, 2_000, 5);
    assert_eq!(p.value(), 10_000);
    assert_eq!(p.cost(), 30);
    for _ in 0..7 {
        p.upgrade();
    }
    assert_eq!(p.current_level, 5, "level is capped at the maximum");
    assert_eq!(p.value(), 20_000);
    assert_eq!(p.cost(), 30 + 25 * 5);
}

#[test]
fn tower_catalog_shape() {
    let defs = all_tower_defs();
    assert_eq!(defs.len(), 10);
    for def in &defs {
        assert_eq!(def.skills.len(), 3);
    }
    let sentinelle = get_def(TowerKind::Sentinelle);
    assert_eq!(sentinelle.base_cost, 50);
    assert_eq!(sentinelle.skills[0].purchase_cost, 0);
    assert_eq!(sentinelle.skills[1].purchase_cost, 60);
    assert_eq!(sentinelle.skills[2].purchase_cost, 100);
    let void = get_def(TowerKind::Void);
    assert_eq!(void.base_cost, 250);
    assert_eq!(void.default_target_priority, TargetPriority::HighestHp);
    assert_eq!(TowerKind::all().len(), 10);
}

#[test]
fn integer_square_root_rounds_down() {
    assert_eq!(isqrt(0), 0);
    assert_eq!(isqrt(10), 3);
    assert_eq!(isqrt(144), 12);
    assert_eq!(isqrt(145), 12);
    assert_eq!(isqrt(1_000_000), 1_000);
}

#[test]
fn distance_between_points() {
    let a = Point2D { x: 0, y: 0 };
    let b = Point2D { x: 3_000, y: 4_000 };
    assert_eq!(a.dist_sq(&b), 25_000_000);
    assert_eq!(a.distance_to(&b), 5_000);
}

#[test]
fn saturating_and_clamped_arithmetic() {
    assert_eq!(u32_add(1, 2), 3);
    assert_eq!(u32_add(u32::MAX, 5), u32::MAX);
    assert_eq!(hp_sub(10_000, 15_000), -5_000);
    assert_eq!(mul_div(10_000, 1_200, 1_000), 12_000);
}

#[test]
fn elemental_reactions_are_symmetric_and_partial() {
    assert_eq!(
        ElementalReaction::from_elements(TowerElement::Fire, TowerElement::Water),
        Some(ElementalReaction::Steam)
    );
    assert_eq!(
        ElementalReaction::from_elements(TowerElement::Water, TowerElement::Fire),
        Some(ElementalReaction::Steam)
    );
    assert_eq!(
        ElementalReaction::from_elements(TowerElement::Electric, TowerElement::Earth),
        Some(ElementalReaction::Magnetic)
    );
    assert_eq!(
        ElementalReaction::from_elements(TowerElement::Fire, TowerElement::Fire),
        None
    );
    assert_eq!(
        ElementalReaction::from_elements(TowerElement::Neutral, TowerElement::Fire),
        None
    );
}

#[test]
fn state_kinds_index_the_cooldown_array() {
    assert_eq!(ElementalStateKind::Burned.index(), 0);
    assert_eq!(ElementalStateKind::Soaked.index(), 1);
    assert_eq!(ElementalStateKind::Seismic.index(), 2);
    assert_eq!(ElementalStateKind::Cold.index(), 3);
    assert_eq!(ElementalStateKind::Frozen.index(), 4);
}

#[test]
fn element_names_and_priority_cycle() {
    assert_eq!(TowerElement::Fire.name(), "Feu");
    assert_eq!(TowerElement::Neutral.name(), "Neutre");
    assert_eq!(TargetPriority::Closest.next(), TargetPriority::Farthest);
    assert_eq!(TargetPriority::Farthest.next(), TargetPriority::HighestHp);
    assert_eq!(TargetPriority::HighestHp.next(), TargetPriority::LowestHp);
    assert_eq!(TargetPriority::LowestHp.next(), TargetPriority::Closest);
    assert_eq!(EnemyShape::Octagon.sides(), 8);
}

#[test]
fn targeting_picks_by_priority() {
    let origin = Point2D { x: 0, y: 0 };
    let mut near = Enemy::new(0, EnemyShape::Square, 1, Point2D { x: 50_000, y: 0 });
    let far = Enemy::new(1, EnemyShape::Square, 1, Point2D { x: 90_000, y: 0 });
    near.hp = 99_000;
    let enemies = vec![near, far];
    assert_eq!(
        find_target_in_range(&origin, 100_000, &enemies, TargetPriority::Closest),
        Some(0)
    );
    assert_eq!(
        find_target_in_range(&origin, 100_000, &enemies, TargetPriority::Farthest),
        Some(1)
    );
    assert_eq!(
        find_target_in_range(&origin, 100_000, &enemies, TargetPriority::HighestHp),
        Some(0)
    );
    assert_eq!(
        find_target_in_range(&origin, 100_000, &enemies, TargetPriority::LowestHp),
        Some(1)
    );
    assert_eq!(
        find_target_in_range(&origin, 10_000, &enemies, TargetPriority::Closest),
        None
    );
    let two = find_n_targets_in_range(&origin, 100_000, 5, &enemies, TargetPriority::Closest);
    assert_eq!(two, vec![0, 1]);
    let one = find_n_targets_in_range(&origin, 100_000, 1, &enemies, TargetPriority::Farthest);
    assert_eq!(one, vec![1]);
}

#[test]
fn random_draws_stay_in_range() {
    for _ in 0..200 {
        let v = rng_range_u32(3, 6);
        assert!((3..6).contains(&v));
        let w = rng_range_i64(-10, 11);
        assert!((-10..11).contains(&w));
    }
}

#[test]
fn shuffle_is_a_permutation() {
    let mut v: Vec<usize> = (0..50).collect();
    rng_shuffle_usize(&mut v);
    assert_eq!(v.len(), 50);
    let mut sorted = v.clone();
    sorted.sort();
    let expected: Vec<usize> = (0..50).collect();
    assert_eq!(sorted, expected);
}

#[test]
fn save_records_shop_levels() {
    let mut s = SaveData::new();
    let id = String::from("bonus_gold");
    assert_eq!(s.get_upgrade_level(&id), 0);
    s.pepites = 200;
    s.purchase_upgrade(&id, 80);
    assert_eq!(s.pepites, 120);
    assert_eq!(s.get_upgrade_level(&id), 1);
    s.purchase_upgrade(&id, 120);
    assert_eq!(s.pepites, 0);
    assert_eq!(s.get_upgrade_level(&id), 2);
    // Too poor: nothing changes.
    s.purchase_upgrade(&id, 160);
    assert_eq!(s.get_upgrade_level(&id), 2);
}

#[test]
fn shop_catalog_prices() {
    let shop = shop_upgrades();
    assert_eq!(shop.len(), 7);
    assert_eq!(shop[0].id, "bonus_gold");
    assert_eq!(shop[0].cost(0), 80);
    assert_eq!(shop[0].cost(2), 80 + 40 * 2);
}

#[test]
fn starting_gold_and_slots_come_from_the_save() {
    let mut s = SaveData::new();
    s.pepites = 10_000;
    let gold_id = String::from("bonus_gold");
    let slots_id = String::from("tower_slots");
    s.purchase_upgrade(&gold_id, 0);
    s.purchase_upgrade(&gold_id, 0);
    s.purchase_upgrade(&slots_id, 0);
    let g = sentinels_core::game::GameState::new(&s);
    assert_eq!(g.economy.gold, 500 + 100);
    assert_eq!(g.max_towers, 6);
}

#[test]
fn enemy_presets_match_their_archetypes() {
    let boss = get_preset(EnemyShape::Octagon);
    assert_eq!(boss.base_hp, 250_000);
    assert_eq!(boss.gold_value, 80);
    let scout = get_preset(EnemyShape::Triangle);
    assert_eq!(scout.base_speed, 140_000);
    assert_eq!(scout.gold_value, 5);
}

#[test]
fn multi_target_bonuses_sum_before_flooring() {
    // Two upgrades worth half a target each: summed they add one target.
    let action = TowerAction::ApplyDamage {
        target: EffectTarget::Multi(3),
        damage: DamageType::Fixed(6_000),
    };
    let half_target = UpgradeableProp {
        base: 3_000,
        bonus_per_level: 500,
        max_level: 1,
        current_level: 1,
        cost_base: 30,
        cost_per_level: 25,
    };
    let def = TowerActionDef {
        action,
        upgrades: vec![
            ActionUpgrade { name: "a", prop: half_target, applies_to: ActionUpgradeTarget::MaxTargets },
            ActionUpgrade { name: "b", prop: half_target, applies_to: ActionUpgradeTarget::MaxTargets },
        ],
    };
    match def.resolve() {
        ResolvedAction::ApplyDamage { target: EffectTarget::Multi(n), .. } => {
            assert_eq!(n, 4, "half plus half makes one whole extra target");
        }
        _ => panic!("resolution kept the action kind"),
    }
}

#[test]
fn effective_speed_multiplies_soak_and_slow() {
    let mut e = Enemy::new(0, EnemyShape::Square, 1, Point2D { x: 200_000, y: 0 });
    let base = e.speed;
    assert_eq!(e.effective_speed(), base);
    e.apply_soaked(600, 4_000);
    assert_eq!(e.effective_speed(), base * 600 / 1_000);
    e.slow_factor = 500;
    e.slow_duration = 1_000;
    assert_eq!(e.effective_speed(), base * 600 / 1_000 * 500 / 1_000);
}

#[test]
fn spawns_land_on_a_viewport_edge() {
    let viewport: (i64, i64) = (1_200_000, 800_000);
    let (half_w, half_h) = (viewport.0 / 2, viewport.1 / 2);
    let mut w = WaveManager::new();
    w.start_next_wave();
    for _ in 0..20 {
        let spawned = w.tick(600, viewport);
        for e in &spawned {
            let p = e.position;
            let on_horizontal = (p.y == -(half_h + 30_000) || p.y == half_h + 30_000)
                && (-half_w..=half_w).contains(&p.x);
            let on_vertical = (p.x == -(half_w + 30_000) || p.x == half_w + 30_000)
                && (-half_h..=half_h).contains(&p.y);
            assert!(on_horizontal || on_vertical, "spawn sits on an arena edge");
        }
    }
}
