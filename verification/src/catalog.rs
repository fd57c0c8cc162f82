//! The read-only tower registry: ten templates of three skills each,
//! constructed once at startup and handed to the simulation by value.

use vstd::prelude::*;

use crate::defs::{
    ActionUpgrade, ActionUpgradeTarget, DamageType, EffectTarget, EffectType, Property, SkillType,
    TowerAction, TowerActionDef, TowerDef, TowerKind, TowerSkillDef, make_action_def, make_skill,
    make_tower_def, make_upgrade, push_action, push_upgrade,
};
use crate::elemental::{ElementalStateKind, TowerElement};

verus! {

/// One action plus one upgrade line.
fn action1(
    action: TowerAction,
    n0: &'static str,
    t0: ActionUpgradeTarget,
    b0: i64,
    l0: u32,
) -> (r: TowerActionDef)
    ensures
        r.wf(),
        forall|i: int|
            0 <= i < r.upgrades@.len() ==> (#[trigger] r.upgrades@[i]).prop.current_level == 0,
{
    let mut ups: Vec<ActionUpgrade> = Vec::new();
    push_upgrade(&mut ups, make_upgrade(n0, &action, t0, b0, l0));
    make_action_def(action, ups)
}

/// One action plus two upgrade lines.
fn action2(
    action: TowerAction,
    n0: &'static str,
    t0: ActionUpgradeTarget,
    b0: i64,
    l0: u32,
    n1: &'static str,
    t1: ActionUpgradeTarget,
    b1: i64,
    l1: u32,
) -> (r: TowerActionDef)
    ensures
        r.wf(),
        forall|i: int|
            0 <= i < r.upgrades@.len() ==> (#[trigger] r.upgrades@[i]).prop.current_level == 0,
{
    let mut ups: Vec<ActionUpgrade> = Vec::new();
    push_upgrade(&mut ups, make_upgrade(n0, &action, t0, b0, l0));
    push_upgrade(&mut ups, make_upgrade(n1, &action, t1, b1, l1));
    make_action_def(action, ups)
}

/// One action plus four upgrade lines.
fn action4(
    action: TowerAction,
    n0: &'static str,
    t0: ActionUpgradeTarget,
    b0: i64,
    l0: u32,
    n1: &'static str,
    t1: ActionUpgradeTarget,
    b1: i64,
    l1: u32,
    n2: &'static str,
    t2: ActionUpgradeTarget,
    b2: i64,
    l2: u32,
    n3: &'static str,
    t3: ActionUpgradeTarget,
    b3: i64,
    l3: u32,
) -> (r: TowerActionDef)
    ensures
        r.wf(),
        forall|i: int|
            0 <= i < r.upgrades@.len() ==> (#[trigger] r.upgrades@[i]).prop.current_level == 0,
{
    let mut ups: Vec<ActionUpgrade> = Vec::new();
    push_upgrade(&mut ups, make_upgrade(n0, &action, t0, b0, l0));
    push_upgrade(&mut ups, make_upgrade(n1, &action, t1, b1, l1));
    push_upgrade(&mut ups, make_upgrade(n2, &action, t2, b2, l2));
    push_upgrade(&mut ups, make_upgrade(n3, &action, t3, b3, l3));
    make_action_def(action, ups)
}

/// One action plus three upgrade lines.
fn action3(
    action: TowerAction,
    n0: &'static str,
    t0: ActionUpgradeTarget,
    b0: i64,
    l0: u32,
    n1: &'static str,
    t1: ActionUpgradeTarget,
    b1: i64,
    l1: u32,
    n2: &'static str,
    t2: ActionUpgradeTarget,
    b2: i64,
    l2: u32,
) -> (r: TowerActionDef)
    ensures
        r.wf(),
        forall|i: int|
            0 <= i < r.upgrades@.len() ==> (#[trigger] r.upgrades@[i]).prop.current_level == 0,
{
    let mut ups: Vec<ActionUpgrade> = Vec::new();
    push_upgrade(&mut ups, make_upgrade(n0, &action, t0, b0, l0));
    push_upgrade(&mut ups, make_upgrade(n1, &action, t1, b1, l1));
    push_upgrade(&mut ups, make_upgrade(n2, &action, t2, b2, l2));
    make_action_def(action, ups)
}

/// A passive skill that generates gold, shared shape across most towers.
fn gold_gen_skill(
    id: u8,
    name: &'static str,
    description: &'static str,
    icon: &'static str,
    cost: u32,
    gold_per_second: i64,
    bonus: i64,
) -> (r: TowerSkillDef)
    requires
        cost <= crate::defs::COST_LIMIT,
        0 <= gold_per_second <= 1_000_000,
        0 <= bonus <= 1_000_000,
    ensures
        r.wf(),
        r.skill_type == SkillType::Passive,
        r.purchase_cost == cost,
        r.id == id,
{
    let mut acts: Vec<TowerActionDef> = Vec::new();
    push_action(
        &mut acts,
        action1(
            TowerAction::GoldGen { gold_per_second },
            "Or/sec",
            ActionUpgradeTarget::GoldPerSecond,
            bonus,
            5,
        ),
    );
    make_skill(id, name, description, icon, SkillType::Passive, cost, None, None, 0, false, acts)
}

fn def_sentinelle() -> (r: TowerDef)
    ensures
        r.wf(),
        r.kind == TowerKind::Sentinelle,
        r.base_cost == 50,
        r.skills@[0].purchase_cost == 0,
{
    let mut a0: Vec<TowerActionDef> = Vec::new();
    push_action(
        &mut a0,
        action1(
            TowerAction::ApplyDamage {
                target: EffectTarget::Single,
                damage: DamageType::Fixed(10_000),
            },
            "Degats",
            ActionUpgradeTarget::Damage,
            2_000,
            5,
        ),
    );
    let s0 = make_skill(
        0,
        "Tir Standard",
        "Attaque equilibree a cible unique",
        "S",
        SkillType::Active,
        0,
        Some(Property::upgradable(140_000, 12_000, 5)),
        Some(Property::upgradable(1_000, 100, 5)),
        4_000,
        true,
        a0,
    );
    let mut a1: Vec<TowerActionDef> = Vec::new();
    push_action(
        &mut a1,
        action1(
            TowerAction::ApplyDamage {
                target: EffectTarget::Single,
                damage: DamageType::Fixed(5_000),
            },
            "Degats",
            ActionUpgradeTarget::Damage,
            1_000,
            5,
        ),
    );
    let s1 = make_skill(
        1,
        "Tir Rapide",
        "Cadence elevee mais degats reduits",
        "R",
        SkillType::Active,
        60,
        Some(Property::fixed(100_000)),
        Some(Property::upgradable(2_000, 150, 5)),
        4_000,
        false,
        a1,
    );
    let s2 = gold_gen_skill(2, "Vigilance", "Genere de l'or passivement", "V", 100, 1_000, 500);
    make_tower_def(
        TowerKind::Sentinelle,
        "Sentinelle",
        "Tour basique equilibree avec 3 modes de tir",
        TowerElement::Neutral,
        50,
        crate::defs::TargetPriority::Closest,
        s0,
        s1,
        s2,
    )
}

fn def_inferno() -> (r: TowerDef)
    ensures
        r.wf(),
        r.base_cost == 80,
        r.kind == TowerKind::Inferno,
{
    let mut a0: Vec<TowerActionDef> = Vec::new();
    push_action(
        &mut a0,
        action1(
            TowerAction::ApplyDamage {
                target: EffectTarget::Single,
                damage: DamageType::Fixed(8_000),
            },
            "Degats",
            ActionUpgradeTarget::Damage,
            2_000,
            5,
        ),
    );
    push_action(
        &mut a0,
        action2(
            TowerAction::ApplyElementalState {
                target: EffectTarget::Single,
                state: ElementalStateKind::Burned,
                duration: 4_000,
                strength: 5_000,
            },
            "Duree",
            ActionUpgradeTarget::StateDuration,
            500,
            5,
            "Brulure",
            ActionUpgradeTarget::StateStrength,
            1_000,
            5,
        ),
    );
    let s0 = make_skill(
        0,
        "Flamme Ardente",
        "Cible la plus proche non brulee, applique Brule",
        "F",
        SkillType::Active,
        0,
        Some(Property::upgradable(120_000, 10_000, 5)),
        Some(Property::upgradable(800, 80, 5)),
        4_000,
        false,
        a0,
    );
    let mut a1: Vec<TowerActionDef> = Vec::new();
    push_action(
        &mut a1,
        action2(
            TowerAction::AuraEffect {
                radius: 100_000,
                state: ElementalStateKind::Burned,
                duration: 4_000,
                strength: 5_000,
            },
            "Rayon",
            ActionUpgradeTarget::AuraRadius,
            15_000,
            5,
            "Brulure",
            ActionUpgradeTarget::StateStrength,
            1_000,
            5,
        ),
    );
    let s1 = make_skill(
        1,
        "Aura Incendiaire",
        "Zone autour de la tour, applique Brule aux non-brules",
        "A",
        SkillType::Passive,
        75,
        None,
        None,
        0,
        false,
        a1,
    );
    let s2 = gold_gen_skill(2, "Brasier", "Genere de l'or grace a la forge", "B", 120, 1_500, 750);
    make_tower_def(
        TowerKind::Inferno,
        "Inferno",
        "Tour de feu qui applique l'etat Brule",
        TowerElement::Fire,
        80,
        crate::defs::TargetPriority::Closest,
        s0,
        s1,
        s2,
    )
}

fn def_ocean() -> (r: TowerDef)
    ensures
        r.wf(),
        r.base_cost == 75,
        r.kind == TowerKind::Ocean,
{
    let mut a0: Vec<TowerActionDef> = Vec::new();
    push_action(
        &mut a0,
        action1(
            TowerAction::ApplyDamage {
                target: EffectTarget::Single,
                damage: DamageType::Fixed(6_000),
            },
            "Degats",
            ActionUpgradeTarget::Damage,
            1_500,
            5,
        ),
    );
    push_action(
        &mut a0,
        action1(
            TowerAction::ApplyElementalState {
                target: EffectTarget::Single,
                state: ElementalStateKind::Soaked,
                duration: 4_000,
                strength: 600,
            },
            "Duree",
            ActionUpgradeTarget::StateDuration,
            500,
            5,
        ),
    );
    let s0 = make_skill(
        0,
        "Vague Deferlante",
        "Degats eau + applique Trempe",
        "V",
        SkillType::Active,
        0,
        Some(Property::upgradable(130_000, 10_000, 5)),
        Some(Property::upgradable(1_000, 100, 5)),
        4_000,
        false,
        a0,
    );
    let mut a1: Vec<TowerActionDef> = Vec::new();
    push_action(
        &mut a1,
        action1(
            TowerAction::AuraEffect {
                radius: 90_000,
                state: ElementalStateKind::Soaked,
                duration: 4_000,
                strength: 600,
            },
            "Rayon",
            ActionUpgradeTarget::AuraRadius,
            15_000,
            5,
        ),
    );
    let s1 = make_skill(
        1,
        "Maree Montante",
        "Zone autour de la tour, applique Trempe aux entrants",
        "M",
        SkillType::Passive,
        80,
        None,
        None,
        0,
        false,
        a1,
    );
    let s2 = gold_gen_skill(2, "Courant Marin", "Genere de l'or", "C", 90, 1_000, 500);
    make_tower_def(
        TowerKind::Ocean,
        "Ocean",
        "Tour d'eau qui applique l'etat Trempe (ralentissement)",
        TowerElement::Water,
        75,
        crate::defs::TargetPriority::Closest,
        s0,
        s1,
        s2,
    )
}

fn def_tesla() -> (r: TowerDef)
    ensures
        r.wf(),
        r.base_cost == 100,
        r.kind == TowerKind::Tesla,
{
    let mut a0: Vec<TowerActionDef> = Vec::new();
    push_action(
        &mut a0,
        action2(
            TowerAction::ApplyDamage {
                target: EffectTarget::Multi(3),
                damage: DamageType::Fixed(6_000),
            },
            "Degats",
            ActionUpgradeTarget::Damage,
            1_500,
            5,
            "Cibles",
            ActionUpgradeTarget::MaxTargets,
            1_000,
            3,
        ),
    );
    let s0 = make_skill(
        0,
        "Arc Electrique",
        "Frappe plusieurs ennemis simultanement",
        "A",
        SkillType::Active,
        0,
        Some(Property::upgradable(120_000, 10_000, 5)),
        Some(Property::upgradable(1_200, 100, 5)),
        4_000,
        false,
        a0,
    );
    let mut a1: Vec<TowerActionDef> = Vec::new();
    push_action(
        &mut a1,
        action1(
            TowerAction::ApplyDamage {
                target: EffectTarget::Chain { count: 4, range: 100_000 },
                damage: DamageType::Fixed(10_000),
            },
            "Degats",
            ActionUpgradeTarget::Damage,
            2_000,
            5,
        ),
    );
    let s1 = make_skill(
        1,
        "Chaine d'Eclairs",
        "L'eclair rebondit entre les ennemis",
        "C",
        SkillType::Active,
        90,
        Some(Property::upgradable(150_000, 12_000, 5)),
        Some(Property::fixed(800)),
        4_000,
        false,
        a1,
    );
    let s2 = gold_gen_skill(
        2,
        "Generateur",
        "Produit de l'energie convertie en or",
        "G",
        110,
        1_800,
        800,
    );
    make_tower_def(
        TowerKind::Tesla,
        "Tesla",
        "Tour electrique a cibles multiples",
        TowerElement::Electric,
        100,
        crate::defs::TargetPriority::Closest,
        s0,
        s1,
        s2,
    )
}

fn def_seisme() -> (r: TowerDef)
    ensures
        r.wf(),
        r.base_cost == 90,
        r.kind == TowerKind::Seisme,
{
    let mut a0: Vec<TowerActionDef> = Vec::new();
    push_action(
        &mut a0,
        action1(
            TowerAction::ApplyDamage {
                target: EffectTarget::Single,
                damage: DamageType::Fixed(12_000),
            },
            "Degats",
            ActionUpgradeTarget::Damage,
            2_500,
            5,
        ),
    );
    push_action(
        &mut a0,
        action1(
            TowerAction::ApplyEffect {
                target: EffectTarget::Single,
                effect: EffectType::Stun { duration: 300 },
            },
            "Stun",
            ActionUpgradeTarget::EffectDuration,
            100,
            5,
        ),
    );
    let s0 = make_skill(
        0,
        "Secousse",
        "Degats terre + stun court a la cible",
        "S",
        SkillType::Active,
        0,
        Some(Property::upgradable(100_000, 8_000, 5)),
        Some(Property::upgradable(600, 50, 5)),
        4_000,
        false,
        a0,
    );
    let mut a1: Vec<TowerActionDef> = Vec::new();
    push_action(
        &mut a1,
        action2(
            TowerAction::AuraEffect {
                radius: 80_000,
                state: ElementalStateKind::Seismic,
                duration: 4_000,
                strength: 150,
            },
            "Rayon",
            ActionUpgradeTarget::AuraRadius,
            12_000,
            5,
            "Stun",
            ActionUpgradeTarget::StateStrength,
            30,
            5,
        ),
    );
    let s1 = make_skill(
        1,
        "Onde Tellurique",
        "Zone, applique Sismique aux entrants",
        "O",
        SkillType::Passive,
        85,
        None,
        None,
        0,
        false,
        a1,
    );
    let s2 = gold_gen_skill(2, "Resonance", "Genere de l'or", "R", 100, 1_200, 600);
    make_tower_def(
        TowerKind::Seisme,
        "Seisme",
        "Tour de terre qui applique l'etat Sismique",
        TowerElement::Earth,
        90,
        crate::defs::TargetPriority::Closest,
        s0,
        s1,
        s2,
    )
}

fn def_sniper() -> (r: TowerDef)
    ensures
        r.wf(),
        r.base_cost == 130,
        r.kind == TowerKind::Sniper,
{
    let mut a0: Vec<TowerActionDef> = Vec::new();
    push_action(
        &mut a0,
        action1(
            TowerAction::ApplyDamage {
                target: EffectTarget::Single,
                damage: DamageType::Fixed(25_000),
            },
            "Degats",
            ActionUpgradeTarget::Damage,
            4_000,
            5,
        ),
    );
    let s0 = make_skill(
        0,
        "Tir de Precision",
        "Tir unique tres longue portee",
        "P",
        SkillType::Active,
        0,
        Some(Property::upgradable(280_000, 15_000, 5)),
        Some(Property::upgradable(250, 20, 5)),
        2_000,
        true,
        a0,
    );
    let mut a1: Vec<TowerActionDef> = Vec::new();
    push_action(
        &mut a1,
        action1(
            TowerAction::ApplyDamage {
                target: EffectTarget::Chain { count: 4, range: 180_000 },
                damage: DamageType::Fixed(15_000),
            },
            "Degats",
            ActionUpgradeTarget::Damage,
            3_000,
            5,
        ),
    );
    let s1 = make_skill(
        1,
        "Tir Chaine",
        "Le projectile rebondit entre cibles",
        "C",
        SkillType::Active,
        100,
        Some(Property::upgradable(250_000, 12_000, 5)),
        Some(Property::fixed(200)),
        2_000,
        false,
        a1,
    );
    let s2 = gold_gen_skill(2, "Observation", "Repere des ressources cachees", "O", 80, 1_000, 500);
    make_tower_def(
        TowerKind::Sniper,
        "Sniper",
        "Tour de precision a longue portee",
        TowerElement::Electric,
        130,
        crate::defs::TargetPriority::HighestHp,
        s0,
        s1,
        s2,
    )
}

fn def_armurerie() -> (r: TowerDef)
    ensures
        r.wf(),
        r.base_cost == 120,
        r.kind == TowerKind::Armurerie,
{
    let mut a0: Vec<TowerActionDef> = Vec::new();
    push_action(
        &mut a0,
        action1(
            TowerAction::ApplyDamage {
                target: EffectTarget::Single,
                damage: DamageType::Fixed(3_000),
            },
            "Degats",
            ActionUpgradeTarget::Damage,
            500,
            5,
        ),
    );
    let s0 = make_skill(
        0,
        "Tir Rafale",
        "Faibles degats, tres haute cadence",
        "R",
        SkillType::Active,
        0,
        Some(Property::upgradable(100_000, 8_000, 5)),
        Some(Property::upgradable(4_000, 300, 5)),
        4_000,
        false,
        a0,
    );
    let mut a1: Vec<TowerActionDef> = Vec::new();
    push_action(
        &mut a1,
        action1(
            TowerAction::ApplyDamage {
                target: EffectTarget::Single,
                damage: DamageType::Fixed(20_000),
            },
            "Degats",
            ActionUpgradeTarget::Damage,
            4_000,
            5,
        ),
    );
    let s1 = make_skill(
        1,
        "Artillerie Lourde",
        "Lourds degats, haute cadence",
        "A",
        SkillType::Active,
        100,
        Some(Property::upgradable(150_000, 10_000, 5)),
        Some(Property::upgradable(1_500, 100, 5)),
        4_000,
        true,
        a1,
    );
    let mut a2: Vec<TowerActionDef> = Vec::new();
    push_action(
        &mut a2,
        action2(
            TowerAction::RandomBombard { damage: 50_000, radius: 60_000 },
            "Degats",
            ActionUpgradeTarget::BombardDamage,
            10_000,
            5,
            "Zone",
            ActionUpgradeTarget::BombardRadius,
            10_000,
            5,
        ),
    );
    let s2 = make_skill(
        2,
        "Bombardement",
        "Obus aleatoire, tres lourds degats",
        "B",
        SkillType::Active,
        150,
        Some(Property::fixed(300_000)),
        Some(Property::fixed(330)),
        4_000,
        false,
        a2,
    );
    make_tower_def(
        TowerKind::Armurerie,
        "Armurerie",
        "Tour de degats avec plusieurs modes de tir",
        TowerElement::Neutral,
        120,
        crate::defs::TargetPriority::Closest,
        s0,
        s1,
        s2,
    )
}

fn def_void() -> (r: TowerDef)
    ensures
        r.wf(),
        r.base_cost == 250,
        r.kind == TowerKind::Void,
{
    let mut a0: Vec<TowerActionDef> = Vec::new();
    push_action(
        &mut a0,
        action1(
            TowerAction::Annihilate { required_states: 4, boss_damage_percent: 10_000 },
            "% Boss",
            ActionUpgradeTarget::BossDamagePercent,
            2_000,
            5,
        ),
    );
    let s0 = make_skill(
        0,
        "Annihilation",
        "Kill si 4 etats, boss: 10% HP + supprime etats",
        "X",
        SkillType::Active,
        0,
        Some(Property::upgradable(100_000, 10_000, 5)),
        Some(Property::upgradable(300, 20, 5)),
        4_000,
        true,
        a0,
    );
    let mut a1: Vec<TowerActionDef> = Vec::new();
    push_action(
        &mut a1,
        action2(
            TowerAction::ConditionalDamage {
                min_states: 3,
                damage_percent: 10_000,
                radius: 120_000,
                tick_rate: 2_000,
            },
            "% Degats",
            ActionUpgradeTarget::ConditionalDamagePercent,
            2_000,
            5,
            "Rayon",
            ActionUpgradeTarget::AoeRadius,
            15_000,
            5,
        ),
    );
    let s1 = make_skill(
        1,
        "The Void",
        "Zone: si 3+ etats, 10% HP",
        "V",
        SkillType::Passive,
        150,
        None,
        None,
        0,
        false,
        a1,
    );
    let mut a2: Vec<TowerActionDef> = Vec::new();
    push_action(
        &mut a2,
        action2(
            TowerAction::LifeSteal { radius: 80_000, damage_per_second: 3_000, heal_ratio: 50_000 },
            "DPS",
            ActionUpgradeTarget::LifeStealDps,
            1_000,
            5,
            "Heal%",
            ActionUpgradeTarget::HealRatio,
            10_000,
            5,
        ),
    );
    let s2 = make_skill(
        2,
        "Absorption",
        "Vole de la vie aux ennemis, heal le joueur",
        "A",
        SkillType::Passive,
        120,
        None,
        None,
        0,
        false,
        a2,
    );
    make_tower_def(
        TowerKind::Void,
        "Void",
        "Tour specialisee contre les ennemis avec etats elementaires",
        TowerElement::Neutral,
        250,
        crate::defs::TargetPriority::HighestHp,
        s0,
        s1,
        s2,
    )
}

fn def_glace() -> (r: TowerDef)
    ensures
        r.wf(),
        r.base_cost == 85,
        r.kind == TowerKind::Glace,
{
    let mut a0: Vec<TowerActionDef> = Vec::new();
    push_action(
        &mut a0,
        action4(
            TowerAction::ApplyCold {
                target: EffectTarget::Single,
                damage: 5_000,
                cold_duration: 4_000,
                freeze_duration: 2_000,
                aoe_radius: 50_000,
            },
            "Degats",
            ActionUpgradeTarget::Damage,
            1_000,
            5,
            "Froid",
            ActionUpgradeTarget::ColdDuration,
            500,
            5,
            "Gel",
            ActionUpgradeTarget::FreezeDuration,
            300,
            5,
            "Zone",
            ActionUpgradeTarget::AoeRadius,
            10_000,
            5,
        ),
    );
    let s0 = make_skill(
        0,
        "Souffle Glacial",
        "Faibles degats et applique Froid en zone",
        "G",
        SkillType::Active,
        0,
        Some(Property::upgradable(110_000, 10_000, 5)),
        Some(Property::upgradable(900, 80, 5)),
        4_000,
        false,
        a0,
    );
    let mut a1: Vec<TowerActionDef> = Vec::new();
    push_action(
        &mut a1,
        action2(
            TowerAction::ColdAura { radius: 80_000, cold_duration: 4_000, freeze_duration: 2_000 },
            "Rayon",
            ActionUpgradeTarget::AuraRadius,
            12_000,
            5,
            "Gel",
            ActionUpgradeTarget::FreezeDuration,
            300,
            5,
        ),
    );
    let s1 = make_skill(
        1,
        "Vent Gele",
        "Aura de froid autour de la tour",
        "V",
        SkillType::Passive,
        80,
        None,
        None,
        0,
        false,
        a1,
    );
    let mut a2: Vec<TowerActionDef> = Vec::new();
    push_action(
        &mut a2,
        action3(
            TowerAction::Glaciation {
                radius: 100_000,
                damage_percent: 3_000,
                cold_duration: 4_000,
                freeze_duration: 2_500,
                tick_rate: 2_000,
            },
            "Rayon",
            ActionUpgradeTarget::AoeRadius,
            15_000,
            5,
            "% Degats",
            ActionUpgradeTarget::GlaciationDamagePercent,
            500,
            5,
            "Gel",
            ActionUpgradeTarget::FreezeDuration,
            300,
            5,
        ),
    );
    let s2 = make_skill(
        2,
        "Glaciation",
        "Degats %HP + Froid a tous les ennemis en zone",
        "!",
        SkillType::Passive,
        150,
        None,
        None,
        0,
        false,
        a2,
    );
    make_tower_def(
        TowerKind::Glace,
        "Glace",
        "Tour de glace qui applique Froid et peut geler les ennemis Trempes",
        TowerElement::Water,
        85,
        crate::defs::TargetPriority::Closest,
        s0,
        s1,
        s2,
    )
}

fn def_alarme() -> (r: TowerDef)
    ensures
        r.wf(),
        r.base_cost == 75,
        r.kind == TowerKind::Alarme,
{
    let empty0: Vec<TowerActionDef> = Vec::new();
    let s0 = make_skill(
        0,
        "Alerte Bouclier",
        "Notifie quand le bouclier est bas",
        "!",
        SkillType::Passive,
        0,
        None,
        None,
        0,
        false,
        empty0,
    );
    let empty1: Vec<TowerActionDef> = Vec::new();
    let s1 = make_skill(
        1,
        "Alerte Vague",
        "Notifie au debut de chaque vague",
        "W",
        SkillType::Passive,
        25,
        None,
        None,
        0,
        false,
        empty1,
    );
    let s2 = gold_gen_skill(2, "Surveillance", "Genere un peu d'or", "S", 50, 500, 250);
    make_tower_def(
        TowerKind::Alarme,
        "Alarme",
        "Tour utilitaire pour les notifications",
        TowerElement::Electric,
        75,
        crate::defs::TargetPriority::Closest,
        s0,
        s1,
        s2,
    )
}

/// The placement price of each kind.
pub open spec fn spec_def_cost(kind: TowerKind) -> u32 {
    match kind {
        TowerKind::Sentinelle => 50,
        TowerKind::Inferno => 80,
        TowerKind::Ocean => 75,
        TowerKind::Tesla => 100,
        TowerKind::Seisme => 90,
        TowerKind::Sniper => 130,
        TowerKind::Armurerie => 120,
        TowerKind::Alarme => 75,
        TowerKind::Void => 250,
        TowerKind::Glace => 85,
    }
}

/// Every tower template, in build-menu order.
pub fn all_tower_defs() -> (r: Vec<TowerDef>)
    ensures
        r@.len() == 10,
        forall|i: int| 0 <= i < 10 ==> (#[trigger] r@[i]).wf(),
        r@[0].kind == TowerKind::Sentinelle,
        r@[1].kind == TowerKind::Inferno,
        r@[2].kind == TowerKind::Ocean,
        r@[3].kind == TowerKind::Tesla,
        r@[4].kind == TowerKind::Seisme,
        r@[5].kind == TowerKind::Sniper,
        r@[6].kind == TowerKind::Armurerie,
        r@[7].kind == TowerKind::Void,
        r@[8].kind == TowerKind::Glace,
        r@[9].kind == TowerKind::Alarme,
{
    let mut v: Vec<TowerDef> = Vec::new();
    v.push(def_sentinelle());
    v.push(def_inferno());
    v.push(def_ocean());
    v.push(def_tesla());
    v.push(def_seisme());
    v.push(def_sniper());
    v.push(def_armurerie());
    v.push(def_void());
    v.push(def_glace());
    v.push(def_alarme());
    v
}

/// The template of one kind; templates are rebuilt on each call, so every
/// caller sees the same unmodified table.
pub fn get_def(kind: TowerKind) -> (r: TowerDef)
    ensures
        r.wf(),
        r.kind == kind,
        r.base_cost == spec_def_cost(kind),
{
    match kind {
        TowerKind::Sentinelle => def_sentinelle(),
        TowerKind::Inferno => def_inferno(),
        TowerKind::Ocean => def_ocean(),
        TowerKind::Tesla => def_tesla(),
        TowerKind::Seisme => def_seisme(),
        TowerKind::Sniper => def_sniper(),
        TowerKind::Armurerie => def_armurerie(),
        TowerKind::Void => def_void(),
        TowerKind::Glace => def_glace(),
        TowerKind::Alarme => def_alarme(),
    }
}

} // verus!
