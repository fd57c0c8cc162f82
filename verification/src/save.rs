//! Meta-progression carried across runs: premium currency, records, and
//! permanent shop upgrade levels. Reading and writing the save file is the
//! surrounding program's job; this module owns the record and its rules.

use vstd::prelude::*;

verus! {

#[derive(Clone, Debug)]
pub struct ShopUpgradeState {
    pub id: String,
    pub level: u32,
}

#[derive(Clone, Debug)]
pub struct SaveData {
    pub pepites: u32,
    pub best_score: u32,
    pub max_wave: u32,
    pub shop_upgrades: Vec<ShopUpgradeState>,
}

/// The level stored for `id`, or zero when absent; the first entry wins.
pub open spec fn spec_upgrade_level(entries: Seq<ShopUpgradeState>, id: Seq<char>) -> int
    decreases entries.len(),
{
    if entries.len() == 0 {
        0
    } else if entries[0].id@ == id {
        entries[0].level as int
    } else {
        spec_upgrade_level(entries.drop_first(), id)
    }
}

pub open spec fn spec_has_upgrade(entries: Seq<ShopUpgradeState>, id: Seq<char>) -> bool {
    exists|i: int| 0 <= i < entries.len() && (#[trigger] entries[i]).id@ == id
}

impl SaveData {
    /// A blank record: what loading falls back to on any failure.
    pub fn new() -> (r: SaveData)
        ensures
            r.pepites == 0,
            r.best_score == 0,
            r.max_wave == 0,
            r.shop_upgrades@.len() == 0,
    {
        SaveData { pepites: 0, best_score: 0, max_wave: 0, shop_upgrades: Vec::new() }
    }

    /// The stored level of one permanent upgrade, zero when never bought.
    pub fn get_upgrade_level(&self, id: &String) -> (r: u32)
        ensures
            r == spec_upgrade_level(self.shop_upgrades@, id@),
    {
        let mut i: usize = 0;
        proof {
            assert(self.shop_upgrades@.skip(0) =~= self.shop_upgrades@);
        }
        while i < self.shop_upgrades.len()
            invariant
                0 <= i <= self.shop_upgrades@.len(),
                spec_upgrade_level(self.shop_upgrades@, id@) == spec_upgrade_level(
                    self.shop_upgrades@.skip(i as int),
                    id@,
                ),
            decreases self.shop_upgrades@.len() - i,
        {
            proof {
                assert(self.shop_upgrades@.skip(i as int)[0] == self.shop_upgrades@[i as int]);
                assert(self.shop_upgrades@.skip(i as int).drop_first() =~= self.shop_upgrades@.skip(
                    i as int + 1,
                ));
            }
            if self.shop_upgrades[i].id == *id {
                return self.shop_upgrades[i].level;
            }
            i = i + 1;
        }
        0
    }

    /// Buy one level of a permanent upgrade: rejected silently when the
    /// currency does not cover the cost; otherwise the cost is paid and
    /// the entry's level rises by one (a new entry starts at one).
    pub fn purchase_upgrade(&mut self, id: &String, cost: u32)
        requires
            forall|i: int|
                0 <= i < old(self).shop_upgrades@.len() ==> (#[trigger] old(
                    self,
                ).shop_upgrades@[i]).level < u32::MAX,
        ensures
            old(self).pepites < cost ==> *final(self) == *old(self),
            old(self).pepites >= cost ==> {
                &&& final(self).pepites == old(self).pepites - cost
                &&& final(self).best_score == old(self).best_score
                &&& final(self).max_wave == old(self).max_wave
                &&& spec_upgrade_level(final(self).shop_upgrades@, id@) == spec_upgrade_level(
                    old(self).shop_upgrades@,
                    id@,
                ) + 1
                &&& forall|id2: Seq<char>|
                    id2 != id@ ==> #[trigger] spec_upgrade_level(final(self).shop_upgrades@, id2)
                        == spec_upgrade_level(old(self).shop_upgrades@, id2)
            },
    {
        if self.pepites < cost {
            return ;
        }
        self.pepites = self.pepites - cost;
        let mut i: usize = 0;
        let ghost entries0 = self.shop_upgrades@;
        proof {
            assert(entries0.skip(0) =~= entries0);
        }
        while i < self.shop_upgrades.len()
            invariant
                0 <= i <= self.shop_upgrades@.len(),
                self.shop_upgrades@ == entries0,
                entries0 == old(self).shop_upgrades@,
                cost <= old(self).pepites,
                self.pepites == old(self).pepites - cost,
                self.best_score == old(self).best_score,
                self.max_wave == old(self).max_wave,
                forall|j: int| 0 <= j < i ==> (#[trigger] entries0[j]).id@ != id@,
                spec_upgrade_level(entries0, id@) == spec_upgrade_level(
                    entries0.skip(i as int),
                    id@,
                ),
                forall|j: int|
                    0 <= j < entries0.len() ==> (#[trigger] entries0[j]).level < u32::MAX,
            decreases self.shop_upgrades@.len() - i,
        {
            proof {
                assert(entries0.skip(i as int)[0] == entries0[i as int]);
                assert(entries0.skip(i as int).drop_first() =~= entries0.skip(i as int + 1));
            }
            if self.shop_upgrades[i].id == *id {
                let lvl = self.shop_upgrades[i].level;
                let entry = ShopUpgradeState { id: id.clone(), level: lvl + 1 };
                self.shop_upgrades.set(i, entry);
                proof {
                    lemma_level_at(entries0, id@, i as int);
                    lemma_level_at(self.shop_upgrades@, id@, i as int);
                    assert forall|id2: Seq<char>| id2 != id@ implies #[trigger] spec_upgrade_level(
                        self.shop_upgrades@,
                        id2,
                    ) == spec_upgrade_level(entries0, id2) by {
                        lemma_level_update_same_id(entries0, i as int, self.shop_upgrades@[i as int], id2);
                        assert(self.shop_upgrades@ =~= entries0.update(
                            i as int,
                            self.shop_upgrades@[i as int],
                        ));
                    }
                }
                return ;
            }
            i = i + 1;
        }
        let entry = ShopUpgradeState { id: id.clone(), level: 1 };
        self.shop_upgrades.push(entry);
        proof {
            assert(entries0.skip(entries0.len() as int).len() == 0);
            lemma_level_at(self.shop_upgrades@, id@, entries0.len() as int);
            assert forall|id2: Seq<char>| id2 != id@ implies #[trigger] spec_upgrade_level(
                self.shop_upgrades@,
                id2,
            ) == spec_upgrade_level(entries0, id2) by {
                lemma_level_push_other(entries0, self.shop_upgrades@.last(), id2);
                assert(self.shop_upgrades@ =~= entries0.push(self.shop_upgrades@.last()));
            }
        }
    }
}

/// When the first match sits at `i`, the stored level is that entry's.
proof fn lemma_level_at(entries: Seq<ShopUpgradeState>, id: Seq<char>, i: int)
    requires
        0 <= i < entries.len(),
        entries[i].id@ == id,
        forall|j: int| 0 <= j < i ==> (#[trigger] entries[j]).id@ != id,
    ensures
        spec_upgrade_level(entries, id) == entries[i].level,
        spec_has_upgrade(entries, id),
    decreases i,
{
    if i == 0 {
    } else {
        assert(entries.drop_first()[i - 1] == entries[i]);
        assert(forall|j: int|
            0 <= j < i - 1 ==> (#[trigger] entries.drop_first()[j]).id@ == entries[j + 1].id@);
        lemma_level_at(entries.drop_first(), id, i - 1);
    }
}

/// Replacing an entry by one with the same identifier leaves every other
/// identifier's stored level alone.
proof fn lemma_level_update_same_id(
    entries: Seq<ShopUpgradeState>,
    i: int,
    x: ShopUpgradeState,
    id2: Seq<char>,
)
    requires
        0 <= i < entries.len(),
        x.id@ == entries[i].id@,
        id2 != entries[i].id@,
    ensures
        spec_upgrade_level(entries.update(i, x), id2) == spec_upgrade_level(entries, id2),
    decreases i,
{
    let u = entries.update(i, x);
    if i == 0 {
        assert(u[0].id@ != id2);
        assert(entries[0].id@ != id2);
        assert(u.drop_first() =~= entries.drop_first());
    } else {
        assert(u[0] == entries[0]);
        assert(u.drop_first() =~= entries.drop_first().update(i - 1, x));
        assert(entries.drop_first()[i - 1] == entries[i]);
        lemma_level_update_same_id(entries.drop_first(), i - 1, x, id2);
        if entries[0].id@ == id2 {
        }
    }
}

/// Appending an entry under one identifier leaves every other
/// identifier's stored level alone.
proof fn lemma_level_push_other(entries: Seq<ShopUpgradeState>, x: ShopUpgradeState, id2: Seq<char>)
    requires
        x.id@ != id2,
    ensures
        spec_upgrade_level(entries.push(x), id2) == spec_upgrade_level(entries, id2),
    decreases entries.len(),
{
    let u = entries.push(x);
    if entries.len() == 0 {
        assert(u.len() == 1);
        assert(u[0] == x);
        assert(u[0].id@ != id2);
        assert(u.drop_first().len() == 0);
        assert(spec_upgrade_level(u.drop_first(), id2) == 0);
        assert(spec_upgrade_level(u, id2) == 0);
    } else {
        assert(u[0] == entries[0]);
        assert(u.drop_first() =~= entries.drop_first().push(x));
        lemma_level_push_other(entries.drop_first(), x, id2);
    }
}

/// One permanent shop upgrade on offer.
#[derive(Clone, Copy, Debug)]
pub struct ShopUpgradeDef {
    pub id: &'static str,
    pub name: &'static str,
    pub description: &'static str,
    pub max_level: u32,
    pub base_cost: u32,
    pub cost_per_level: u32,
}

impl ShopUpgradeDef {
    /// Price of the next level: base cost plus per-level cost times the
    /// current level.
    pub fn cost(&self, current_level: u32) -> (r: u32)
        requires
            self.base_cost <= 1_000_000,
            self.cost_per_level <= 1_000_000,
            current_level <= 1_000,
        ensures
            r == self.base_cost + self.cost_per_level * current_level,
    {
        proof {
            crate::geom::lemma_mul_le(
                self.cost_per_level as int,
                current_level as int,
                1_000_000,
                1_000,
            );
        }
        self.base_cost + self.cost_per_level * current_level
    }
}

/// The permanent upgrades the shop sells.
pub fn shop_upgrades() -> (r: Vec<ShopUpgradeDef>)
    ensures
        r@.len() == 7,
        forall|i: int|
            0 <= i < 7 ==> (#[trigger] r@[i]).base_cost <= 1_000_000 && r@[i].cost_per_level
                <= 1_000_000,
{
    let mut v: Vec<ShopUpgradeDef> = Vec::new();
    v.push(
        ShopUpgradeDef {
            id: "bonus_gold",
            name: "Or de depart",
            description: "+40 or au debut de chaque partie",
            max_level: 10,
            base_cost: 80,
            cost_per_level: 40,
        },
    );
    v.push(
        ShopUpgradeDef {
            id: "bonus_damage",
            name: "Degats du joueur",
            description: "+8% degats de base du joueur",
            max_level: 10,
            base_cost: 120,
            cost_per_level: 60,
        },
    );
    v.push(
        ShopUpgradeDef {
            id: "bonus_range",
            name: "Portee du joueur",
            description: "+8 portee d'attaque du joueur",
            max_level: 5,
            base_cost: 150,
            cost_per_level: 80,
        },
    );
    v.push(
        ShopUpgradeDef {
            id: "bonus_hp",
            name: "Points de vie",
            description: "+15 PV max du joueur",
            max_level: 10,
            base_cost: 80,
            cost_per_level: 40,
        },
    );
    v.push(
        ShopUpgradeDef {
            id: "bonus_gold_earn",
            name: "Or gagne",
            description: "+8% or gagne par ennemi",
            max_level: 5,
            base_cost: 200,
            cost_per_level: 100,
        },
    );
    v.push(
        ShopUpgradeDef {
            id: "shield",
            name: "Bouclier d'energie",
            description: "Bloque les ennemis a distance, +40 PV par niveau",
            max_level: 5,
            base_cost: 100,
            cost_per_level: 150,
        },
    );
    v.push(
        ShopUpgradeDef {
            id: "tower_slots",
            name: "Slots de tourelles",
            description: "+1 emplacement de tourelle par niveau",
            max_level: 10,
            base_cost: 120,
            cost_per_level: 80,
        },
    );
    v
}

} // verus!
