//! Enemies: wave-scaled stats, movement, attacks, and the elemental
//! status machine (Burned, Soaked, Seismic, Cold, Frozen).

use vstd::prelude::*;

use crate::defs::{EffectTarget, ResolvedAction, ResolvedDamage, STRENGTH_LIMIT};
use crate::elemental::{ElementalReaction, ElementalStateKind, TowerElement, spec_reaction, spec_state_index};
use crate::enemy_types::get_preset;
use crate::geom::{COORD_LIMIT, Point2D};
use crate::projectile::{Projectile, ProjectileSource};
use crate::units::{
    AMOUNT_LIMIT, DT_LIMIT, DURATION_LIMIT, HP_LIMIT, MAX_HP_LIMIT, RATE_LIMIT, SPEED_LIMIT,
    hp_sub, max_i64, min_i64, spec_hp_sub, spec_max_i64, spec_min_i64,
};

verus! {

/// Cooldown between two applications of the same state kind, so an aura
/// cannot re-trigger it every frame.
pub const STATE_COOLDOWN_MS: i64 = 1_000;

/// Extra immunity to Soaked and Cold after a freeze, beyond the freeze
/// itself.
pub const FREEZE_IMMUNITY_MS: i64 = 2_000;

/// Ceiling of the wave-scaling multipliers, in per-mille.
pub const EXP_CAP: i64 = 1_000_000_000;

#[derive(Clone, Copy, PartialEq, Eq, Structural, Debug)]
pub enum EnemyShape {
    Triangle,
    Square,
    Pentagon,
    Hexagon,
    Octagon,
}

impl EnemyShape {
    pub fn sides(&self) -> (r: u32)
        ensures
            r == match *self {
                EnemyShape::Triangle => 3int,
                EnemyShape::Square => 4int,
                EnemyShape::Pentagon => 5int,
                EnemyShape::Hexagon => 6int,
                EnemyShape::Octagon => 8int,
            },
    {
        match self {
            EnemyShape::Triangle => 3,
            EnemyShape::Square => 4,
            EnemyShape::Pentagon => 5,
            EnemyShape::Hexagon => 6,
            EnemyShape::Octagon => 8,
        }
    }
}

/// A raw element recently landed on the enemy, waiting to react.
#[derive(Clone, Copy, PartialEq, Eq, Structural, Debug)]
pub struct AppliedElement {
    pub element: TowerElement,
    pub duration: i64,
}

/// The legacy burn record, ticked alongside the state machine.
#[derive(Clone, Copy, PartialEq, Eq, Structural, Debug)]
pub struct BurnState {
    pub dps: i64,
    pub remaining: i64,
}

/// One held elemental state. `strength` is damage per second for Burned,
/// the speed multiplier (per-mille, lower is stronger) for Soaked, the
/// stun length for Seismic, and the pending freeze length for Cold.
#[derive(Clone, Copy, PartialEq, Eq, Structural, Debug)]
pub struct ElementalState {
    pub kind: ElementalStateKind,
    pub remaining: i64,
    pub strength: i64,
}

pub open spec fn has_kind(s: Seq<ElementalState>, k: ElementalStateKind) -> bool {
    exists|i: int| 0 <= i < s.len() && (#[trigger] s[i]).kind == k
}

/// At most one entry of each kind.
pub open spec fn kinds_distinct(s: Seq<ElementalState>) -> bool {
    forall|i: int, j: int|
        0 <= i < j < s.len() ==> (#[trigger] s[i]).kind != (#[trigger] s[j]).kind
}

pub open spec fn states_ok(s: Seq<ElementalState>) -> bool {
    forall|i: int|
        0 <= i < s.len() ==> -DURATION_LIMIT <= (#[trigger] s[i]).remaining <= DURATION_LIMIT
            && 0 <= s[i].strength <= STRENGTH_LIMIT
}

/// Index of the entry of kind `k`; meaningful when the kind is held and
/// the kinds are distinct.
pub open spec fn idx_of(s: Seq<ElementalState>, k: ElementalStateKind) -> int {
    choose|i: int| 0 <= i < s.len() && (#[trigger] s[i]).kind == k
}

/// With distinct kinds, any index holding kind `k` is the one `idx_of`
/// picks.
pub proof fn lemma_idx_unique(s: Seq<ElementalState>, k: ElementalStateKind, i: int)
    requires
        kinds_distinct(s),
        0 <= i < s.len(),
        s[i].kind == k,
    ensures
        idx_of(s, k) == i,
        has_kind(s, k),
{
    assert(has_kind(s, k));
    let j = idx_of(s, k);
    assert(0 <= j < s.len() && s[j].kind == k);
    if i < j {
        assert(s[i].kind != s[j].kind);
    } else if j < i {
        assert(s[j].kind != s[i].kind);
    }
}

/// The sequence with the entry of kind `k` taken out, when present.
pub open spec fn remove_kind(s: Seq<ElementalState>, k: ElementalStateKind) -> Seq<
    ElementalState,
> {
    if has_kind(s, k) {
        s.remove(idx_of(s, k))
    } else {
        s
    }
}

/// Removing one kind keeps the rest intact and distinct.
pub proof fn lemma_remove_kind(s: Seq<ElementalState>, k: ElementalStateKind)
    requires
        kinds_distinct(s),
        states_ok(s),
    ensures
        kinds_distinct(remove_kind(s, k)),
        states_ok(remove_kind(s, k)),
        !has_kind(remove_kind(s, k), k),
        forall|k2: ElementalStateKind|
            k2 != k ==> #[trigger] has_kind(remove_kind(s, k), k2) == has_kind(s, k2),
        remove_kind(s, k).len() == if has_kind(s, k) {
            s.len() - 1
        } else {
            s.len() as int
        },
{
    if has_kind(s, k) {
        let i = idx_of(s, k);
        assert(0 <= i < s.len() && s[i].kind == k);
        let r = s.remove(i);
        assert(forall|j: int| 0 <= j < i ==> r[j] == s[j]);
        assert(forall|j: int| i <= j < r.len() ==> r[j] == s[j + 1]);
        assert forall|k2: ElementalStateKind| k2 != k implies #[trigger] has_kind(r, k2)
            == has_kind(s, k2) by {
            if has_kind(s, k2) {
                let j = choose|j: int| 0 <= j < s.len() && (#[trigger] s[j]).kind == k2;
                assert(j != i);
                if j < i {
                    assert(r[j] == s[j]);
                } else {
                    assert(r[j - 1] == s[j]);
                }
                assert(has_kind(r, k2));
            }
            if has_kind(r, k2) {
                let j = choose|j: int| 0 <= j < r.len() && (#[trigger] r[j]).kind == k2;
                if j < i {
                    assert(s[j] == r[j]);
                } else {
                    assert(s[j + 1] == r[j]);
                }
                assert(has_kind(s, k2));
            }
        }
        assert forall|j: int| 0 <= j < r.len() implies !(exists|j2: int|
            j < j2 < r.len() && (#[trigger] r[j]).kind == (#[trigger] r[j2]).kind) by {
            if exists|j2: int| j < j2 < r.len() && r[j].kind == r[j2].kind {
                let j2 = choose|j2: int| j < j2 < r.len() && (#[trigger] r[j2]).kind == r[j].kind;
                let a = if j < i { j } else { j + 1 };
                let b = if j2 < i { j2 } else { j2 + 1 };
                assert(s[a] == r[j]);
                assert(s[b] == r[j2]);
                assert(a < b);
                assert(s[a].kind != s[b].kind);
            }
        }
        assert(kinds_distinct(r)) by {
            assert(forall|x: int, y: int|
                0 <= x < y < r.len() ==> (#[trigger] r[x]).kind != (#[trigger] r[y]).kind);
        }
        if has_kind(r, k) {
            let j = choose|j: int| 0 <= j < r.len() && (#[trigger] r[j]).kind == k;
            if j < i {
                assert(s[j].kind == k);
                assert(s[j].kind != s[i].kind);
            } else {
                assert(s[j + 1].kind == k);
                assert(s[i].kind != s[j + 1].kind);
            }
        }
    }
}

/// Refresh the entry of kind `k` to the strongest values (both taken as
/// maxima), or add it if absent.
pub open spec fn refresh_strong(
    s: Seq<ElementalState>,
    k: ElementalStateKind,
    strength: int,
    remaining: int,
) -> Seq<ElementalState> {
    if has_kind(s, k) {
        let i = idx_of(s, k);
        s.update(
            i,
            ElementalState {
                kind: k,
                remaining: spec_max_i64(s[i].remaining as int, remaining) as i64,
                strength: spec_max_i64(s[i].strength as int, strength) as i64,
            },
        )
    } else {
        s.push(ElementalState { kind: k, remaining: remaining as i64, strength: strength as i64 })
    }
}

/// Refresh Soaked: a lower multiplier is stronger, so the strength takes
/// the minimum while the duration takes the maximum.
pub open spec fn refresh_soaked(
    s: Seq<ElementalState>,
    strength: int,
    remaining: int,
) -> Seq<ElementalState> {
    let k = ElementalStateKind::Soaked;
    if has_kind(s, k) {
        let i = idx_of(s, k);
        s.update(
            i,
            ElementalState {
                kind: k,
                remaining: spec_max_i64(s[i].remaining as int, remaining) as i64,
                strength: spec_min_i64(s[i].strength as int, strength) as i64,
            },
        )
    } else {
        s.push(ElementalState { kind: k, remaining: remaining as i64, strength: strength as i64 })
    }
}

/// Refreshing a kind keeps the set well-formed and adds exactly that kind.
pub proof fn lemma_refresh_strong(
    s: Seq<ElementalState>,
    k: ElementalStateKind,
    strength: int,
    remaining: int,
)
    requires
        kinds_distinct(s),
        states_ok(s),
        0 <= strength <= STRENGTH_LIMIT,
        -DURATION_LIMIT <= remaining <= DURATION_LIMIT,
    ensures
        kinds_distinct(refresh_strong(s, k, strength, remaining)),
        states_ok(refresh_strong(s, k, strength, remaining)),
        has_kind(refresh_strong(s, k, strength, remaining), k),
        forall|k2: ElementalStateKind|
            k2 != k ==> #[trigger] has_kind(refresh_strong(s, k, strength, remaining), k2)
                == has_kind(s, k2),
        refresh_strong(s, k, strength, remaining).len() == if has_kind(s, k) {
            s.len() as int
        } else {
            s.len() + 1int
        },
{
    let r = refresh_strong(s, k, strength, remaining);
    if has_kind(s, k) {
        let i = idx_of(s, k);
        assert(0 <= i < s.len() && s[i].kind == k);
        assert(r[i].kind == k);
        assert(forall|j: int| 0 <= j < r.len() && j != i ==> r[j] == s[j]);
        assert(forall|j: int| 0 <= j < r.len() ==> (#[trigger] r[j]).kind == s[j].kind);
        assert forall|k2: ElementalStateKind| k2 != k implies #[trigger] has_kind(r, k2)
            == has_kind(s, k2) by {
            if has_kind(s, k2) {
                let j = choose|j: int| 0 <= j < s.len() && (#[trigger] s[j]).kind == k2;
                assert(r[j].kind == k2);
            }
            if has_kind(r, k2) {
                let j = choose|j: int| 0 <= j < r.len() && (#[trigger] r[j]).kind == k2;
                assert(s[j].kind == k2);
            }
        }
    } else {
        assert(r.last().kind == k);
        assert(forall|j: int| 0 <= j < s.len() ==> r[j] == s[j]);
        assert forall|x: int, y: int| 0 <= x < y < r.len() implies (#[trigger] r[x]).kind != (
        #[trigger] r[y]).kind by {
            if y == s.len() {
                if r[x].kind == k {
                    assert(s[x].kind == k);
                }
            }
        }
        assert forall|k2: ElementalStateKind| k2 != k implies #[trigger] has_kind(r, k2)
            == has_kind(s, k2) by {
            if has_kind(s, k2) {
                let j = choose|j: int| 0 <= j < s.len() && (#[trigger] s[j]).kind == k2;
                assert(r[j].kind == k2);
            }
            if has_kind(r, k2) {
                let j = choose|j: int| 0 <= j < r.len() && (#[trigger] r[j]).kind == k2;
                assert(j < s.len());
                assert(s[j].kind == k2);
            }
        }
    }
}

/// The Soaked refresh enjoys the same shape properties.
pub proof fn lemma_refresh_soaked(s: Seq<ElementalState>, strength: int, remaining: int)
    requires
        kinds_distinct(s),
        states_ok(s),
        0 <= strength <= STRENGTH_LIMIT,
        -DURATION_LIMIT <= remaining <= DURATION_LIMIT,
    ensures
        kinds_distinct(refresh_soaked(s, strength, remaining)),
        states_ok(refresh_soaked(s, strength, remaining)),
        has_kind(refresh_soaked(s, strength, remaining), ElementalStateKind::Soaked),
        forall|k2: ElementalStateKind|
            k2 != ElementalStateKind::Soaked ==> #[trigger] has_kind(
                refresh_soaked(s, strength, remaining),
                k2,
            ) == has_kind(s, k2),
        refresh_soaked(s, strength, remaining).len() == if has_kind(
            s,
            ElementalStateKind::Soaked,
        ) {
            s.len() as int
        } else {
            s.len() + 1int
        },
{
    let k = ElementalStateKind::Soaked;
    let r = refresh_soaked(s, strength, remaining);
    if has_kind(s, k) {
        let i = idx_of(s, k);
        assert(0 <= i < s.len() && s[i].kind == k);
        assert(r[i].kind == k);
        assert(forall|j: int| 0 <= j < r.len() && j != i ==> r[j] == s[j]);
        assert(forall|j: int| 0 <= j < r.len() ==> (#[trigger] r[j]).kind == s[j].kind);
        assert forall|k2: ElementalStateKind| k2 != k implies #[trigger] has_kind(r, k2)
            == has_kind(s, k2) by {
            if has_kind(s, k2) {
                let j = choose|j: int| 0 <= j < s.len() && (#[trigger] s[j]).kind == k2;
                assert(r[j].kind == k2);
            }
            if has_kind(r, k2) {
                let j = choose|j: int| 0 <= j < r.len() && (#[trigger] r[j]).kind == k2;
                assert(s[j].kind == k2);
            }
        }
    } else {
        assert(r.last().kind == k);
        assert(forall|j: int| 0 <= j < s.len() ==> r[j] == s[j]);
        assert forall|x: int, y: int| 0 <= x < y < r.len() implies (#[trigger] r[x]).kind != (
        #[trigger] r[y]).kind by {
            if y == s.len() {
                if r[x].kind == k {
                    assert(s[x].kind == k);
                }
            }
        }
        assert forall|k2: ElementalStateKind| k2 != k implies #[trigger] has_kind(r, k2)
            == has_kind(s, k2) by {
            if has_kind(s, k2) {
                let j = choose|j: int| 0 <= j < s.len() && (#[trigger] s[j]).kind == k2;
                assert(r[j].kind == k2);
            }
            if has_kind(r, k2) {
                let j = choose|j: int| 0 <= j < r.len() && (#[trigger] r[j]).kind == k2;
                assert(j < s.len());
                assert(s[j].kind == k2);
            }
        }
    }
}

/// First entry of kind `k`, if any.
fn find_state(v: &Vec<ElementalState>, k: ElementalStateKind) -> (r: Option<usize>)
    ensures
        match r {
            Some(i) => i < v@.len() && v@[i as int].kind == k,
            None => !has_kind(v@, k),
        },
{
    let mut i: usize = 0;
    while i < v.len()
        invariant
            0 <= i <= v.len(),
            forall|j: int| 0 <= j < i ==> (#[trigger] v@[j]).kind != k,
        decreases v.len() - i,
    {
        if v[i].kind == k {
            return Some(i);
        }
        i = i + 1;
    }
    None
}

/// Take the entry of kind `k` out, if present.
fn remove_state_vec(v: &mut Vec<ElementalState>, k: ElementalStateKind)
    requires
        kinds_distinct(old(v)@),
        states_ok(old(v)@),
    ensures
        final(v)@ == remove_kind(old(v)@, k),
{
    match find_state(v, k) {
        Some(i) => {
            proof {
                lemma_idx_unique(v@, k, i as int);
            }
            v.remove(i);
        },
        None => {},
    }
}

/// Refresh kind `k` to the strongest values, or add it.
fn refresh_strong_vec(
    v: &mut Vec<ElementalState>,
    k: ElementalStateKind,
    strength: i64,
    remaining: i64,
)
    requires
        kinds_distinct(old(v)@),
        states_ok(old(v)@),
        0 <= strength <= STRENGTH_LIMIT,
        -DURATION_LIMIT <= remaining <= DURATION_LIMIT,
    ensures
        final(v)@ == refresh_strong(old(v)@, k, strength as int, remaining as int),
{
    match find_state(v, k) {
        Some(i) => {
            proof {
                lemma_idx_unique(v@, k, i as int);
            }
            let cur = v[i];
            let entry = ElementalState {
                kind: k,
                remaining: max_i64(cur.remaining, remaining),
                strength: max_i64(cur.strength, strength),
            };
            v.set(i, entry);
        },
        None => {
            v.push(ElementalState { kind: k, remaining, strength });
        },
    }
}

/// Refresh Soaked: minimum multiplier, maximum duration; or add it.
fn refresh_soaked_vec(v: &mut Vec<ElementalState>, strength: i64, remaining: i64)
    requires
        kinds_distinct(old(v)@),
        states_ok(old(v)@),
        0 <= strength <= STRENGTH_LIMIT,
        -DURATION_LIMIT <= remaining <= DURATION_LIMIT,
    ensures
        final(v)@ == refresh_soaked(old(v)@, strength as int, remaining as int),
{
    let k = ElementalStateKind::Soaked;
    match find_state(v, k) {
        Some(i) => {
            proof {
                lemma_idx_unique(v@, k, i as int);
            }
            let cur = v[i];
            let entry = ElementalState {
                kind: k,
                remaining: max_i64(cur.remaining, remaining),
                strength: min_i64(cur.strength, strength),
            };
            v.set(i, entry);
        },
        None => {
            v.push(ElementalState { kind: k, remaining, strength });
        },
    }
}

/// The strength of the entry of kind `k`; meaningful when held.
pub open spec fn strength_of(s: Seq<ElementalState>, k: ElementalStateKind) -> int {
    s[idx_of(s, k)].strength as int
}

/// The remaining time of the entry of kind `k`; meaningful when held.
pub open spec fn remaining_of(s: Seq<ElementalState>, k: ElementalStateKind) -> int {
    s[idx_of(s, k)].remaining as int
}

/// The first reaction a fresh element of kind `e` sets off against the
/// elements already on the enemy; entries of `e`'s own element never react.
pub open spec fn first_reaction(elems: Seq<AppliedElement>, e: TowerElement) -> Option<
    ElementalReaction,
>
    decreases elems.len(),
{
    if elems.len() == 0 {
        None
    } else if elems[0].element != e && spec_reaction(elems[0].element, e) is Some {
        spec_reaction(elems[0].element, e)
    } else {
        first_reaction(elems.drop_first(), e)
    }
}

fn find_first_reaction(v: &Vec<AppliedElement>, e: TowerElement) -> (r: Option<ElementalReaction>)
    ensures
        r == first_reaction(v@, e),
{
    let mut i: usize = 0;
    proof {
        assert(v@.skip(0) =~= v@);
    }
    while i < v.len()
        invariant
            0 <= i <= v.len(),
            first_reaction(v@, e) == first_reaction(v@.skip(i as int), e),
        decreases v.len() - i,
    {
        proof {
            assert(v@.skip(i as int).len() == v@.len() - i);
            assert(v@.skip(i as int)[0] == v@[i as int]);
            assert(v@.skip(i as int).drop_first() =~= v@.skip(i as int + 1));
        }
        let ae = v[i].element;
        if ae != e {
            match ElementalReaction::from_elements(ae, e) {
                Some(rx) => {
                    return Some(rx);
                },
                None => {},
            }
        }
        i = i + 1;
    }
    proof {
        assert(v@.skip(v@.len() as int).len() == 0);
    }
    None
}

/// Every state with its clock advanced by `dt`, expired entries pruned.
pub open spec fn ticked_states(s: Seq<ElementalState>, dt: int) -> Seq<ElementalState>
    decreases s.len(),
{
    if s.len() == 0 {
        Seq::empty()
    } else {
        let rest = ticked_states(s.drop_last(), dt);
        let st = s.last();
        if st.remaining - dt > 0 {
            rest.push(
                ElementalState {
                    kind: st.kind,
                    remaining: (st.remaining - dt) as i64,
                    strength: st.strength,
                },
            )
        } else {
            rest
        }
    }
}

/// Advancing the clocks keeps the state set well-formed and adds no kind.
pub proof fn lemma_ticked_states(s: Seq<ElementalState>, dt: int)
    requires
        kinds_distinct(s),
        states_ok(s),
        0 <= dt <= DT_LIMIT,
    ensures
        kinds_distinct(ticked_states(s, dt)),
        states_ok(ticked_states(s, dt)),
        forall|k: ElementalStateKind| #[trigger]
            has_kind(ticked_states(s, dt), k) ==> has_kind(s, k),
        ticked_states(s, dt).len() <= s.len(),
    decreases s.len(),
{
    if s.len() > 0 {
        assert(kinds_distinct(s.drop_last())) by {
            assert(forall|i: int| 0 <= i < s.len() - 1 ==> s.drop_last()[i] == s[i]);
        }
        assert(states_ok(s.drop_last())) by {
            assert(forall|i: int| 0 <= i < s.len() - 1 ==> s.drop_last()[i] == s[i]);
        }
        lemma_ticked_states(s.drop_last(), dt);
        let rest = ticked_states(s.drop_last(), dt);
        let st = s.last();
        if st.remaining - dt > 0 {
            let r = rest.push(
                ElementalState {
                    kind: st.kind,
                    remaining: (st.remaining - dt) as i64,
                    strength: st.strength,
                },
            );
            assert(!has_kind(rest, st.kind)) by {
                if has_kind(rest, st.kind) {
                    assert(has_kind(s.drop_last(), st.kind));
                    let j = choose|j: int|
                        0 <= j < s.drop_last().len() && (#[trigger] s.drop_last()[j]).kind
                            == st.kind;
                    assert(s[j].kind == st.kind);
                    assert(s[j].kind != s[s.len() - 1].kind);
                }
            }
            assert forall|x: int, y: int| 0 <= x < y < r.len() implies (#[trigger] r[x]).kind != (
            #[trigger] r[y]).kind by {
                if y == r.len() - 1 {
                    if r[x].kind == st.kind {
                        assert(rest[x].kind == st.kind);
                        assert(has_kind(rest, st.kind));
                    }
                }
            }
            assert forall|k: ElementalStateKind| #[trigger] has_kind(r, k) implies has_kind(s, k) by {
                let j = choose|j: int| 0 <= j < r.len() && (#[trigger] r[j]).kind == k;
                if j < rest.len() {
                    assert(has_kind(rest, k));
                    assert(has_kind(s.drop_last(), k));
                    let j2 = choose|j2: int|
                        0 <= j2 < s.drop_last().len() && (#[trigger] s.drop_last()[j2]).kind == k;
                    assert(s[j2].kind == k);
                } else {
                    assert(s[s.len() - 1].kind == k);
                }
            }
        } else {
            assert forall|k: ElementalStateKind| #[trigger] has_kind(rest, k) implies has_kind(
                s,
                k,
            ) by {
                assert(has_kind(s.drop_last(), k));
                let j2 = choose|j2: int|
                    0 <= j2 < s.drop_last().len() && (#[trigger] s.drop_last()[j2]).kind == k;
                assert(s[j2].kind == k);
            }
        }
    }
}

/// Every landed element with its clock advanced, expired entries pruned.
pub open spec fn ticked_elements(s: Seq<AppliedElement>, dt: int) -> Seq<AppliedElement>
    decreases s.len(),
{
    if s.len() == 0 {
        Seq::empty()
    } else {
        let rest = ticked_elements(s.drop_last(), dt);
        let ae = s.last();
        if ae.duration - dt > 0 {
            rest.push(AppliedElement { element: ae.element, duration: (ae.duration - dt) as i64 })
        } else {
            rest
        }
    }
}

pub proof fn lemma_ticked_elements(s: Seq<AppliedElement>, dt: int)
    requires
        elements_ok(s),
        0 <= dt <= DT_LIMIT,
    ensures
        elements_ok(ticked_elements(s, dt)),
    decreases s.len(),
{
    if s.len() > 0 {
        assert(elements_ok(s.drop_last())) by {
            assert(forall|i: int| 0 <= i < s.len() - 1 ==> s.drop_last()[i] == s[i]);
        }
        lemma_ticked_elements(s.drop_last(), dt);
    }
}

// --- Wave scaling: piecewise multipliers in per-mille of the base stats. ---

/// The exponential late-game factor: times 1.035 per wave past one
/// hundred, saturating at `EXP_CAP`.
pub open spec fn spec_exp1035(n: nat) -> int
    decreases n,
{
    if n == 0 {
        1000
    } else {
        let q = spec_exp1035((n - 1) as nat) * 1035 / 1000;
        if q > EXP_CAP {
            EXP_CAP as int
        } else {
            q
        }
    }
}

pub proof fn lemma_exp_bounds(n: nat)
    ensures
        1000 <= spec_exp1035(n) <= EXP_CAP,
        n > 0 ==> spec_exp1035((n - 1) as nat) <= spec_exp1035(n),
    decreases n,
{
    if n > 0 {
        lemma_exp_bounds((n - 1) as nat);
        let p = spec_exp1035((n - 1) as nat);
        assert(p <= p * 1035 / 1000 <= EXP_CAP + EXP_CAP) by (nonlinear_arith)
            requires
                1000 <= p <= EXP_CAP,
        ;
    }
}

/// Once the factor saturates it stays saturated.
pub proof fn lemma_exp_absorb(m: nat, n: nat)
    requires
        m <= n,
        spec_exp1035(m) == EXP_CAP,
    ensures
        spec_exp1035(n) == EXP_CAP,
    decreases n - m,
{
    if m < n {
        lemma_exp_absorb(m, (n - 1) as nat);
        assert(EXP_CAP * 1035 / 1000 > EXP_CAP) by (nonlinear_arith);
    }
}

pub open spec fn spec_hp_scale(w: int) -> int {
    if w <= 5 {
        (4000 + 150 * (w - 1)) / 4
    } else if w <= 10 {
        1150 + 70 * (w - 5)
    } else if w <= 15 {
        1500 + 100 * (w - 10)
    } else if w <= 20 {
        2000 + 150 * (w - 15)
    } else if w <= 50 {
        2750 + 3 * ((w - 20) * (w - 20 + 1)) / 2
    } else if w <= 100 {
        4145 + 50 * (w - 50) + (w - 50) * (w - 50)
    } else {
        9145 * spec_exp1035((w - 100) as nat) / 1000
    }
}

pub open spec fn spec_damage_scale(w: int) -> int {
    if w <= 5 {
        1000 + 25 * (w - 1)
    } else if w <= 10 {
        1100 + 40 * (w - 5)
    } else if w <= 15 {
        1300 + 50 * (w - 10)
    } else if w <= 20 {
        1550 + 60 * (w - 15)
    } else if w <= 50 {
        1850 + 3 * ((w - 20) * (w - 20 + 1)) / 8
    } else if w <= 100 {
        2198 + 25 * (w - 50) + ((w - 50) * (w - 50)) / 2
    } else {
        4698 * spec_exp1035((w - 100) as nat) / 1000
    }
}

pub open spec fn spec_gold_scale(w: int) -> int {
    if w <= 5 {
        1000
    } else if w <= 10 {
        1000 + 30 * (w - 5)
    } else if w <= 15 {
        1150 + 30 * (w - 10)
    } else if w <= 20 {
        1300 + 40 * (w - 15)
    } else if w <= 50 {
        1500 + 20 * (w - 20)
    } else if w <= 100 {
        2100 + 30 * (w - 50)
    } else {
        3600 * spec_min_i64(1000 + 50 * (w - 100), 10_000) / 1000
    }
}

/// The saturating exponential factor for `n` waves past one hundred.
fn exp1035(n: u32) -> (r: i64)
    ensures
        r == spec_exp1035(n as nat),
        1000 <= r <= EXP_CAP,
{
    proof {
        lemma_exp_bounds(n as nat);
    }
    let mut f: i64 = 1000;
    let mut i: u32 = 0;
    while i < n && f < EXP_CAP
        invariant
            0 <= i <= n,
            f == spec_exp1035(i as nat),
            1000 <= f <= EXP_CAP,
        decreases n - i,
    {
        proof {
            lemma_exp_bounds((i + 1) as nat);
        }
        let q = f * 1035 / 1000;
        f = if q > EXP_CAP {
            EXP_CAP
        } else {
            q
        };
        i = i + 1;
    }
    if i < n {
        proof {
            lemma_exp_absorb(i as nat, n as nat);
        }
    }
    f
}

#[derive(Clone, Debug)]
pub struct Enemy {
    pub id: usize,
    pub position: Point2D,
    pub shape: EnemyShape,
    pub hp: i64,
    pub max_hp: i64,
    pub speed: i64,
    pub damage: i64,
    pub attack_range: i64,
    pub attack_speed: i64,
    pub attack_cooldown: i64,
    pub gold_value: u32,
    pub radius: i64,
    pub applied_elements: Vec<AppliedElement>,
    pub elemental_states: Vec<ElementalState>,
    /// Legacy slow: a per-mille speed multiplier while `slow_duration` runs.
    pub slow_factor: i64,
    pub slow_duration: i64,
    pub stun_duration: i64,
    pub is_boss: bool,
    pub burn: Option<BurnState>,
    /// While positive, Soaked and Cold applications are rejected.
    pub freeze_immunity: i64,
    /// One reapplication cooldown per state kind, indexed by
    /// `ElementalStateKind::index`.
    pub state_cooldowns: Vec<i64>,
}

pub open spec fn elements_ok(s: Seq<AppliedElement>) -> bool {
    forall|i: int|
        0 <= i < s.len() ==> -DURATION_LIMIT <= (#[trigger] s[i]).duration <= DURATION_LIMIT
}

impl Enemy {
    pub open spec fn wf(self) -> bool {
        &&& self.position.in_bounds()
        &&& -HP_LIMIT <= self.hp <= self.max_hp
        &&& 0 < self.max_hp <= MAX_HP_LIMIT
        &&& 0 <= self.speed <= SPEED_LIMIT
        &&& 0 <= self.damage <= AMOUNT_LIMIT
        &&& 0 <= self.attack_range <= COORD_LIMIT
        &&& 0 < self.attack_speed <= RATE_LIMIT
        &&& -DURATION_LIMIT <= self.attack_cooldown <= DURATION_LIMIT
        &&& 0 <= self.radius <= COORD_LIMIT
        &&& elements_ok(self.applied_elements@)
        &&& states_ok(self.elemental_states@)
        &&& kinds_distinct(self.elemental_states@)
        &&& 0 <= self.slow_factor <= 1000
        &&& -DURATION_LIMIT <= self.slow_duration <= DURATION_LIMIT
        &&& -DURATION_LIMIT <= self.stun_duration <= DURATION_LIMIT
        &&& match self.burn {
            Some(b) => 0 <= b.dps <= AMOUNT_LIMIT && -DURATION_LIMIT <= b.remaining
                <= DURATION_LIMIT,
            None => true,
        }
        &&& -DURATION_LIMIT <= self.freeze_immunity <= 2 * DURATION_LIMIT
        &&& self.state_cooldowns@.len() == 5
        &&& forall|i: int|
            0 <= i < 5 ==> -DURATION_LIMIT <= #[trigger] self.state_cooldowns@[i]
                <= DURATION_LIMIT
    }

    /// Fields the status machine never touches.
    pub open spec fn core_eq(self, other: Enemy) -> bool {
        &&& self.id == other.id
        &&& self.position == other.position
        &&& self.shape == other.shape
        &&& self.max_hp == other.max_hp
        &&& self.speed == other.speed
        &&& self.damage == other.damage
        &&& self.attack_range == other.attack_range
        &&& self.attack_speed == other.attack_speed
        &&& self.attack_cooldown == other.attack_cooldown
        &&& self.gold_value == other.gold_value
        &&& self.radius == other.radius
        &&& self.is_boss == other.is_boss
        &&& self.burn == other.burn
    }

    /// A freshly spawned enemy: the archetype's base stats scaled by the
    /// wave multipliers (hit points, damage and gold value; speed is never
    /// scaled).
    pub fn new(id: usize, shape: EnemyShape, wave_number: u32, spawn_pos: Point2D) -> (r: Enemy)
        requires
            wave_number >= 1,
            spawn_pos.in_bounds(),
        ensures
            r.wf(),
            r.id == id,
            r.shape == shape,
            r.position == spawn_pos,
            r.hp == r.max_hp,
            r.max_hp == crate::enemy_types::spec_preset(shape).base_hp * spec_hp_scale(
                wave_number as int,
            ) / 1000,
            r.speed == crate::enemy_types::spec_preset(shape).base_speed,
            r.damage == crate::enemy_types::spec_preset(shape).base_damage * spec_damage_scale(
                wave_number as int,
            ) / 1000,
            r.attack_range == crate::enemy_types::spec_preset(shape).attack_range,
            r.attack_speed == crate::enemy_types::spec_preset(shape).attack_speed,
            r.attack_cooldown == 0,
            r.gold_value == crate::enemy_types::spec_preset(shape).gold_value * spec_gold_scale(
                wave_number as int,
            ) / 1000,
            r.radius == crate::enemy_types::spec_preset(shape).radius,
            r.is_boss == (shape == EnemyShape::Octagon),
            r.elemental_states@.len() == 0,
            r.applied_elements@.len() == 0,
            r.slow_factor == 1000,
            r.stun_duration == 0,
            r.freeze_immunity == 0,
            r.burn is None,
            forall|i: int| 0 <= i < 5 ==> #[trigger] r.state_cooldowns@[i] == 0,
    {
        let preset = get_preset(shape);
        let (hp_scale, damage_scale, gold_scale) = Self::get_tier_scaling(wave_number);
        proof {
            crate::geom::lemma_mul_le(preset.base_hp as int, hp_scale as int, 500_000, 10_000_000_000);
            crate::geom::lemma_mul_le(preset.base_damage as int, damage_scale as int, 100_000, 5_000_000_000);
            crate::geom::lemma_mul_le(preset.gold_value as int, gold_scale as int, 1_000, 100_000);
            crate::units::lemma_div_le(0, preset.base_hp as int * hp_scale as int, 1000);
            crate::units::lemma_div_le(
                preset.base_hp as int * hp_scale as int,
                500_000int * 10_000_000_000,
                1000,
            );
            crate::units::lemma_div_le(
                preset.base_damage as int * damage_scale as int,
                100_000int * 5_000_000_000,
                1000,
            );
            crate::units::lemma_div_le(
                preset.gold_value as int * gold_scale as int,
                1_000int * 100_000,
                1000,
            );
            assert(preset.base_hp * 1000 <= preset.base_hp * hp_scale) by (nonlinear_arith)
                requires
                    0 < preset.base_hp,
                    1000 <= hp_scale,
            ;
            crate::units::lemma_div_le(
                preset.base_hp as int * 1000,
                preset.base_hp as int * hp_scale as int,
                1000,
            );
            assert(preset.base_hp as int * 1000 / 1000 == preset.base_hp as int) by (nonlinear_arith);
        }
        let hp: i64 = preset.base_hp * hp_scale / 1000;
        let damage: i64 = preset.base_damage * damage_scale / 1000;
        let gold: i64 = (preset.gold_value as i64) * gold_scale / 1000;
        let mut cds: Vec<i64> = Vec::new();
        cds.push(0);
        cds.push(0);
        cds.push(0);
        cds.push(0);
        cds.push(0);
        Enemy {
            id,
            position: spawn_pos,
            shape,
            hp,
            max_hp: hp,
            speed: preset.base_speed,
            damage,
            attack_range: preset.attack_range,
            attack_speed: preset.attack_speed,
            attack_cooldown: 0,
            gold_value: gold as u32,
            radius: preset.radius,
            applied_elements: Vec::new(),
            elemental_states: Vec::new(),
            slow_factor: 1000,
            slow_duration: 0,
            stun_duration: 0,
            is_boss: matches!(shape, EnemyShape::Octagon),
            burn: None,
            freeze_immunity: 0,
            state_cooldowns: cds,
        }
    }

    /// Fields untouched by damage intake and the status machine.
    pub open spec fn status_frame(self, other: Enemy) -> bool {
        &&& self.core_eq(other)
        &&& self.hp == other.hp
        &&& self.slow_factor == other.slow_factor
        &&& self.slow_duration == other.slow_duration
        &&& self.applied_elements@ == other.applied_elements@
    }

    pub fn is_dead(&self) -> (r: bool)
        ensures
            r == (self.hp <= 0),
    {
        self.hp <= 0
    }

    pub fn has_state(&self, kind: ElementalStateKind) -> (r: bool)
        ensures
            r == has_kind(self.elemental_states@, kind),
    {
        find_state(&self.elemental_states, kind).is_some()
    }

    /// Frozen rejects every new state application.
    pub fn is_state_immune(&self) -> (r: bool)
        ensures
            r == has_kind(self.elemental_states@, ElementalStateKind::Frozen),
    {
        self.has_state(ElementalStateKind::Frozen)
    }

    /// Is this kind off its reapplication cooldown?
    pub fn can_apply_state(&self, kind: ElementalStateKind) -> (r: bool)
        requires
            self.state_cooldowns@.len() == 5,
        ensures
            r == (self.state_cooldowns@[spec_state_index(kind)] <= 0),
    {
        let i = kind.index();
        self.state_cooldowns[i] <= 0
    }

    fn trigger_state_cooldown(&mut self, kind: ElementalStateKind)
        requires
            old(self).state_cooldowns@.len() == 5,
        ensures
            final(self).state_cooldowns@ == old(self).state_cooldowns@.update(
                spec_state_index(kind),
                STATE_COOLDOWN_MS as i64,
            ),
            *final(self) == (Enemy { state_cooldowns: final(self).state_cooldowns, ..*old(self) }),
    {
        let i = kind.index();
        self.state_cooldowns.set(i, STATE_COOLDOWN_MS);
    }

    pub fn count_states(&self) -> (r: usize)
        ensures
            r == self.elemental_states@.len(),
    {
        self.elemental_states.len()
    }

    pub fn clear_states(&mut self)
        ensures
            final(self).elemental_states@.len() == 0,
            *final(self) == (Enemy {
                elemental_states: final(self).elemental_states,
                ..*old(self)
            }),
    {
        self.elemental_states = Vec::new();
    }

    /// The extra-damage multiplier in per-mille: Burned plus Soaked means
    /// twenty percent more of every incoming hit.
    pub open spec fn spec_surpression(self) -> int {
        if has_kind(self.elemental_states@, ElementalStateKind::Burned) && has_kind(
            self.elemental_states@,
            ElementalStateKind::Soaked,
        ) {
            1200
        } else {
            1000
        }
    }

    pub fn surpression_multiplier(&self) -> (r: i64)
        ensures
            r == self.spec_surpression(),
    {
        if self.has_state(ElementalStateKind::Burned) && self.has_state(
            ElementalStateKind::Soaked,
        ) {
            1200
        } else {
            1000
        }
    }

    /// Movement speed after the Soaked multiplier and the legacy slow.
    /// The speed after the Soaked multiplier (capped at full speed), when
    /// held, and then the legacy slow factor, while its clock runs.
    pub open spec fn spec_effective_speed(self) -> int {
        let after_soak = if has_kind(self.elemental_states@, ElementalStateKind::Soaked) {
            self.speed * spec_min_i64(
                strength_of(self.elemental_states@, ElementalStateKind::Soaked),
                1000,
            ) / 1000
        } else {
            self.speed as int
        };
        if self.slow_duration > 0 {
            after_soak * self.slow_factor / 1000
        } else {
            after_soak
        }
    }

    pub fn effective_speed(&self) -> (r: i64)
        requires
            self.wf(),
        ensures
            r == self.spec_effective_speed(),
            0 <= r <= SPEED_LIMIT,
            !has_kind(self.elemental_states@, ElementalStateKind::Soaked)
                && self.slow_duration <= 0 ==> r == self.speed,
    {
        let mut speed = self.speed;
        match find_state(&self.elemental_states, ElementalStateKind::Soaked) {
            Some(i) => {
                proof {
                    lemma_idx_unique(self.elemental_states@, ElementalStateKind::Soaked, i as int);
                }
                let ratio = self.elemental_states[i].strength;
                let capped = if ratio > 1000 {
                    1000
                } else {
                    ratio
                };
                proof {
                    crate::geom::lemma_mul_le(speed as int, capped as int, SPEED_LIMIT as int, 1000);
                    crate::units::lemma_div_le(
                        speed as int * capped as int,
                        SPEED_LIMIT as int * 1000,
                        1000,
                    );
                }
                speed = speed * capped / 1000;
            },
            None => {},
        }
        if self.slow_duration > 0 {
            proof {
                crate::geom::lemma_mul_le(
                    speed as int,
                    self.slow_factor as int,
                    SPEED_LIMIT as int,
                    1000,
                );
                crate::units::lemma_div_le(
                    speed as int * self.slow_factor as int,
                    SPEED_LIMIT as int * 1000,
                    1000,
                );
            }
            speed = speed * self.slow_factor / 1000;
        }
        speed
    }

    /// Keep the strongest slow: the lower multiplier and the longer
    /// duration, taken only when the new slow improves on the current one.
    pub fn apply_slow(&mut self, ratio: i64, duration: i64)
        requires
            old(self).wf(),
            0 <= ratio,
            0 <= duration <= DURATION_LIMIT,
        ensures
            final(self).wf(),
            if ratio < old(self).slow_factor || duration > old(self).slow_duration {
                final(self).slow_factor == spec_min_i64(old(self).slow_factor as int, ratio as int)
                    && final(self).slow_duration == spec_max_i64(
                    old(self).slow_duration as int,
                    duration as int,
                )
            } else {
                final(self).slow_factor == old(self).slow_factor && final(self).slow_duration
                    == old(self).slow_duration
            },
            *final(self) == (Enemy {
                slow_factor: final(self).slow_factor,
                slow_duration: final(self).slow_duration,
                ..*old(self)
            }),
    {
        if ratio < self.slow_factor || duration > self.slow_duration {
            self.slow_factor = min_i64(self.slow_factor, ratio);
            self.slow_duration = max_i64(self.slow_duration, duration);
        }
    }

    /// Stuns never shorten one another: the longer remaining stun wins.
    pub fn apply_stun(&mut self, duration: i64)
        requires
            old(self).wf(),
            0 <= duration <= DURATION_LIMIT,
        ensures
            final(self).wf(),
            final(self).stun_duration == spec_max_i64(
                old(self).stun_duration as int,
                duration as int,
            ),
            *final(self) == (Enemy { stun_duration: final(self).stun_duration, ..*old(self) }),
    {
        self.stun_duration = max_i64(self.stun_duration, duration);
    }

    /// Refresh the legacy burn with the strongest values.
    pub fn apply_burn(&mut self, dps: i64, duration: i64)
        requires
            old(self).wf(),
            0 <= dps <= AMOUNT_LIMIT,
            0 <= duration <= DURATION_LIMIT,
        ensures
            final(self).wf(),
            final(self).burn == match old(self).burn {
                Some(b) => Some(
                    BurnState {
                        dps: spec_max_i64(b.dps as int, dps as int) as i64,
                        remaining: spec_max_i64(b.remaining as int, duration as int) as i64,
                    },
                ),
                None => Some(BurnState { dps, remaining: duration }),
            },
            *final(self) == (Enemy { burn: final(self).burn, ..*old(self) }),
    {
        match self.burn {
            Some(b) => {
                self.burn = Some(
                    BurnState {
                        dps: max_i64(b.dps, dps),
                        remaining: max_i64(b.remaining, duration),
                    },
                );
            },
            None => {
                self.burn = Some(BurnState { dps, remaining: duration });
            },
        }
    }

    /// Apply Burned. Frozen blocks it; its own cooldown drops it; a Soaked
    /// enemy first loses Soaked (evaporation) and is then burned; the
    /// strongest damage-per-second and the longer duration survive.
    pub fn apply_burned(&mut self, dps: i64, duration: i64)
        requires
            old(self).wf(),
            0 <= dps <= STRENGTH_LIMIT,
            0 <= duration <= DURATION_LIMIT,
        ensures
            final(self).wf(),
            has_kind(old(self).elemental_states@, ElementalStateKind::Frozen) ==> *final(self)
                == *old(self),
            !has_kind(old(self).elemental_states@, ElementalStateKind::Frozen) && old(self)
                .state_cooldowns@[0] > 0 ==> *final(self) == *old(self),
            !has_kind(old(self).elemental_states@, ElementalStateKind::Frozen) && old(self)
                .state_cooldowns@[0] <= 0 ==> {
                &&& final(self).elemental_states@ == refresh_strong(
                    remove_kind(old(self).elemental_states@, ElementalStateKind::Soaked),
                    ElementalStateKind::Burned,
                    dps as int,
                    duration as int,
                )
                &&& final(self).state_cooldowns@ == old(self).state_cooldowns@.update(
                    0,
                    STATE_COOLDOWN_MS as i64,
                )
                &&& has_kind(final(self).elemental_states@, ElementalStateKind::Burned)
                &&& !has_kind(final(self).elemental_states@, ElementalStateKind::Soaked)
                &&& final(self).stun_duration == old(self).stun_duration
                &&& final(self).freeze_immunity == old(self).freeze_immunity
                &&& final(self).status_frame(*old(self))
            },
    {
        if self.is_state_immune() {
            return ;
        }
        if !self.can_apply_state(ElementalStateKind::Burned) {
            return ;
        }
        proof {
            lemma_remove_kind(self.elemental_states@, ElementalStateKind::Soaked);
        }
        remove_state_vec(&mut self.elemental_states, ElementalStateKind::Soaked);
        proof {
            lemma_refresh_strong(
                self.elemental_states@,
                ElementalStateKind::Burned,
                dps as int,
                duration as int,
            );
        }
        refresh_strong_vec(&mut self.elemental_states, ElementalStateKind::Burned, dps, duration);
        self.trigger_state_cooldown(ElementalStateKind::Burned);
    }

    /// Apply Soaked. Frozen blocks it, post-freeze immunity rejects it,
    /// its cooldown drops it; otherwise the lower speed multiplier and the
    /// longer duration survive.
    pub fn apply_soaked(&mut self, slow_ratio: i64, duration: i64)
        requires
            old(self).wf(),
            0 <= slow_ratio <= STRENGTH_LIMIT,
            0 <= duration <= DURATION_LIMIT,
        ensures
            final(self).wf(),
            has_kind(old(self).elemental_states@, ElementalStateKind::Frozen) ==> *final(self)
                == *old(self),
            old(self).freeze_immunity > 0 ==> *final(self) == *old(self),
            !has_kind(old(self).elemental_states@, ElementalStateKind::Frozen) && old(self)
                .freeze_immunity <= 0 && old(self).state_cooldowns@[1] > 0 ==> *final(self)
                == *old(self),
            !has_kind(old(self).elemental_states@, ElementalStateKind::Frozen) && old(self)
                .freeze_immunity <= 0 && old(self).state_cooldowns@[1] <= 0 ==> {
                &&& final(self).elemental_states@ == refresh_soaked(
                    old(self).elemental_states@,
                    slow_ratio as int,
                    duration as int,
                )
                &&& final(self).state_cooldowns@ == old(self).state_cooldowns@.update(
                    1,
                    STATE_COOLDOWN_MS as i64,
                )
                &&& has_kind(final(self).elemental_states@, ElementalStateKind::Soaked)
                &&& final(self).stun_duration == old(self).stun_duration
                &&& final(self).freeze_immunity == old(self).freeze_immunity
                &&& final(self).status_frame(*old(self))
            },
    {
        if self.is_state_immune() {
            return ;
        }
        if self.freeze_immunity > 0 {
            return ;
        }
        if !self.can_apply_state(ElementalStateKind::Soaked) {
            return ;
        }
        proof {
            lemma_refresh_soaked(self.elemental_states@, slow_ratio as int, duration as int);
        }
        refresh_soaked_vec(&mut self.elemental_states, slow_ratio, duration);
        self.trigger_state_cooldown(ElementalStateKind::Soaked);
    }

    /// Apply Seismic: a stun of `stun_duration` on every damage instance,
    /// for `state_duration`. Frozen blocks it; its cooldown drops it.
    pub fn apply_seismic(&mut self, stun_duration: i64, state_duration: i64)
        requires
            old(self).wf(),
            0 <= stun_duration <= STRENGTH_LIMIT,
            0 <= state_duration <= DURATION_LIMIT,
        ensures
            final(self).wf(),
            has_kind(old(self).elemental_states@, ElementalStateKind::Frozen) ==> *final(self)
                == *old(self),
            !has_kind(old(self).elemental_states@, ElementalStateKind::Frozen) && old(self)
                .state_cooldowns@[2] > 0 ==> *final(self) == *old(self),
            !has_kind(old(self).elemental_states@, ElementalStateKind::Frozen) && old(self)
                .state_cooldowns@[2] <= 0 ==> {
                &&& final(self).elemental_states@ == refresh_strong(
                    old(self).elemental_states@,
                    ElementalStateKind::Seismic,
                    stun_duration as int,
                    state_duration as int,
                )
                &&& final(self).state_cooldowns@ == old(self).state_cooldowns@.update(
                    2,
                    STATE_COOLDOWN_MS as i64,
                )
                &&& has_kind(final(self).elemental_states@, ElementalStateKind::Seismic)
                &&& final(self).stun_duration == old(self).stun_duration
                &&& final(self).freeze_immunity == old(self).freeze_immunity
                &&& final(self).status_frame(*old(self))
            },
    {
        if self.is_state_immune() {
            return ;
        }
        if !self.can_apply_state(ElementalStateKind::Seismic) {
            return ;
        }
        proof {
            lemma_refresh_strong(
                self.elemental_states@,
                ElementalStateKind::Seismic,
                stun_duration as int,
                state_duration as int,
            );
        }
        refresh_strong_vec(
            &mut self.elemental_states,
            ElementalStateKind::Seismic,
            stun_duration,
            state_duration,
        );
        self.trigger_state_cooldown(ElementalStateKind::Seismic);
    }

    /// Apply Frozen: full stun for `duration`, never reapplied while
    /// already frozen, and arm the post-freeze immunity for `duration`
    /// plus two seconds.
    pub fn apply_frozen(&mut self, duration: i64)
        requires
            old(self).wf(),
            0 <= duration <= DURATION_LIMIT,
        ensures
            final(self).wf(),
            has_kind(old(self).elemental_states@, ElementalStateKind::Frozen) ==> *final(self)
                == *old(self),
            !has_kind(old(self).elemental_states@, ElementalStateKind::Frozen) ==> {
                &&& final(self).elemental_states@ == refresh_strong(
                    old(self).elemental_states@,
                    ElementalStateKind::Frozen,
                    duration as int,
                    duration as int,
                )
                &&& has_kind(final(self).elemental_states@, ElementalStateKind::Frozen)
                &&& final(self).stun_duration == spec_max_i64(
                    old(self).stun_duration as int,
                    duration as int,
                )
                &&& final(self).freeze_immunity == duration + FREEZE_IMMUNITY_MS
                &&& final(self).state_cooldowns@ == old(self).state_cooldowns@
                &&& final(self).status_frame(*old(self))
            },
    {
        if self.has_state(ElementalStateKind::Frozen) {
            return ;
        }
        proof {
            lemma_refresh_strong(
                self.elemental_states@,
                ElementalStateKind::Frozen,
                duration as int,
                duration as int,
            );
        }
        refresh_strong_vec(
            &mut self.elemental_states,
            ElementalStateKind::Frozen,
            duration,
            duration,
        );
        self.stun_duration = max_i64(self.stun_duration, duration);
        self.freeze_immunity = duration + FREEZE_IMMUNITY_MS;
    }

    /// Apply Cold. Frozen blocks it, post-freeze immunity rejects it, its
    /// cooldown drops it. On a Soaked enemy, Soaked and Cold are both
    /// consumed and the enemy becomes Frozen for `freeze_duration`; the
    /// return value says whether that happened.
    pub fn apply_cold(&mut self, freeze_duration: i64, cold_duration: i64) -> (froze: bool)
        requires
            old(self).wf(),
            0 <= freeze_duration <= DURATION_LIMIT,
            0 <= cold_duration <= DURATION_LIMIT,
        ensures
            final(self).wf(),
            has_kind(old(self).elemental_states@, ElementalStateKind::Frozen) ==> !froze && *final(self)
                == *old(self),
            old(self).freeze_immunity > 0 ==> !froze && *final(self) == *old(self),
            !has_kind(old(self).elemental_states@, ElementalStateKind::Frozen) && old(self)
                .freeze_immunity <= 0 && old(self).state_cooldowns@[3] > 0 ==> !froze && *final(self)
                == *old(self),
            !has_kind(old(self).elemental_states@, ElementalStateKind::Frozen) && old(self)
                .freeze_immunity <= 0 && old(self).state_cooldowns@[3] <= 0 && has_kind(
                old(self).elemental_states@,
                ElementalStateKind::Soaked,
            ) ==> {
                &&& froze
                &&& final(self).elemental_states@ == refresh_strong(
                    remove_kind(
                        remove_kind(old(self).elemental_states@, ElementalStateKind::Soaked),
                        ElementalStateKind::Cold,
                    ),
                    ElementalStateKind::Frozen,
                    freeze_duration as int,
                    freeze_duration as int,
                )
                &&& has_kind(final(self).elemental_states@, ElementalStateKind::Frozen)
                &&& !has_kind(final(self).elemental_states@, ElementalStateKind::Soaked)
                &&& !has_kind(final(self).elemental_states@, ElementalStateKind::Cold)
                &&& final(self).stun_duration == spec_max_i64(
                    old(self).stun_duration as int,
                    freeze_duration as int,
                )
                &&& final(self).freeze_immunity == freeze_duration + FREEZE_IMMUNITY_MS
                &&& final(self).state_cooldowns@ == old(self).state_cooldowns@.update(
                    3,
                    STATE_COOLDOWN_MS as i64,
                )
                &&& final(self).status_frame(*old(self))
            },
            !has_kind(old(self).elemental_states@, ElementalStateKind::Frozen) && old(self)
                .freeze_immunity <= 0 && old(self).state_cooldowns@[3] <= 0 && !has_kind(
                old(self).elemental_states@,
                ElementalStateKind::Soaked,
            ) ==> {
                &&& !froze
                &&& final(self).elemental_states@ == refresh_strong(
                    old(self).elemental_states@,
                    ElementalStateKind::Cold,
                    freeze_duration as int,
                    cold_duration as int,
                )
                &&& has_kind(final(self).elemental_states@, ElementalStateKind::Cold)
                &&& final(self).stun_duration == old(self).stun_duration
                &&& final(self).freeze_immunity == old(self).freeze_immunity
                &&& final(self).state_cooldowns@ == old(self).state_cooldowns@.update(
                    3,
                    STATE_COOLDOWN_MS as i64,
                )
                &&& final(self).status_frame(*old(self))
            },
    {
        if self.is_state_immune() {
            return false;
        }
        if self.freeze_immunity > 0 {
            return false;
        }
        if !self.can_apply_state(ElementalStateKind::Cold) {
            return false;
        }
        if self.has_state(ElementalStateKind::Soaked) {
            proof {
                lemma_remove_kind(self.elemental_states@, ElementalStateKind::Soaked);
            }
            remove_state_vec(&mut self.elemental_states, ElementalStateKind::Soaked);
            proof {
                lemma_remove_kind(self.elemental_states@, ElementalStateKind::Cold);
            }
            remove_state_vec(&mut self.elemental_states, ElementalStateKind::Cold);
            proof {
                lemma_refresh_strong(
                    self.elemental_states@,
                    ElementalStateKind::Frozen,
                    freeze_duration as int,
                    freeze_duration as int,
                );
            }
            self.apply_frozen(freeze_duration);
            self.trigger_state_cooldown(ElementalStateKind::Cold);
            return true;
        }
        proof {
            lemma_refresh_strong(
                self.elemental_states@,
                ElementalStateKind::Cold,
                freeze_duration as int,
                cold_duration as int,
            );
        }
        refresh_strong_vec(
            &mut self.elemental_states,
            ElementalStateKind::Cold,
            freeze_duration,
            cold_duration,
        );
        self.trigger_state_cooldown(ElementalStateKind::Cold);
        false
    }

    /// The wave multipliers, in per-mille: (hit points, damage, gold).
    /// Linear within the early tiers, gently quadratic through the middle
    /// game, exponential past wave one hundred with a saturation cap.
    pub fn get_tier_scaling(wave_number: u32) -> (r: (i64, i64, i64))
        requires
            wave_number >= 1,
        ensures
            r.0 == spec_hp_scale(wave_number as int),
            r.1 == spec_damage_scale(wave_number as int),
            r.2 == spec_gold_scale(wave_number as int),
            1000 <= r.0 <= 10_000_000_000,
            1000 <= r.1 <= 5_000_000_000,
            1000 <= r.2 <= 100_000,
    {
        let w = wave_number as i64;
        if w <= 5 {
            ((4000 + 150 * (w - 1)) / 4, 1000 + 25 * (w - 1), 1000)
        } else if w <= 10 {
            (1150 + 70 * (w - 5), 1100 + 40 * (w - 5), 1000 + 30 * (w - 5))
        } else if w <= 15 {
            (1500 + 100 * (w - 10), 1300 + 50 * (w - 10), 1150 + 30 * (w - 10))
        } else if w <= 20 {
            (2000 + 150 * (w - 15), 1550 + 60 * (w - 15), 1300 + 40 * (w - 15))
        } else if w <= 50 {
            let wp = w - 20;
            proof {
                assert(0 <= wp * (wp + 1) <= 930) by (nonlinear_arith)
                    requires
                        1 <= wp <= 30,
                ;
            }
            (2750 + 3 * (wp * (wp + 1)) / 2, 1850 + 3 * (wp * (wp + 1)) / 8, 1500 + 20 * wp)
        } else if w <= 100 {
            let wp = w - 50;
            proof {
                assert(0 <= wp * wp <= 2500) by (nonlinear_arith)
                    requires
                        1 <= wp <= 50,
                ;
            }
            (4145 + 50 * wp + wp * wp, 2198 + 25 * wp + (wp * wp) / 2, 2100 + 30 * wp)
        } else {
            let f = exp1035(wave_number - 100);
            proof {
                crate::units::lemma_div_le(9145 * f as int, 9145 * (EXP_CAP as int), 1000);
                crate::units::lemma_div_le(9145int * 1000, 9145 * f as int, 1000);
                crate::units::lemma_div_le(4698 * f as int, 4698 * (EXP_CAP as int), 1000);
                crate::units::lemma_div_le(4698int * 1000, 4698 * f as int, 1000);
                assert(9145 * 1000 <= 9145 * f && 9145 * f <= 9145 * (EXP_CAP as int))
                    by (nonlinear_arith)
                    requires
                        1000 <= f <= EXP_CAP,
                ;
                assert(4698 * 1000 <= 4698 * f && 4698 * f <= 4698 * (EXP_CAP as int))
                    by (nonlinear_arith)
                    requires
                        1000 <= f <= EXP_CAP,
                ;
            }
            let gm = min_i64(1000 + 50 * (w - 100), 10_000);
            (9145 * f / 1000, 4698 * f / 1000, 3600 * gm / 1000)
        }
    }

    /// Take one damage instance. Surpression (Burned plus Soaked) raises
    /// it by twenty percent first; a held Seismic state re-applies its
    /// stun; a non-neutral element lands on the enemy and, against a
    /// different element already present, sets off the first matching
    /// reaction, consuming every landed element.
    pub fn take_damage(&mut self, damage: i64, element: TowerElement)
        requires
            old(self).wf(),
            0 <= damage <= crate::units::DAMAGE_LIMIT,
        ensures
            final(self).wf(),
            final(self).elemental_states@ == old(self).elemental_states@,
            final(self).state_cooldowns@ == old(self).state_cooldowns@,
            final(self).freeze_immunity == old(self).freeze_immunity,
            final(self).burn == old(self).burn,
            final(self).id == old(self).id && final(self).position == old(self).position && final(self).max_hp == old(self).max_hp && final(self).speed == old(self).speed && final(self).damage == old(self).damage && final(self).attack_cooldown == old(self).attack_cooldown && final(self).gold_value == old(self).gold_value,
            final(self).stun_duration == if has_kind(
                old(self).elemental_states@,
                ElementalStateKind::Seismic,
            ) {
                spec_max_i64(
                    old(self).stun_duration as int,
                    strength_of(old(self).elemental_states@, ElementalStateKind::Seismic),
                )
            } else {
                old(self).stun_duration as int
            },
            ({
                let d = damage * old(self).spec_surpression() / 1000;
                let hp1 = spec_hp_sub(old(self).hp as int, d);
                if element == TowerElement::Neutral {
                    &&& final(self).hp == hp1
                    &&& final(self).applied_elements@ == old(self).applied_elements@
                    &&& final(self).slow_factor == old(self).slow_factor
                    &&& final(self).slow_duration == old(self).slow_duration
                } else {
                    match first_reaction(old(self).applied_elements@, element) {
                        None => {
                            &&& final(self).hp == hp1
                            &&& final(self).applied_elements@ == old(self).applied_elements@.push(
                                AppliedElement { element, duration: 3000 },
                            )
                            &&& final(self).slow_factor == old(self).slow_factor
                            &&& final(self).slow_duration == old(self).slow_duration
                        },
                        Some(rx) => {
                            &&& final(self).applied_elements@.len() == 0
                            &&& final(self).hp == match rx {
                                ElementalReaction::Overload => spec_hp_sub(hp1, d * 500 / 1000),
                                ElementalReaction::Magma => spec_hp_sub(hp1, d * 300 / 1000),
                                ElementalReaction::Conductor => spec_hp_sub(hp1, d * 400 / 1000),
                                _ => hp1,
                            }
                            &&& final(self).slow_factor == match rx {
                                ElementalReaction::Steam => 500int,
                                ElementalReaction::Erosion => 300int,
                                ElementalReaction::Magnetic => 0int,
                                _ => old(self).slow_factor as int,
                            }
                            &&& final(self).slow_duration == match rx {
                                ElementalReaction::Steam => 2000int,
                                ElementalReaction::Erosion => 3000int,
                                ElementalReaction::Magnetic => 1500int,
                                _ => old(self).slow_duration as int,
                            }
                        },
                    }
                }
            }),
    {
        let mult = self.surpression_multiplier();
        let d = damage * mult / 1000;
        proof {
            crate::units::lemma_div_le(
                damage as int * mult as int,
                crate::units::DAMAGE_LIMIT as int * 1200,
                1000,
            );
            crate::units::lemma_div_le(0, damage as int * mult as int, 1000);
        }
        self.hp = hp_sub(self.hp, d);
        match find_state(&self.elemental_states, ElementalStateKind::Seismic) {
            Some(i) => {
                proof {
                    lemma_idx_unique(self.elemental_states@, ElementalStateKind::Seismic, i as int);
                }
                let stun = self.elemental_states[i].strength;
                self.stun_duration = max_i64(self.stun_duration, stun);
            },
            None => {},
        }
        if element != TowerElement::Neutral {
            let rx = find_first_reaction(&self.applied_elements, element);
            match rx {
                None => {
                    self.applied_elements.push(AppliedElement { element, duration: 3000 });
                },
                Some(reaction) => {
                    match reaction {
                        ElementalReaction::Steam => {
                            self.slow_factor = 500;
                            self.slow_duration = 2000;
                        },
                        ElementalReaction::Overload => {
                            self.hp = hp_sub(self.hp, d * 500 / 1000);
                        },
                        ElementalReaction::Magma => {
                            self.hp = hp_sub(self.hp, d * 300 / 1000);
                        },
                        ElementalReaction::Conductor => {
                            self.hp = hp_sub(self.hp, d * 400 / 1000);
                        },
                        ElementalReaction::Erosion => {
                            self.slow_factor = 300;
                            self.slow_duration = 3000;
                        },
                        ElementalReaction::Magnetic => {
                            self.slow_factor = 0;
                            self.slow_duration = 1500;
                        },
                    }
                    self.applied_elements = Vec::new();
                },
            }
        }
    }

    /// Advance every held state by `dt`: Burned deals its damage for the
    /// frame (off the hit path, so Seismic never triggers), Frozen keeps
    /// the stun pinned to its remaining time, and expired states drop out.
    pub fn tick_elemental_states(&mut self, dt: i64)
        requires
            old(self).wf(),
            0 < dt <= DT_LIMIT,
        ensures
            final(self).wf(),
            final(self).elemental_states@ == ticked_states(old(self).elemental_states@, dt as int),
            final(self).hp == spec_hp_sub(
                old(self).hp as int,
                if has_kind(old(self).elemental_states@, ElementalStateKind::Burned) {
                    strength_of(old(self).elemental_states@, ElementalStateKind::Burned) * dt
                        / 1000
                } else {
                    0
                },
            ),
            final(self).stun_duration == if has_kind(
                old(self).elemental_states@,
                ElementalStateKind::Frozen,
            ) {
                spec_max_i64(
                    old(self).stun_duration as int,
                    remaining_of(old(self).elemental_states@, ElementalStateKind::Frozen) - dt,
                )
            } else {
                old(self).stun_duration as int
            },
            final(self).state_cooldowns@ == old(self).state_cooldowns@,
            final(self).freeze_immunity == old(self).freeze_immunity,
            final(self).burn == old(self).burn,
            final(self).applied_elements@ == old(self).applied_elements@,
            final(self).slow_factor == old(self).slow_factor && final(self).slow_duration == old(self).slow_duration,
            final(self).id == old(self).id && final(self).position == old(self).position && final(self).max_hp == old(self).max_hp && final(self).speed == old(self).speed && final(self).damage == old(self).damage && final(self).attack_cooldown == old(self).attack_cooldown && final(self).gold_value == old(self).gold_value,
    {
        proof {
            lemma_ticked_states(self.elemental_states@, dt as int);
        }
        let ghost s0 = self.elemental_states@;
        let mut out: Vec<ElementalState> = Vec::new();
        let mut burn_damage: i64 = 0;
        let mut stun = self.stun_duration;
        let mut i: usize = 0;
        proof {
            assert(s0.take(0) =~= Seq::<ElementalState>::empty());
        }
        while i < self.elemental_states.len()
            invariant
                old(self).wf(),
                self.elemental_states@ == s0,
                s0 == old(self).elemental_states@,
                0 <= i <= s0.len(),
                0 < dt <= DT_LIMIT,
                out@ == ticked_states(s0.take(i as int), dt as int),
                burn_damage == if has_kind(s0.take(i as int), ElementalStateKind::Burned) {
                    strength_of(s0.take(i as int), ElementalStateKind::Burned) * dt / 1000
                } else {
                    0
                },
                stun == if has_kind(s0.take(i as int), ElementalStateKind::Frozen) {
                    spec_max_i64(
                        old(self).stun_duration as int,
                        remaining_of(s0.take(i as int), ElementalStateKind::Frozen) - dt,
                    )
                } else {
                    old(self).stun_duration as int
                },
                self.stun_duration == old(self).stun_duration,
            decreases s0.len() - i,
        {
            proof {
                assert(s0.take(i as int + 1).drop_last() =~= s0.take(i as int));
                assert(s0.take(i as int + 1).last() == s0[i as int]);
                assert(kinds_distinct(s0.take(i as int + 1))) by {
                    assert(forall|x: int|
                        0 <= x < i + 1 ==> s0.take(i as int + 1)[x] == s0[x]);
                }
            }
            let st = self.elemental_states[i];
            let nr = st.remaining - dt;
            match st.kind {
                ElementalStateKind::Burned => {
                    proof {
                        lemma_idx_unique(s0.take(i as int + 1), ElementalStateKind::Burned, i as int);
                        assert(st == s0[i as int]);
                        crate::geom::lemma_mul_le(
                            st.strength as int,
                            dt as int,
                            STRENGTH_LIMIT as int,
                            DT_LIMIT as int,
                        );
                        crate::units::lemma_div_le(
                            st.strength as int * dt as int,
                            STRENGTH_LIMIT as int * DT_LIMIT as int,
                            1000,
                        );
                        crate::units::lemma_div_le(0, st.strength as int * dt as int, 1000);
                        if has_kind(s0.take(i as int), ElementalStateKind::Burned) {
                            let j = idx_of(s0.take(i as int), ElementalStateKind::Burned);
                            assert(s0.take(i as int)[j] == s0[j]);
                            assert(s0[j].kind == s0[i as int].kind);
                        }
                    }
                    burn_damage = st.strength * dt / 1000;
                },
                ElementalStateKind::Frozen => {
                    proof {
                        lemma_idx_unique(s0.take(i as int + 1), ElementalStateKind::Frozen, i as int);
                        if has_kind(s0.take(i as int), ElementalStateKind::Frozen) {
                            let j = idx_of(s0.take(i as int), ElementalStateKind::Frozen);
                            assert(s0.take(i as int)[j] == s0[j]);
                            assert(s0[j].kind == s0[i as int].kind);
                        }
                    }
                    stun = max_i64(stun, nr);
                },
                _ => {
                    proof {
                        if has_kind(s0.take(i as int + 1), ElementalStateKind::Burned) {
                            let j = idx_of(s0.take(i as int + 1), ElementalStateKind::Burned);
                            lemma_idx_unique(s0.take(i as int + 1), ElementalStateKind::Burned, j);
                            if j < i {
                                lemma_idx_unique(s0.take(i as int), ElementalStateKind::Burned, j);
                            }
                        }
                        if !has_kind(s0.take(i as int + 1), ElementalStateKind::Burned) {
                            if has_kind(s0.take(i as int), ElementalStateKind::Burned) {
                                let j = idx_of(s0.take(i as int), ElementalStateKind::Burned);
                                assert(s0.take(i as int + 1)[j].kind
                                    == ElementalStateKind::Burned);
                            }
                        }
                        if has_kind(s0.take(i as int + 1), ElementalStateKind::Frozen) {
                            let j = idx_of(s0.take(i as int + 1), ElementalStateKind::Frozen);
                            lemma_idx_unique(s0.take(i as int + 1), ElementalStateKind::Frozen, j);
                            if j < i {
                                lemma_idx_unique(s0.take(i as int), ElementalStateKind::Frozen, j);
                            }
                        }
                        if !has_kind(s0.take(i as int + 1), ElementalStateKind::Frozen) {
                            if has_kind(s0.take(i as int), ElementalStateKind::Frozen) {
                                let j = idx_of(s0.take(i as int), ElementalStateKind::Frozen);
                                assert(s0.take(i as int + 1)[j].kind
                                    == ElementalStateKind::Frozen);
                            }
                        }
                    }
                },
            }
            proof {
                if st.kind == ElementalStateKind::Burned || st.kind == ElementalStateKind::Frozen {
                    if has_kind(s0.take(i as int), st.kind) {
                        let j = idx_of(s0.take(i as int), st.kind);
                        assert(s0.take(i as int)[j] == s0[j]);
                        assert(s0[j].kind != s0[i as int].kind);
                    }
                }
            }
            if nr > 0 {
                out.push(ElementalState { kind: st.kind, remaining: nr, strength: st.strength });
            }
            i = i + 1;
        }
        proof {
            assert(s0.take(s0.len() as int) =~= s0);
        }
        self.elemental_states = out;
        self.stun_duration = stun;
        proof {
            if has_kind(s0, ElementalStateKind::Burned) {
                let j = idx_of(s0, ElementalStateKind::Burned);
                assert(0 <= j < s0.len() && s0[j].kind == ElementalStateKind::Burned);
                assert(0 <= s0[j].strength <= STRENGTH_LIMIT);
                crate::geom::lemma_mul_le(
                    s0[j].strength as int,
                    dt as int,
                    STRENGTH_LIMIT as int,
                    DT_LIMIT as int,
                );
                crate::units::lemma_div_le(
                    s0[j].strength as int * dt as int,
                    STRENGTH_LIMIT as int * DT_LIMIT as int,
                    1000,
                );
                crate::units::lemma_div_le(0, s0[j].strength as int * dt as int, 1000);
            }
        }
        if burn_damage > 0 {
            self.hp = hp_sub(self.hp, burn_damage);
        }
        proof {
            if !(burn_damage > 0) {
                assert(spec_hp_sub(old(self).hp as int, burn_damage as int) == old(self).hp);
            }
        }
    }

    /// One frame of enemy bookkeeping: timers run down, and an unstunned
    /// enemy walks toward the center, halting at the shield radius when a
    /// shield is up and at its own attack range otherwise.
    pub fn tick(&mut self, dt: i64, center: &Point2D, shield_radius: Option<i64>)
        requires
            old(self).wf(),
            0 < dt <= DT_LIMIT,
            center.in_bounds(),
            match shield_radius {
                Some(r) => 0 <= r <= COORD_LIMIT,
                None => true,
            },
        ensures
            final(self).wf(),
            final(self).stun_duration == if old(self).stun_duration > 0 {
                old(self).stun_duration - dt
            } else {
                old(self).stun_duration as int
            },
            final(self).freeze_immunity == if old(self).freeze_immunity > 0 {
                old(self).freeze_immunity - dt
            } else {
                old(self).freeze_immunity as int
            },
            final(self).state_cooldowns@.len() == 5,
            forall|j: int|
                0 <= j < 5 ==> #[trigger] final(self).state_cooldowns@[j] == if old(self).state_cooldowns@[j] > 0 {
                    old(self).state_cooldowns@[j] - dt
                } else {
                    old(self).state_cooldowns@[j] as int
                },
            ({
                let stun1 = if old(self).stun_duration > 0 {
                    old(self).stun_duration - dt
                } else {
                    old(self).stun_duration as int
                };
                let stop = match shield_radius {
                    Some(r) => r as int,
                    None => old(self).attack_range as int,
                };
                let d2 = old(self).position.spec_dist_sq(*center);
                let step = old(self).speed * old(self).slow_factor / 1000 * dt / 1000;
                let dist = crate::geom::spec_isqrt(d2);
                if stun1 <= 0 && d2 > stop * stop && d2 > 1_000_000 {
                    final(self).position == (Point2D {
                        x: crate::geom::spec_step_coord(
                            old(self).position.x,
                            center.x,
                            step,
                            dist,
                        ) as i64,
                        y: crate::geom::spec_step_coord(
                            old(self).position.y,
                            center.y,
                            step,
                            dist,
                        ) as i64,
                    })
                } else {
                    final(self).position == old(self).position
                }
            }),
            final(self).slow_duration == if old(self).slow_duration > 0 {
                old(self).slow_duration - dt
            } else {
                old(self).slow_duration as int
            },
            final(self).slow_factor == if old(self).slow_duration > 0 && old(self).slow_duration
                - dt <= 0 {
                1000int
            } else {
                old(self).slow_factor as int
            },
            final(self).hp == match old(self).burn {
                Some(b) => spec_hp_sub(old(self).hp as int, b.dps * dt / 1000),
                None => old(self).hp as int,
            },
            final(self).burn == match old(self).burn {
                Some(b) => if b.remaining - dt > 0 {
                    Some(BurnState { dps: b.dps, remaining: (b.remaining - dt) as i64 })
                } else {
                    None
                },
                None => None::<BurnState>,
            },
            final(self).applied_elements@ == ticked_elements(
                old(self).applied_elements@,
                dt as int,
            ),
            final(self).elemental_states@ == old(self).elemental_states@,
            final(self).id == old(self).id && final(self).shape == old(self).shape && final(self).max_hp == old(self).max_hp && final(self).speed == old(self).speed && final(self).damage == old(self).damage && final(self).attack_range == old(self).attack_range
                && final(self).attack_speed == old(self).attack_speed && final(self).attack_cooldown == old(self).attack_cooldown && final(self).gold_value == old(self).gold_value && final(self).radius == old(self).radius && final(self).is_boss == old(self).is_boss,
    {
        if self.stun_duration > 0 {
            self.stun_duration = self.stun_duration - dt;
        }
        if self.freeze_immunity > 0 {
            self.freeze_immunity = self.freeze_immunity - dt;
        }
        let mut k: usize = 0;
        while k < 5
            invariant
                0 <= k <= 5,
                self.state_cooldowns@.len() == 5,
                old(self).state_cooldowns@.len() == 5,
                0 < dt <= DT_LIMIT,
                forall|j: int|
                    0 <= j < 5 ==> -DURATION_LIMIT <= #[trigger] old(self).state_cooldowns@[j]
                        <= DURATION_LIMIT,
                forall|j: int|
                    0 <= j < k ==> #[trigger] self.state_cooldowns@[j] == if old(self).state_cooldowns@[j] > 0 {
                        old(self).state_cooldowns@[j] - dt
                    } else {
                        old(self).state_cooldowns@[j] as int
                    },
                forall|j: int|
                    k <= j < 5 ==> #[trigger] self.state_cooldowns@[j] == old(self).state_cooldowns@[j],
                *self == (Enemy { state_cooldowns: self.state_cooldowns, ..*old(self) })
                    || *self == (Enemy {
                    state_cooldowns: self.state_cooldowns,
                    stun_duration: self.stun_duration,
                    freeze_immunity: self.freeze_immunity,
                    ..*old(self)
                }),
                self.stun_duration == if old(self).stun_duration > 0 {
                    old(self).stun_duration - dt
                } else {
                    old(self).stun_duration as int
                },
                self.freeze_immunity == if old(self).freeze_immunity > 0 {
                    old(self).freeze_immunity - dt
                } else {
                    old(self).freeze_immunity as int
                },
                self.position == old(self).position,
                self.elemental_states@ == old(self).elemental_states@,
                self.applied_elements@ == old(self).applied_elements@,
                self.hp == old(self).hp,
                self.burn == old(self).burn,
                self.slow_factor == old(self).slow_factor,
                self.slow_duration == old(self).slow_duration,
                self.speed == old(self).speed,
                self.attack_range == old(self).attack_range,
                old(self).wf(),
            decreases 5 - k,
        {
            let c = self.state_cooldowns[k];
            if c > 0 {
                self.state_cooldowns.set(k, c - dt);
            }
            k = k + 1;
        }
        let is_stunned = self.stun_duration > 0;
        if !is_stunned {
            let stop = match shield_radius {
                Some(r) => r,
                None => self.attack_range,
            };
            let d2 = self.position.dist_sq(center);
            proof {
                crate::geom::lemma_square_bound(stop as int, COORD_LIMIT as int);
            }
            if d2 > stop * stop && d2 > 1_000_000 {
                let dist = crate::geom::isqrt(d2);
                proof {
                    if dist < 1000 {
                        assert((dist + 1) * (dist + 1) <= 1000 * 1000) by (nonlinear_arith)
                            requires
                                0 <= dist,
                                dist + 1 <= 1000,
                        ;
                    }
                    crate::geom::lemma_mul_le(
                        self.speed as int,
                        self.slow_factor as int,
                        SPEED_LIMIT as int,
                        1000,
                    );
                    crate::units::lemma_div_le(
                        self.speed as int * self.slow_factor as int,
                        SPEED_LIMIT as int * 1000,
                        1000,
                    );
                    crate::geom::lemma_mul_le(
                        self.speed as int * self.slow_factor as int / 1000,
                        dt as int,
                        SPEED_LIMIT as int,
                        DT_LIMIT as int,
                    );
                    crate::units::lemma_div_le(
                        (self.speed as int * self.slow_factor as int / 1000) * dt as int,
                        SPEED_LIMIT as int * DT_LIMIT as int,
                        1000,
                    );
                }
                let step = self.speed * self.slow_factor / 1000 * dt / 1000;
                let new_pos = crate::geom::move_toward(&self.position, center, step, dist);
                self.position = new_pos;
            }
        }
        if self.slow_duration > 0 {
            self.slow_duration = self.slow_duration - dt;
            if self.slow_duration <= 0 {
                self.slow_factor = 1000;
            }
        }
        match self.burn {
            Some(b) => {
                proof {
                    crate::geom::lemma_mul_le(
                        b.dps as int,
                        dt as int,
                        AMOUNT_LIMIT as int,
                        DT_LIMIT as int,
                    );
                    crate::units::lemma_div_le(
                        b.dps as int * dt as int,
                        AMOUNT_LIMIT as int * DT_LIMIT as int,
                        1000,
                    );
                    crate::units::lemma_div_le(0, b.dps as int * dt as int, 1000);
                }
                self.hp = hp_sub(self.hp, b.dps * dt / 1000);
                let rem = b.remaining - dt;
                if rem > 0 {
                    self.burn = Some(BurnState { dps: b.dps, remaining: rem });
                } else {
                    self.burn = None;
                }
            },
            None => {},
        }
        proof {
            lemma_ticked_elements(self.applied_elements@, dt as int);
        }
        let ghost e0 = self.applied_elements@;
        let mut out: Vec<AppliedElement> = Vec::new();
        let mut i: usize = 0;
        proof {
            assert(e0.take(0) =~= Seq::<AppliedElement>::empty());
        }
        while i < self.applied_elements.len()
            invariant
                0 <= i <= self.applied_elements@.len(),
                self.applied_elements@ == e0,
                out@ == ticked_elements(e0.take(i as int), dt as int),
                elements_ok(e0),
                0 < dt <= DT_LIMIT,
            decreases self.applied_elements@.len() - i,
        {
            proof {
                assert(e0.take(i as int + 1).drop_last() =~= e0.take(i as int));
                assert(e0.take(i as int + 1).last() == e0[i as int]);
            }
            let ae = self.applied_elements[i];
            let nd = ae.duration - dt;
            if nd > 0 {
                out.push(AppliedElement { element: ae.element, duration: nd });
            }
            i = i + 1;
        }
        proof {
            assert(e0.take(e0.len() as int) =~= e0);
        }
        self.applied_elements = out;
    }

    /// Fire at the defended point when in range of it: range is measured
    /// to the target's radius, and the shared cooldown is run down by `dt`
    /// only once the enemy is in range and unstunned.
    pub fn try_attack(&mut self, target_pos: &Point2D, target_radius: i64, dt: i64) -> (r: Option<
        Projectile,
    >)
        requires
            old(self).wf(),
            0 < dt <= DT_LIMIT,
            target_pos.in_bounds(),
            0 <= target_radius <= COORD_LIMIT,
        ensures
            final(self).wf(),
            old(self).stun_duration > 0 ==> r is None && *final(self) == *old(self),
            old(self).stun_duration <= 0 && old(self).position.spec_dist_sq(*target_pos) > (
            target_radius + old(self).attack_range) * (target_radius + old(self).attack_range)
                ==> r is None && *final(self) == *old(self),
            old(self).stun_duration <= 0 && old(self).position.spec_dist_sq(*target_pos) <= (
            target_radius + old(self).attack_range) * (target_radius + old(self).attack_range)
                ==> {
                &&& *final(self) == (Enemy {
                    attack_cooldown: final(self).attack_cooldown,
                    ..*old(self)
                })
                &&& if old(self).attack_cooldown - dt <= 0 {
                    &&& final(self).attack_cooldown == 1_000_000int / old(self).attack_speed as int
                    &&& match r {
                        Some(p) => {
                            &&& p.origin == old(self).position
                            &&& p.target_pos == *target_pos
                            &&& p.current_pos == old(self).position
                            &&& p.speed == 200_000
                            &&& p.element == TowerElement::Neutral
                            &&& p.source == ProjectileSource::Enemy(old(self).id)
                            &&& p.actions@.len() == 1
                            &&& p.actions@[0] == (ResolvedAction::ApplyDamage {
                                target: EffectTarget::Single,
                                damage: ResolvedDamage::Fixed(old(self).damage),
                            })
                            &&& p.lifetime == 3000
                            &&& p.target_enemy_id is None
                            &&& p.fade_timer is None
                            &&& p.size == 3000
                            &&& p.wf()
                        },
                        None => false,
                    }
                } else {
                    final(self).attack_cooldown == old(self).attack_cooldown - dt && r is None
                }
            },
    {
        if self.stun_duration > 0 {
            return None;
        }
        let reach = target_radius + self.attack_range;
        let d2 = self.position.dist_sq(target_pos);
        proof {
            crate::geom::lemma_square_bound(reach as int, 2 * COORD_LIMIT as int);
        }
        if d2 > reach * reach {
            return None;
        }
        self.attack_cooldown = self.attack_cooldown - dt;
        if self.attack_cooldown <= 0 {
            self.attack_cooldown = 1_000_000 / self.attack_speed;
            proof {
                crate::units::lemma_div_le(1_000_000, 1_000_000, self.attack_speed as int);
            }
            let mut actions: Vec<ResolvedAction> = Vec::new();
            actions.push(
                ResolvedAction::ApplyDamage {
                    target: EffectTarget::Single,
                    damage: ResolvedDamage::Fixed(self.damage),
                },
            );
            Some(
                Projectile {
                    origin: self.position,
                    target_pos: *target_pos,
                    current_pos: self.position,
                    speed: 200_000,
                    element: TowerElement::Neutral,
                    source: ProjectileSource::Enemy(self.id),
                    actions,
                    lifetime: 3000,
                    target_enemy_id: None,
                    fade_timer: None,
                    size: 3000,
                },
            )
        } else {
            None
        }
    }
}

} // verus!

