//! Target selection: priority-ordered candidate choice among enemies in
//! range, and the greedy next-hop choice for chaining effects.

use vstd::prelude::*;

use crate::defs::TargetPriority;
use crate::enemy::Enemy;
use crate::geom::{COORD_LIMIT, Point2D};

verus! {

/// Is enemy `e` within `range` of `pos` (squared comparison)?
pub open spec fn in_range(pos: Point2D, range: int, e: Enemy) -> bool {
    pos.spec_dist_sq(e.position) <= range * range
}

/// The selection key: lower is better for the given priority.
pub open spec fn target_key(priority: TargetPriority, pos: Point2D, e: Enemy) -> int {
    match priority {
        TargetPriority::Closest => pos.spec_dist_sq(e.position),
        TargetPriority::Farthest => -pos.spec_dist_sq(e.position),
        TargetPriority::HighestHp => -e.hp,
        TargetPriority::LowestHp => e.hp as int,
    }
}

/// Strict preference between candidate indices: the key decides, the
/// earlier index breaks ties.
pub open spec fn lex_better(
    priority: TargetPriority,
    pos: Point2D,
    enemies: Seq<Enemy>,
    i: int,
    j: int,
) -> bool {
    target_key(priority, pos, enemies[i]) < target_key(priority, pos, enemies[j]) || (target_key(
        priority,
        pos,
        enemies[i],
    ) == target_key(priority, pos, enemies[j]) && i < j)
}

pub open spec fn enemies_in_bounds(enemies: Seq<Enemy>) -> bool {
    forall|i: int| 0 <= i < enemies.len() ==> (#[trigger] enemies[i]).position.in_bounds()
}

fn key_of(priority: TargetPriority, pos: &Point2D, e: &Enemy) -> (r: i64)
    requires
        pos.in_bounds(),
        e.position.in_bounds(),
        -crate::units::HP_LIMIT <= e.hp <= crate::units::HP_LIMIT,
    ensures
        r == target_key(priority, *pos, *e),
{
    match priority {
        TargetPriority::Closest => pos.dist_sq(&e.position),
        TargetPriority::Farthest => -pos.dist_sq(&e.position),
        TargetPriority::HighestHp => -e.hp,
        TargetPriority::LowestHp => e.hp,
    }
}

pub open spec fn enemies_hp_ok(enemies: Seq<Enemy>) -> bool {
    forall|i: int|
        0 <= i < enemies.len() ==> -crate::units::HP_LIMIT <= (#[trigger] enemies[i]).hp
            <= crate::units::HP_LIMIT
}

/// The best target in range by the given priority, ties resolved in favor
/// of the first-encountered enemy; `None` exactly when nothing is in range.
pub fn find_target_in_range(
    pos: &Point2D,
    range: i64,
    enemies: &Vec<Enemy>,
    priority: TargetPriority,
) -> (r: Option<usize>)
    requires
        pos.in_bounds(),
        0 <= range <= COORD_LIMIT,
        enemies_in_bounds(enemies@),
        enemies_hp_ok(enemies@),
    ensures
        match r {
            Some(i) => {
                &&& i < enemies@.len()
                &&& in_range(*pos, range as int, enemies@[i as int])
                &&& forall|j: int|
                    0 <= j < enemies@.len() && in_range(*pos, range as int, #[trigger] enemies@[j])
                        ==> target_key(priority, *pos, enemies@[i as int]) <= target_key(
                        priority,
                        *pos,
                        enemies@[j],
                    )
                &&& forall|j: int|
                    0 <= j < i && in_range(*pos, range as int, #[trigger] enemies@[j])
                        ==> target_key(priority, *pos, enemies@[i as int]) < target_key(
                        priority,
                        *pos,
                        enemies@[j],
                    )
            },
            None => forall|j: int|
                0 <= j < enemies@.len() ==> !in_range(*pos, range as int, #[trigger] enemies@[j]),
        },
{
    proof {
        crate::geom::lemma_square_bound(range as int, COORD_LIMIT as int);
    }
    let range_sq: i64 = range * range;
    let mut best: Option<usize> = None;
    let mut best_key: i64 = 0;
    let mut j: usize = 0;
    while j < enemies.len()
        invariant
            pos.in_bounds(),
            0 <= range <= COORD_LIMIT,
            range_sq == range * range,
            enemies_in_bounds(enemies@),
            enemies_hp_ok(enemies@),
            0 <= j <= enemies@.len(),
            match best {
                Some(b) => {
                    &&& b < j
                    &&& in_range(*pos, range as int, enemies@[b as int])
                    &&& best_key == target_key(priority, *pos, enemies@[b as int])
                    &&& forall|x: int|
                        0 <= x < j && in_range(*pos, range as int, #[trigger] enemies@[x])
                            ==> best_key <= target_key(priority, *pos, enemies@[x])
                    &&& forall|x: int|
                        0 <= x < b && in_range(*pos, range as int, #[trigger] enemies@[x])
                            ==> best_key < target_key(priority, *pos, enemies@[x])
                },
                None => forall|x: int|
                    0 <= x < j ==> !in_range(*pos, range as int, #[trigger] enemies@[x]),
            },
        decreases enemies@.len() - j,
    {
        let e = &enemies[j];
        let d2 = pos.dist_sq(&e.position);
        if d2 <= range_sq {
            let k = key_of(priority, pos, e);
            match best {
                None => {
                    best = Some(j);
                    best_key = k;
                },
                Some(b) => {
                    if k < best_key {
                        best = Some(j);
                        best_key = k;
                    }
                },
            }
        }
        j = j + 1;
    }
    best
}

/// The nearest in-range target.
pub fn find_nearest_in_range(pos: &Point2D, range: i64, enemies: &Vec<Enemy>) -> (r: Option<usize>)
    requires
        pos.in_bounds(),
        0 <= range <= COORD_LIMIT,
        enemies_in_bounds(enemies@),
        enemies_hp_ok(enemies@),
    ensures
        match r {
            Some(i) => i < enemies@.len() && in_range(*pos, range as int, enemies@[i as int]),
            None => forall|j: int|
                0 <= j < enemies@.len() ==> !in_range(*pos, range as int, #[trigger] enemies@[j]),
        },
{
    find_target_in_range(pos, range, enemies, TargetPriority::Closest)
}

fn contains_index(v: &Vec<usize>, x: usize) -> (r: bool)
    ensures
        r == v@.contains(x),
{
    let mut i: usize = 0;
    while i < v.len()
        invariant
            0 <= i <= v@.len(),
            forall|j: int| 0 <= j < i ==> v@[j] != x,
        decreases v@.len() - i,
    {
        if v[i] == x {
            proof {
                assert(v@[i as int] == x);
            }
            return true;
        }
        i = i + 1;
    }
    proof {
        if v@.contains(x) {
            let j = choose|j: int| 0 <= j < v@.len() && v@[j] == x;
        }
    }
    false
}

/// Up to `n` in-range targets, best first under the priority with earlier
/// indices winning ties; either `n` targets come back or every in-range
/// enemy does.
pub fn find_n_targets_in_range(
    pos: &Point2D,
    range: i64,
    n: usize,
    enemies: &Vec<Enemy>,
    priority: TargetPriority,
) -> (r: Vec<usize>)
    requires
        pos.in_bounds(),
        0 <= range <= COORD_LIMIT,
        enemies_in_bounds(enemies@),
        enemies_hp_ok(enemies@),
    ensures
        r@.len() <= n,
        forall|a: int|
            0 <= a < r@.len() ==> #[trigger] r@[a] < enemies@.len() && in_range(
                *pos,
                range as int,
                enemies@[r@[a] as int],
            ),
        forall|a: int, b: int|
            0 <= a < b < r@.len() ==> lex_better(
                priority,
                *pos,
                enemies@,
                #[trigger] r@[a] as int,
                #[trigger] r@[b] as int,
            ),
        forall|a: int, j: int|
            0 <= a < r@.len() && 0 <= j < enemies@.len() && in_range(
                *pos,
                range as int,
                #[trigger] enemies@[j],
            ) && !r@.contains(j as usize) ==> lex_better(
                priority,
                *pos,
                enemies@,
                #[trigger] r@[a] as int,
                j,
            ),
        r@.len() == n || forall|j: int|
            0 <= j < enemies@.len() && in_range(*pos, range as int, #[trigger] enemies@[j])
                ==> r@.contains(j as usize),
{
    proof {
        crate::geom::lemma_square_bound(range as int, COORD_LIMIT as int);
    }
    let range_sq: i64 = range * range;
    let mut chosen: Vec<usize> = Vec::new();
    loop
        invariant
            pos.in_bounds(),
            0 <= range <= COORD_LIMIT,
            range_sq == range * range,
            enemies_in_bounds(enemies@),
            enemies_hp_ok(enemies@),
            chosen@.len() <= n,
            forall|a: int|
                0 <= a < chosen@.len() ==> #[trigger] chosen@[a] < enemies@.len() && in_range(
                    *pos,
                    range as int,
                    enemies@[chosen@[a] as int],
                ),
            forall|a: int, b: int|
                0 <= a < b < chosen@.len() ==> lex_better(
                    priority,
                    *pos,
                    enemies@,
                    #[trigger] chosen@[a] as int,
                    #[trigger] chosen@[b] as int,
                ),
            forall|a: int, j: int|
                0 <= a < chosen@.len() && 0 <= j < enemies@.len() && in_range(
                    *pos,
                    range as int,
                    #[trigger] enemies@[j],
                ) && !chosen@.contains(j as usize) ==> lex_better(
                    priority,
                    *pos,
                    enemies@,
                    #[trigger] chosen@[a] as int,
                    j,
                ),
        ensures
            chosen@.len() == n || forall|j: int|
                0 <= j < enemies@.len() && in_range(*pos, range as int, #[trigger] enemies@[j])
                    ==> chosen@.contains(j as usize),
        decreases n - chosen@.len(),
    {
        if chosen.len() >= n {
            break ;
        }
        // Lex-smallest in-range candidate not yet chosen.
        let mut best: Option<usize> = None;
        let mut best_key: i64 = 0;
        let mut j: usize = 0;
        while j < enemies.len()
            invariant
                pos.in_bounds(),
                0 <= range <= COORD_LIMIT,
                range_sq == range * range,
                enemies_in_bounds(enemies@),
                enemies_hp_ok(enemies@),
                0 <= j <= enemies@.len(),
                match best {
                    Some(b) => {
                        &&& b < j
                        &&& in_range(*pos, range as int, enemies@[b as int])
                        &&& !chosen@.contains(b)
                        &&& best_key == target_key(priority, *pos, enemies@[b as int])
                        &&& forall|x: int|
                            0 <= x < j && in_range(*pos, range as int, #[trigger] enemies@[x])
                                && !chosen@.contains(x as usize) && x != b ==> lex_better(
                                priority,
                                *pos,
                                enemies@,
                                b as int,
                                x,
                            )
                    },
                    None => forall|x: int|
                        0 <= x < j ==> !in_range(*pos, range as int, #[trigger] enemies@[x])
                            || chosen@.contains(x as usize),
                },
            decreases enemies@.len() - j,
        {
            let e = &enemies[j];
            let d2 = pos.dist_sq(&e.position);
            if d2 <= range_sq && !contains_index(&chosen, j) {
                let k = key_of(priority, pos, e);
                match best {
                    None => {
                        best = Some(j);
                        best_key = k;
                    },
                    Some(b) => {
                        if k < best_key {
                            best = Some(j);
                            best_key = k;
                        }
                    },
                }
            }
            j = j + 1;
        }
        match best {
            Some(b) => {
                // Every already-chosen index beats b (the selection
                // invariant applied to b while it was unchosen), and b
                // beats everything still unchosen (the inner scan).
                let ghost prev = chosen@;
                chosen.push(b);
                proof {
                    assert(chosen@ == prev.push(b));
                    assert forall|a: int, bb: int| 0 <= a < bb < chosen@.len() implies lex_better(
                        priority,
                        *pos,
                        enemies@,
                        #[trigger] chosen@[a] as int,
                        #[trigger] chosen@[bb] as int,
                    ) by {
                        if bb == chosen@.len() - 1 {
                            assert(chosen@[a] == prev[a]);
                            assert(chosen@[bb] == b);
                        } else {
                            assert(chosen@[a] == prev[a]);
                            assert(chosen@[bb] == prev[bb]);
                        }
                    }
                    assert forall|a: int, j2: int|
                        0 <= a < chosen@.len() && 0 <= j2 < enemies@.len() && in_range(
                            *pos,
                            range as int,
                            #[trigger] enemies@[j2],
                        ) && !chosen@.contains(j2 as usize) implies lex_better(
                        priority,
                        *pos,
                        enemies@,
                        #[trigger] chosen@[a] as int,
                        j2,
                    ) by {
                        assert(!prev.contains(j2 as usize)) by {
                            if prev.contains(j2 as usize) {
                                let x = choose|x: int|
                                    0 <= x < prev.len() && prev[x] == j2 as usize;
                                assert(chosen@[x] == j2 as usize);
                            }
                        }
                        assert(j2 != b) by {
                            if j2 == b {
                                assert(chosen@[chosen@.len() - 1] == b);
                            }
                        }
                        if a == chosen@.len() - 1 {
                            assert(chosen@[a] == b);
                        } else {
                            assert(chosen@[a] == prev[a]);
                        }
                    }
                }
            },
            None => {
                proof {
                    assert forall|x: int|
                        0 <= x < enemies@.len() && in_range(
                            *pos,
                            range as int,
                            #[trigger] enemies@[x],
                        ) implies chosen@.contains(x as usize) by {}
                }
                break ;
            },
        }
    }
    chosen
}

/// The nearest up-to-`n` in-range targets.
pub fn find_n_nearest_in_range(pos: &Point2D, range: i64, n: usize, enemies: &Vec<Enemy>) -> (r:
    Vec<usize>)
    requires
        pos.in_bounds(),
        0 <= range <= COORD_LIMIT,
        enemies_in_bounds(enemies@),
        enemies_hp_ok(enemies@),
    ensures
        r@.len() <= n,
        forall|a: int|
            0 <= a < r@.len() ==> #[trigger] r@[a] < enemies@.len() && in_range(
                *pos,
                range as int,
                enemies@[r@[a] as int],
            ),
{
    find_n_targets_in_range(pos, range, n, enemies, TargetPriority::Closest)
}

/// The nearest living enemy within `range` of `pos` that is not already
/// among `hit`: the next hop of a chain.
pub fn find_chain_next(
    pos: &Point2D,
    range: i64,
    enemies: &Vec<Enemy>,
    hit: &Vec<usize>,
) -> (r: Option<usize>)
    requires
        pos.in_bounds(),
        0 <= range <= COORD_LIMIT,
        enemies_in_bounds(enemies@),
    ensures
        match r {
            Some(i) => {
                &&& i < enemies@.len()
                &&& !hit@.contains(i)
                &&& enemies@[i as int].hp > 0
                &&& in_range(*pos, range as int, enemies@[i as int])
                &&& forall|x: int|
                    0 <= x < enemies@.len() && !hit@.contains(x as usize) && (
                    #[trigger] enemies@[x]).hp > 0 && in_range(*pos, range as int, enemies@[x])
                        ==> pos.spec_dist_sq(enemies@[i as int].position) <= pos.spec_dist_sq(
                        enemies@[x].position,
                    )
            },
            None => forall|x: int|
                0 <= x < enemies@.len() ==> hit@.contains(x as usize) || (
                #[trigger] enemies@[x]).hp <= 0 || !in_range(*pos, range as int, enemies@[x]),
        },
{
    proof {
        crate::geom::lemma_square_bound(range as int, COORD_LIMIT as int);
    }
    let range_sq: i64 = range * range;
    let mut best: Option<usize> = None;
    let mut best_d2: i64 = 0;
    let mut j: usize = 0;
    while j < enemies.len()
        invariant
            pos.in_bounds(),
            0 <= range <= COORD_LIMIT,
            range_sq == range * range,
            enemies_in_bounds(enemies@),
            0 <= j <= enemies@.len(),
            match best {
                Some(b) => {
                    &&& b < j
                    &&& !hit@.contains(b)
                    &&& enemies@[b as int].hp > 0
                    &&& in_range(*pos, range as int, enemies@[b as int])
                    &&& best_d2 == pos.spec_dist_sq(enemies@[b as int].position)
                    &&& forall|x: int|
                        0 <= x < j && !hit@.contains(x as usize) && (#[trigger] enemies@[x]).hp > 0
                            && in_range(*pos, range as int, enemies@[x]) ==> best_d2
                            <= pos.spec_dist_sq(enemies@[x].position)
                },
                None => forall|x: int|
                    0 <= x < j ==> hit@.contains(x as usize) || (#[trigger] enemies@[x]).hp <= 0
                        || !in_range(*pos, range as int, enemies@[x]),
            },
        decreases enemies@.len() - j,
    {
        let e = &enemies[j];
        if !contains_index(hit, j) && e.hp > 0 {
            let d = pos.dist_sq(&e.position);
            if d <= range_sq {
                match best {
                    None => {
                        best = Some(j);
                        best_d2 = d;
                    },
                    Some(_) => {
                        if d < best_d2 {
                            best = Some(j);
                            best_d2 = d;
                        }
                    },
                }
            }
        }
        j = j + 1;
    }
    best
}

} // verus!
