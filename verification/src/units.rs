//! Fixed-point scales, the bounds every stored quantity respects, and the
//! clamped arithmetic the simulation uses at those bounds.

use vstd::prelude::*;

verus! {

/// Longest time step one tick may advance, in milliseconds.
pub const DT_LIMIT: i64 = 10_000;

/// Bound on durations, timers and cooldowns, in milliseconds.
pub const DURATION_LIMIT: i64 = 1_000_000_000;

/// Bound on resolved numeric fields: damage, damage per second, strengths.
pub const AMOUNT_LIMIT: i64 = 1_000_000_000_000;

/// Bound on percentages, in milli-percent (1_000_000 is 1000%).
pub const PERCENT_LIMIT: i64 = 1_000_000;

/// Bound on movement and projectile speeds, in milli-units per second.
pub const SPEED_LIMIT: i64 = 10_000_000;

/// Bound on attack rates, in milli-attacks per second.
pub const RATE_LIMIT: i64 = 1_000_000;

/// Bound on an enemy's full health pool.
pub const MAX_HP_LIMIT: i64 = 5_000_000_000_000;

/// Health itself may fall below zero on a killing blow; it is kept within
/// this symmetric range.
pub const HP_LIMIT: i64 = 10_000_000_000_000_000;

/// Bound on a single damage application after all multipliers.
pub const DAMAGE_LIMIT: i64 = 1_000_000_000_000_000;

/// Bound on target counts and chain hops.
pub const COUNT_LIMIT: u32 = 10_000;

pub open spec fn spec_hp_sub(hp: int, dmg: int) -> int {
    if hp - dmg < -HP_LIMIT {
        -HP_LIMIT as int
    } else {
        hp - dmg
    }
}

/// Take `dmg` health away, clamped at the representable floor.
pub fn hp_sub(hp: i64, dmg: i64) -> (r: i64)
    requires
        -HP_LIMIT <= hp <= HP_LIMIT,
        0 <= dmg <= 4 * DAMAGE_LIMIT,
    ensures
        r == spec_hp_sub(hp as int, dmg as int),
        -HP_LIMIT <= r <= hp,
{
    let v = hp - dmg;
    if v < -HP_LIMIT {
        -HP_LIMIT
    } else {
        v
    }
}

pub open spec fn spec_u32_add(a: int, b: int) -> int {
    if a + b > u32::MAX {
        u32::MAX as int
    } else {
        a + b
    }
}

/// Saturating add for currencies and scores.
pub fn u32_add(a: u32, b: u32) -> (r: u32)
    ensures
        r == spec_u32_add(a as int, b as int),
{
    match a.checked_add(b) {
        Some(v) => v,
        None => u32::MAX,
    }
}

/// Dividing by a positive divisor keeps order on non-negatives.
pub proof fn lemma_div_le(a: int, b: int, d: int)
    requires
        0 <= a <= b,
        0 < d,
    ensures
        0 <= a / d <= b / d,
{
    assert(0 <= a / d <= b / d) by (nonlinear_arith)
        requires
            0 <= a <= b,
            0 < d,
    ;
}

/// Exact `a * b / d` on non-negatives, computed through a wider type.
pub fn mul_div(a: i64, b: i64, d: i64) -> (r: i64)
    requires
        0 <= a,
        0 <= b,
        0 < d,
        a as int * b as int / d as int <= i64::MAX,
    ensures
        r == a as int * b as int / d as int,
{
    proof {
        lemma_div_le(0, a as int * b as int, d as int);
        let prod: int = a as int * b as int;
        assert(0 <= prod && prod <= (i64::MAX as int) * (i64::MAX as int)) by (nonlinear_arith)
            requires
                0 <= a <= i64::MAX,
                0 <= b <= i64::MAX,
                prod == a as int * b as int,
        ;
        assert((i64::MAX as int) * (i64::MAX as int) < (i128::MAX as int)) by (nonlinear_arith);
    }
    ((a as i128) * (b as i128) / (d as i128)) as i64
}

pub open spec fn spec_max_i64(a: int, b: int) -> int {
    if a >= b {
        a
    } else {
        b
    }
}

pub open spec fn spec_min_i64(a: int, b: int) -> int {
    if a <= b {
        a
    } else {
        b
    }
}

pub fn max_i64(a: i64, b: i64) -> (r: i64)
    ensures
        r == spec_max_i64(a as int, b as int),
{
    if a >= b {
        a
    } else {
        b
    }
}

pub fn min_i64(a: i64, b: i64) -> (r: i64)
    ensures
        r == spec_min_i64(a as int, b as int),
{
    if a <= b {
        a
    } else {
        b
    }
}

} // verus!
