//! The fixed per-level transition odds and the set of levels at which a
//! failed attempt does not drop the level.
//!
//! Odds are held in per-mille: each level maps to a triple
//! `(success, fail, destroy)` of weights out of 1000. A uniform draw from
//! `{0, ..., 999}` then lands in the success band with probability
//! `success / 1000`, and so on, which renders the banded selection over the
//! unit interval exactly.

use vstd::prelude::*;

verus! {

/// The transition weights for a level, in per-mille: `(success, fail, destroy)`.
pub open spec fn rate_spec(level: int) -> (int, int, int) {
    if level == 0 {
        (950, 50, 0)
    } else if level == 1 {
        (900, 100, 0)
    } else if level == 2 {
        (850, 150, 0)
    } else if level == 3 {
        (850, 150, 0)
    } else if level == 4 {
        (800, 200, 0)
    } else if level == 5 {
        (750, 250, 0)
    } else if level == 6 {
        (700, 300, 0)
    } else if level == 7 {
        (650, 350, 0)
    } else if level == 8 {
        (600, 400, 0)
    } else if level == 9 {
        (550, 450, 0)
    } else if level == 10 {
        (500, 500, 0)
    } else if level == 11 {
        (450, 550, 0)
    } else if level == 12 {
        (400, 594, 6)
    } else if level == 13 {
        (350, 637, 13)
    } else if level == 14 {
        (300, 686, 14)
    } else if level == 15 {
        (300, 679, 21)
    } else if level == 16 {
        (300, 679, 21)
    } else if level == 17 {
        (300, 679, 21)
    } else if level == 18 {
        (300, 672, 28)
    } else if level == 19 {
        (300, 672, 28)
    } else if level == 20 {
        (300, 630, 70)
    } else if level == 21 {
        (300, 630, 70)
    } else if level == 22 {
        (30, 776, 194)
    } else if level == 23 {
        (20, 686, 294)
    } else {
        (10, 594, 396)
    }
}

/// The three weights of every level partition the full per-mille range:
/// they sum to 1000, success is always possible, and destruction cannot
/// happen below level 12.
pub proof fn lemma_rates_shape(level: int)
    requires
        0 <= level < 25,
    ensures
        rate_spec(level).0 + rate_spec(level).1 + rate_spec(level).2 == 1000,
        rate_spec(level).0 >= 10,
        level < 12 ==> rate_spec(level).2 == 0,
{
}

/// The transition weights for a level, in per-mille.
pub fn rates(level: usize) -> (r: (u32, u32, u32))
    requires
        level < 25,
    ensures
        r.0 == rate_spec(level as int).0,
        r.1 == rate_spec(level as int).1,
        r.2 == rate_spec(level as int).2,
{
    if level == 0 {
        (950, 50, 0)
    } else if level == 1 {
        (900, 100, 0)
    } else if level == 2 {
        (850, 150, 0)
    } else if level == 3 {
        (850, 150, 0)
    } else if level == 4 {
        (800, 200, 0)
    } else if level == 5 {
        (750, 250, 0)
    } else if level == 6 {
        (700, 300, 0)
    } else if level == 7 {
        (650, 350, 0)
    } else if level == 8 {
        (600, 400, 0)
    } else if level == 9 {
        (550, 450, 0)
    } else if level == 10 {
        (500, 500, 0)
    } else if level == 11 {
        (450, 550, 0)
    } else if level == 12 {
        (400, 594, 6)
    } else if level == 13 {
        (350, 637, 13)
    } else if level == 14 {
        (300, 686, 14)
    } else if level == 15 {
        (300, 679, 21)
    } else if level == 16 {
        (300, 679, 21)
    } else if level == 17 {
        (300, 679, 21)
    } else if level == 18 {
        (300, 672, 28)
    } else if level == 19 {
        (300, 672, 28)
    } else if level == 20 {
        (300, 630, 70)
    } else if level == 21 {
        (300, 630, 70)
    } else if level == 22 {
        (30, 776, 194)
    } else if level == 23 {
        (20, 686, 294)
    } else {
        (10, 594, 396)
    }
}

/// Whether a failed attempt at this level leaves the level unchanged.
pub open spec fn is_invalid_drop(level: int) -> bool {
    level <= 10 || level == 15 || level == 20
}

/// Whether a failed attempt at this level leaves the level unchanged.
pub fn invalid_drop(level: usize) -> (r: bool)
    ensures
        r == is_invalid_drop(level as int),
{
    level <= 10 || level == 15 || level == 20
}

} // verus!
