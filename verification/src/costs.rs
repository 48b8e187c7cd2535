//! The per-attempt cost table: one cost for each enhancement level 0..=24,
//! derived from the item's base level.
//!
//! Levels 0..=9 use a closed integer formula, stated and proved here. The
//! costs of levels 10..=24 come from formulas with fractional powers, which
//! this verified core does not evaluate; a caller computes those fifteen cost
//! bases and hands them in as plain integers, and the table construction is
//! proved to place and scale them exactly.

use vstd::prelude::*;

verus! {

/// The largest base level the cost formulas accept: keeps every intermediate
/// product of the level-band formula inside the machine integers.
pub const MAX_BASE_LEVEL: u64 = 100_000;

/// The largest cost base a caller may hand in for levels 10..=24: keeps the
/// scaled cost inside `MAX_TABLE_COST`.
pub const MAX_RAW_COST: i64 = 1_000_000_000_000_000;

/// An upper bound on every entry of a well-formed cost table.
pub const MAX_TABLE_COST: i64 = 100_000_000_000_000_000;

/// The cost of one attempt at level `star` (for `star` in 0..=9): one hundred
/// times the truncating quotient of `base^3 * (star + 1)` by 2500, plus ten.
pub open spec fn band_a_cost(base: int, star: int) -> int {
    100 * (base * base * base * (star + 1) / 2500 + 10)
}

/// The cost of one attempt at levels 0..=9.
pub fn cost_band_a(base: u64, star: usize) -> (c: i64)
    requires
        base <= MAX_BASE_LEVEL,
        star < 10,
    ensures
        c == band_a_cost(base as int, star as int),
        0 <= c <= MAX_TABLE_COST,
{
    proof {
        assert((base as int) * (base as int) <= 10_000_000_000) by (nonlinear_arith)
            requires
                base <= 100_000,
        ;
        assert((base as int) * (base as int) * (base as int) <= 1_000_000_000_000_000)
            by (nonlinear_arith)
            requires
                base <= 100_000,
        ;
        assert((base as int) * (base as int) * (base as int) >= 0) by (nonlinear_arith);
        assert(forall|b: int, s: int|
            0 <= b <= 1_000_000_000_000_000 && 0 <= s < 10 ==> 0 <= #[trigger] (b * (s + 1))
                <= 10_000_000_000_000_000) by (nonlinear_arith);
    }
    let b3: u64 = base * base * base;
    let prod: u64 = b3 * (star as u64 + 1);
    proof {
        vstd::arithmetic::div_mod::lemma_div_is_ordered(
            prod as int,
            10_000_000_000_000_000,
            2500,
        );
    }
    let quot: u64 = prod / 2500 + 10;
    (100 * quot) as i64
}

/// Within levels 0..=9 the cost never falls as the level rises.
pub proof fn lemma_band_a_monotone(base: int, s1: int, s2: int)
    requires
        0 <= base,
        0 <= s1 <= s2 < 10,
    ensures
        band_a_cost(base, s1) <= band_a_cost(base, s2),
{
    assert(base * base * base >= 0) by (nonlinear_arith)
        requires
            base >= 0,
    ;
    assert(forall|b: int, x: int, y: int|
        0 <= b && x <= y ==> #[trigger] (b * x) <= #[trigger] (b * y)) by (nonlinear_arith);
    assert(base * base * base * (s1 + 1) <= base * base * base * (s2 + 1));
    vstd::arithmetic::div_mod::lemma_div_is_ordered(
        base * base * base * (s1 + 1),
        base * base * base * (s2 + 1),
        2500,
    );
}

/// The cost of one attempt at each enhancement level, indexed by level.
pub struct CostTable {
    costs: Vec<i64>,
}

impl View for CostTable {
    type V = Seq<i64>;

    closed spec fn view(&self) -> Seq<i64> {
        self.costs@
    }
}

impl CostTable {
    /// A well-formed table has one cost per level and every cost within
    /// `[0, MAX_TABLE_COST]`.
    pub open spec fn wf(&self) -> bool {
        &&& self@.len() == 25
        &&& forall|i: int| 0 <= i < 25 ==> 0 <= #[trigger] self@[i] <= MAX_TABLE_COST
    }

    /// The cost of one attempt at the given level.
    pub fn cost_at(&self, level: usize) -> (c: i64)
        requires
            self.wf(),
            level < 25,
        ensures
            c == self@[level as int],
    {
        self.costs[level]
    }
}

/// Builds the cost table for an item of the given base level. `upper_bases`
/// holds the caller-computed cost bases for levels 10..=24 in level order;
/// entry `i` becomes the cost of level `10 + i`, scaled by one hundred.
pub fn build_cost_table(base_level: u64, upper_bases: &Vec<i64>) -> (t: CostTable)
    requires
        base_level <= MAX_BASE_LEVEL,
        upper_bases@.len() == 15,
        forall|i: int| 0 <= i < 15 ==> 0 <= #[trigger] upper_bases@[i] <= MAX_RAW_COST,
    ensures
        t.wf(),
        forall|s: int| 0 <= s < 10 ==> t@[s] == band_a_cost(base_level as int, s),
        forall|s: int| 10 <= s < 25 ==> t@[s] == 100 * upper_bases@[s - 10],
{
    let mut costs: Vec<i64> = Vec::new();
    let mut star: usize = 0;
    while star < 10
        invariant
            star <= 10,
            base_level <= MAX_BASE_LEVEL,
            costs@.len() == star,
            forall|s: int|
                0 <= s < star ==> #[trigger] costs@[s] == band_a_cost(base_level as int, s) && 0
                    <= costs@[s] <= MAX_TABLE_COST,
        decreases 10 - star,
    {
        let c: i64 = cost_band_a(base_level, star);
        costs.push(c);
        star = star + 1;
    }
    let mut idx: usize = 0;
    while idx < 15
        invariant
            idx <= 15,
            base_level <= MAX_BASE_LEVEL,
            upper_bases@.len() == 15,
            forall|i: int| 0 <= i < 15 ==> 0 <= #[trigger] upper_bases@[i] <= MAX_RAW_COST,
            costs@.len() == 10 + idx,
            forall|s: int|
                0 <= s < 10 ==> #[trigger] costs@[s] == band_a_cost(base_level as int, s) && 0
                    <= costs@[s] <= MAX_TABLE_COST,
            forall|s: int|
                10 <= s < 10 + idx ==> #[trigger] costs@[s] == 100 * upper_bases@[s - 10] && 0
                    <= costs@[s] <= MAX_TABLE_COST,
        decreases 15 - idx,
    {
        let c: i64 = 100 * upper_bases[idx];
        costs.push(c);
        idx = idx + 1;
    }
    CostTable { costs }
}

/// The sum of the costs of levels `lo` (inclusive) up to `hi` (exclusive).
pub open spec fn cost_sum(costs: Seq<i64>, lo: int, hi: int) -> int
    decreases hi - lo,
{
    if lo >= hi {
        0
    } else {
        cost_sum(costs, lo, hi - 1) + costs[hi - 1]
    }
}

/// Over a well-formed table the cost sum of any level range is non-negative
/// and at most twenty-five times the largest entry.
pub proof fn lemma_cost_sum_bounds(costs: Seq<i64>, lo: int, hi: int)
    requires
        costs.len() == 25,
        0 <= lo,
        hi <= 25,
        forall|i: int| 0 <= i < 25 ==> 0 <= #[trigger] costs[i] <= MAX_TABLE_COST,
    ensures
        0 <= cost_sum(costs, lo, hi) <= 25 * MAX_TABLE_COST,
    decreases hi - lo,
{
    if lo < hi {
        lemma_cost_sum_bounds(costs, lo, hi - 1);
        assert(cost_sum(costs, lo, hi - 1) <= 24 * MAX_TABLE_COST) by {
            lemma_cost_sum_width(costs, lo, hi - 1);
        }
    }
}

/// The cost sum of a range is at most the range's width times the largest
/// entry.
pub proof fn lemma_cost_sum_width(costs: Seq<i64>, lo: int, hi: int)
    requires
        costs.len() == 25,
        0 <= lo,
        hi <= 25,
        forall|i: int| 0 <= i < 25 ==> 0 <= #[trigger] costs[i] <= MAX_TABLE_COST,
    ensures
        lo < hi ==> cost_sum(costs, lo, hi) <= (hi - lo) * MAX_TABLE_COST,
        lo >= hi ==> cost_sum(costs, lo, hi) == 0,
    decreases hi - lo,
{
    if lo < hi {
        lemma_cost_sum_width(costs, lo, hi - 1);
    }
}

/// Extending a level range upward never lowers its cost sum.
pub proof fn lemma_cost_sum_mono(costs: Seq<i64>, lo: int, h1: int, h2: int)
    requires
        costs.len() == 25,
        0 <= lo,
        h1 <= h2 <= 25,
        forall|i: int| 0 <= i < 25 ==> 0 <= #[trigger] costs[i] <= MAX_TABLE_COST,
    ensures
        cost_sum(costs, lo, h1) <= cost_sum(costs, lo, h2),
    decreases h2 - h1,
{
    if h1 < h2 {
        lemma_cost_sum_mono(costs, lo, h1, h2 - 1);
    }
}

/// Within levels 10..=24, a table built from cost bases that never fall keeps
/// costs that never fall: the construction preserves the order of what the
/// caller computed.
pub proof fn lemma_upper_band_monotone(t: CostTable, upper_bases: Seq<i64>, s1: int, s2: int)
    requires
        upper_bases.len() == 15,
        forall|s: int| 10 <= s < 25 ==> #[trigger] t@[s] == 100 * upper_bases[s - 10],
        10 <= s1 <= s2 < 25,
        upper_bases[s1 - 10] <= upper_bases[s2 - 10],
    ensures
        t@[s1] <= t@[s2],
{
}

} // verus!
