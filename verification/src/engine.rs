//! The single-run engine: the stochastic state machine that attempts to raise
//! an item from a start level to a target level.
//!
//! Every attempt charges the current level's cost and counts one tap, then a
//! per-mille roll picks the outcome: success raises the level, failure lowers
//! it unless the level is in the protected set, destruction sends the item
//! back to level 12 and counts one boom. Two streak-raising outcomes in a row
//! put the next attempt under the pity rule: its roll is forced to zero,
//! which always succeeds.
//!
//! The exact effect of one attempt is the spec function [`step_spec`], and
//! the executable [`step`] is proved equal to it. [`simulate_one`] iterates
//! attempts until the target level is reached; since the walk is random, its
//! contract does not pin one result but bounds every possible one and proves
//! it reachable: some roll sequence drives the step machine from the start
//! state to exactly the target with those counters.

use vstd::prelude::*;

use rand::Rng;

use crate::costs::cost_sum;
use crate::costs::lemma_cost_sum_bounds;
use crate::costs::lemma_cost_sum_mono;
use crate::costs::CostTable;
use crate::costs::MAX_TABLE_COST;
use crate::rates::invalid_drop;
use crate::rates::is_invalid_drop;
use crate::rates::lemma_rates_shape;
use crate::rates::rate_spec;
use crate::rates::rates;

verus! {

/// What a single attempt did to the item.
#[derive(Clone, Copy, Debug, PartialEq, Eq, Structural)]
pub enum Outcome {
    Success,
    Fail,
    Destroy,
}

/// Why a simulation entry point refused or gave up.
#[derive(Clone, Copy, Debug, PartialEq, Eq, Structural)]
pub enum SimError {
    /// The start and target levels do not satisfy `0 <= start < end <= 24`.
    InvalidRange,
    /// The attempt counter reached its machine bound before the target level;
    /// unreachable in practice with a fair source of randomness.
    AttemptLimit,
}

/// The terminal snapshot of one run: total cost, attempts taken, and how
/// often the item was destroyed on the way.
#[derive(Clone, Copy, Debug, PartialEq, Eq, Structural)]
pub struct RunResult {
    pub cost: i64,
    pub taps: i64,
    pub booms: i64,
}

/// The running state of one simulation, owned by exactly one run.
#[derive(Clone, Copy, Debug, PartialEq, Eq, Structural)]
pub struct RunState {
    /// The item's current enhancement level.
    pub level: usize,
    /// Attempts made so far.
    pub taps: i64,
    /// Destructions suffered so far.
    pub booms: i64,
    /// Currency spent so far.
    pub cost: i64,
    /// Streak-raising outcomes since the last destruction (or run start),
    /// stopped at 3: every value past the pity threshold acts alike.
    pub streak: u8,
}

/// A state the engine can work on: a real level, non-negative counters, and
/// a streak within its stopped range.
pub open spec fn state_wf(s: RunState) -> bool {
    &&& s.level < 25
    &&& 0 <= s.taps
    &&& 0 <= s.booms
    &&& 0 <= s.cost
    &&& s.streak <= 3
}

/// Addition of non-negative counters that stops at the machine bound instead
/// of overflowing.
pub open spec fn sat_add(a: i64, b: i64) -> i64 {
    if a + b > i64::MAX {
        i64::MAX
    } else {
        (a + b) as i64
    }
}

/// One streak-raising outcome: the counter stops at 3, one past the pity
/// threshold, since every value above the threshold acts alike.
pub open spec fn bump_streak(streak: u8) -> u8 {
    if streak < 3 {
        (streak + 1) as u8
    } else {
        streak
    }
}

/// The roll an attempt is judged by: a streak at the pity threshold forces
/// the draw to zero.
pub open spec fn effective_roll(streak: u8, raw_roll: u32) -> u32 {
    if streak == 2 {
        0
    } else {
        raw_roll
    }
}

/// Which outcome a per-mille roll lands on at a level: the range below 1000
/// is split into a success band, then a fail band, then a destroy band.
pub open spec fn outcome_of(level: int, roll: u32) -> Outcome {
    if roll < rate_spec(level).0 {
        Outcome::Success
    } else if roll < rate_spec(level).0 + rate_spec(level).1 {
        Outcome::Fail
    } else {
        Outcome::Destroy
    }
}

/// The exact effect of one attempt on the running state: one tap and the
/// current level's cost are always charged, then the outcome of the
/// effective roll moves the level and the streak.
pub open spec fn step_spec(s: RunState, costs: Seq<i64>, raw_roll: u32) -> RunState {
    let roll = effective_roll(s.streak, raw_roll);
    let taps = sat_add(s.taps, 1);
    let cost = sat_add(s.cost, costs[s.level as int]);
    match outcome_of(s.level as int, roll) {
        Outcome::Success => RunState {
            level: (s.level + 1) as usize,
            taps,
            booms: s.booms,
            cost,
            streak: bump_streak(s.streak),
        },
        Outcome::Fail => if is_invalid_drop(s.level as int) {
            RunState { level: s.level, taps, booms: s.booms, cost, streak: s.streak }
        } else {
            RunState {
                level: (s.level - 1) as usize,
                taps,
                booms: s.booms,
                cost,
                streak: bump_streak(s.streak),
            }
        },
        Outcome::Destroy => RunState {
            level: 12,
            taps,
            booms: sat_add(s.booms, 1),
            cost,
            streak: 0,
        },
    }
}

/// Pity law: with the streak at the threshold, the next attempt succeeds no
/// matter what was rolled — the effective roll is zero, and zero lies in the
/// success band of every level.
pub proof fn lemma_pity_forces_success(s: RunState, costs: Seq<i64>, raw_roll: u32)
    requires
        state_wf(s),
        s.streak == 2,
    ensures
        outcome_of(s.level as int, effective_roll(s.streak, raw_roll)) == Outcome::Success,
        step_spec(s, costs, raw_roll).level == s.level + 1,
        step_spec(s, costs, raw_roll).booms == s.booms,
{
    lemma_rates_shape(s.level as int);
}

/// Invalid-drop law: at a protected level, a failure outcome moves neither
/// the level nor the streak; only the tap count and the cost advance.
pub proof fn lemma_invalid_drop_shields(s: RunState, costs: Seq<i64>, raw_roll: u32)
    requires
        state_wf(s),
        is_invalid_drop(s.level as int),
        outcome_of(s.level as int, effective_roll(s.streak, raw_roll)) == Outcome::Fail,
    ensures
        step_spec(s, costs, raw_roll).level == s.level,
        step_spec(s, costs, raw_roll).streak == s.streak,
        step_spec(s, costs, raw_roll).booms == s.booms,
        step_spec(s, costs, raw_roll).taps == sat_add(s.taps, 1),
        step_spec(s, costs, raw_roll).cost == sat_add(s.cost, costs[s.level as int]),
{
}

/// How the streak moves, outcome by outcome: a destruction resets it, a
/// failure at a protected level freezes it, and every other outcome raises
/// it by one until it stops one past the pity threshold. In particular two
/// streak-raising outcomes after a fresh start (or a destruction) put the
/// next attempt under the pity rule.
pub proof fn lemma_streak_counts(s: RunState, costs: Seq<i64>, raw_roll: u32)
    requires
        state_wf(s),
    ensures
        outcome_of(s.level as int, effective_roll(s.streak, raw_roll)) == Outcome::Destroy
            ==> step_spec(s, costs, raw_roll).streak == 0,
        outcome_of(s.level as int, effective_roll(s.streak, raw_roll)) == Outcome::Fail
            && is_invalid_drop(s.level as int) ==> step_spec(s, costs, raw_roll).streak
            == s.streak,
        outcome_of(s.level as int, effective_roll(s.streak, raw_roll)) == Outcome::Success
            || (outcome_of(s.level as int, effective_roll(s.streak, raw_roll)) == Outcome::Fail
            && !is_invalid_drop(s.level as int)) ==> step_spec(s, costs, raw_roll).streak
            == bump_streak(s.streak),
        s.streak < 3 ==> bump_streak(s.streak) == s.streak + 1,
        bump_streak(3) == 3,
{
}

/// What every attempt does, whatever is rolled: the counters advance by
/// exactly one step, the level climbs by at most one, and destruction can
/// only strike at level 12 or above (and sends the item to 12).
pub proof fn lemma_step_bounds(s: RunState, costs: Seq<i64>, raw_roll: u32)
    requires
        state_wf(s),
        raw_roll < 1000,
    ensures
        step_spec(s, costs, raw_roll).taps == sat_add(s.taps, 1),
        step_spec(s, costs, raw_roll).cost == sat_add(s.cost, costs[s.level as int]),
        step_spec(s, costs, raw_roll).booms >= s.booms,
        step_spec(s, costs, raw_roll).level <= s.level + 1,
        step_spec(s, costs, raw_roll).streak <= 3,
        outcome_of(s.level as int, effective_roll(s.streak, raw_roll)) == Outcome::Destroy
            ==> s.level >= 12 && step_spec(s, costs, raw_roll).level == 12,
        outcome_of(s.level as int, effective_roll(s.streak, raw_roll)) == Outcome::Fail
            && !is_invalid_drop(s.level as int) ==> s.level >= 11,
{
    lemma_rates_shape(s.level as int);
}

/// Performs one attempt in place: draws nothing itself, so a caller hands it
/// the raw per-mille roll, and the new state is exactly `step_spec` of the
/// old.
pub fn step(state: &mut RunState, table: &CostTable, raw_roll: u32)
    requires
        state_wf(*old(state)),
        table.wf(),
        raw_roll < 1000,
    ensures
        *final(state) == step_spec(*old(state), table@, raw_roll),
{
    proof {
        lemma_rates_shape(old(state).level as int);
    }
    let (suc, fail, _boom) = rates(state.level);
    let roll: u32 = if state.streak == 2 {
        0
    } else {
        raw_roll
    };
    state.taps = add_sat(state.taps, 1);
    let charge: i64 = table.cost_at(state.level);
    state.cost = add_sat(state.cost, charge);
    if roll < suc {
        state.level = state.level + 1;
        state.streak = if state.streak < 3 {
            state.streak + 1
        } else {
            state.streak
        };
    } else if roll < suc + fail {
        if !invalid_drop(state.level) {
            state.level = state.level - 1;
            state.streak = if state.streak < 3 {
                state.streak + 1
            } else {
                state.streak
            };
        }
    } else {
        state.booms = add_sat(state.booms, 1);
        state.level = 12;
        state.streak = 0;
    }
}

/// Addition of non-negative counters that stops at the machine bound.
fn add_sat(a: i64, b: i64) -> (r: i64)
    requires
        a >= 0,
        b >= 0,
    ensures
        r == sat_add(a, b),
{
    match a.checked_add(b) {
        Some(v) => v,
        None => i64::MAX,
    }
}

/// A start and target the engine accepts: both real levels, strictly rising.
pub open spec fn valid_range(start: int, end: int) -> bool {
    0 <= start < end <= 24
}

/// The state a run begins in: the start level, everything else at zero.
pub open spec fn start_state(level: int) -> RunState {
    RunState { level: level as usize, taps: 0, booms: 0, cost: 0, streak: 0 }
}

/// The state after driving `s0` through one attempt per roll, in order.
pub open spec fn run_from(s0: RunState, costs: Seq<i64>, rolls: Seq<u32>) -> RunState
    decreases rolls.len(),
{
    if rolls.len() == 0 {
        s0
    } else {
        run_from(step_spec(s0, costs, rolls.first()), costs, rolls.drop_first())
    }
}

/// Driving a run one roll further is one more step.
pub proof fn lemma_run_from_snoc(s0: RunState, costs: Seq<i64>, rolls: Seq<u32>, roll: u32)
    ensures
        run_from(s0, costs, rolls.push(roll)) == step_spec(run_from(s0, costs, rolls), costs, roll),
    decreases rolls.len(),
{
    if rolls.len() == 0 {
        assert(rolls.push(roll).first() == roll);
        assert(rolls.push(roll).drop_first() =~= Seq::<u32>::empty());
        assert(run_from(s0, costs, rolls.push(roll)) == run_from(
            step_spec(s0, costs, roll),
            costs,
            Seq::<u32>::empty(),
        ));
    } else {
        assert(rolls.push(roll).first() == rolls.first());
        assert(rolls.push(roll).drop_first() =~= rolls.drop_first().push(roll));
        lemma_run_from_snoc(step_spec(s0, costs, rolls.first()), costs, rolls.drop_first(), roll);
    }
}

/// A result the state machine can actually produce: some sequence of
/// per-mille rolls drives a fresh run at `start` to exactly `end` with these
/// counters.
pub open spec fn reachable_result(res: RunResult, start: int, end: int, costs: Seq<i64>) -> bool {
    exists|rolls: Seq<u32>|
        {
            let fin = #[trigger] run_from(start_state(start), costs, rolls);
            &&& forall|i: int| 0 <= i < rolls.len() ==> #[trigger] rolls[i] < 1000
            &&& fin.level == end
            &&& res == (RunResult { cost: fin.cost, taps: fin.taps, booms: fin.booms })
        }
}

/// What holds of every run the engine can return: at least one attempt per
/// level gained, at least the cost of one pass over the levels from `start`
/// to `end`, and non-negative counters.
pub open spec fn result_bounds(res: RunResult, start: int, end: int, costs: Seq<i64>) -> bool {
    &&& res.taps >= end - start
    &&& res.taps >= 1
    &&& res.cost >= cost_sum(costs, start, end)
    &&& res.cost >= 0
    &&& res.booms >= 0
}

/// Relies on rand's `Rng::gen_range` on `rand::thread_rng()`: it returns a
/// uniformly distributed value of the non-empty half-open range it is given,
/// here the integers below 1000. Nothing is assumed of any single draw beyond
/// that bound.
#[verifier::external_body]
fn draw_millis() -> (r: u32)
    ensures
        r < 1000,
{
    rand::thread_rng().gen_range(0..1000u32)
}

/// Runs one simulation from `start` to `end` with the given cost table.
///
/// A range outside `0 <= start < end <= 24` is refused up front. Otherwise
/// the engine attempts until the target is reached; since the outcomes are
/// random, the contract states what holds of every possible run: at least
/// one attempt per level gained, at least the cost of one pass over the
/// levels from `start` to `end`, and non-negative counters. The engine gives
/// up only if the attempt counter reaches its machine bound, which a fair
/// source of randomness never approaches.
pub fn simulate_one(start: usize, end: usize, table: &CostTable) -> (r: Result<
    RunResult,
    SimError,
>)
    requires
        table.wf(),
    ensures
        !valid_range(start as int, end as int) ==> r == Err::<RunResult, SimError>(
            SimError::InvalidRange,
        ),
        valid_range(start as int, end as int) ==> (r matches Err(e) ==> e
            == SimError::AttemptLimit),
        r matches Ok(res) ==> valid_range(start as int, end as int) && result_bounds(
            res,
            start as int,
            end as int,
            table@,
        ) && reachable_result(res, start as int, end as int, table@),
{
    if !(start < end && end <= 24) {
        return Err(SimError::InvalidRange);
    }
    let mut st = RunState { level: start, taps: 0, booms: 0, cost: 0, streak: 0 };
    let ghost mut rolls: Seq<u32> = Seq::empty();
    while st.level != end && st.taps < i64::MAX
        invariant
            table.wf(),
            start < end <= 24,
            state_wf(st),
            st.level <= end,
            st.taps >= st.level - start,
            st.cost >= cost_sum(table@, start as int, st.level as int),
            st == run_from(start_state(start as int), table@, rolls),
            forall|i: int| 0 <= i < rolls.len() ==> #[trigger] rolls[i] < 1000,
        decreases i64::MAX - st.taps,
    {
        let roll = draw_millis();
        let ghost prev = st;
        step(&mut st, table, roll);
        proof {
            lemma_step_bounds(prev, table@, roll);
            lemma_cost_sum_bounds(table@, start as int, st.level as int);
            if st.level <= prev.level {
                lemma_cost_sum_mono(table@, start as int, st.level as int, prev.level as int);
            }
            lemma_run_from_snoc(start_state(start as int), table@, rolls, roll);
            rolls = rolls.push(roll);
        }
    }
    if st.level == end {
        let res = RunResult { cost: st.cost, taps: st.taps, booms: st.booms };
        proof {
            let fin = run_from(start_state(start as int), table@, rolls);
            assert(fin.level == end && res == (RunResult {
                cost: fin.cost,
                taps: fin.taps,
                booms: fin.booms,
            }));
        }
        Ok(res)
    } else {
        Err(SimError::AttemptLimit)
    }
}

} // verus!
