//! A verified core for a probabilistic item-upgrade ("starforce") simulator.
//!
//! An item carries an enhancement level in `[0, 24]`. Each attempt at a level
//! succeeds, fails (possibly dropping a level), or destroys the item according
//! to fixed per-level odds, while an accumulated cost is charged per attempt.
//! The crate proves the per-attempt state machine, the cost accounting, and
//! the arithmetic that splits a batch of runs across workers.

mod batch;
mod costs;
mod engine;
mod rates;

pub use batch::benchmark;
pub use batch::share_spec;
pub use batch::shares_sum;
pub use batch::simulate_batch;
pub use batch::worker_shares;
pub use batch::NoProgress;
pub use batch::ProgressSink;
pub use costs::band_a_cost;
pub use costs::build_cost_table;
pub use costs::cost_band_a;
pub use costs::cost_sum;
pub use costs::lemma_band_a_monotone;
pub use costs::lemma_cost_sum_bounds;
pub use costs::lemma_cost_sum_mono;
pub use costs::lemma_cost_sum_width;
pub use costs::lemma_upper_band_monotone;
pub use costs::CostTable;
pub use costs::MAX_BASE_LEVEL;
pub use costs::MAX_RAW_COST;
pub use costs::MAX_TABLE_COST;
pub use engine::bump_streak;
pub use engine::effective_roll;
pub use engine::lemma_invalid_drop_shields;
pub use engine::lemma_pity_forces_success;
pub use engine::lemma_run_from_snoc;
pub use engine::lemma_step_bounds;
pub use engine::lemma_streak_counts;
pub use engine::outcome_of;
pub use engine::reachable_result;
pub use engine::result_bounds;
pub use engine::run_from;
pub use engine::sat_add;
pub use engine::simulate_one;
pub use engine::start_state;
pub use engine::state_wf;
pub use engine::step;
pub use engine::step_spec;
pub use engine::valid_range;
pub use engine::Outcome;
pub use engine::RunResult;
pub use engine::RunState;
pub use engine::SimError;
pub use rates::invalid_drop;
pub use rates::is_invalid_drop;
pub use rates::lemma_rates_shape;
pub use rates::rate_spec;
pub use rates::rates;
