use starforce::build_cost_table;
use starforce::simulate_one;
use starforce::step;
use starforce::CostTable;
use starforce::RunState;
use starforce::SimError;

fn upper_bases(base_level: u64) -> Vec<i64> {
    let mut bases: Vec<i64> = Vec::new();
    for star in 10usize..25 {
        let divisor: f64 = if star < 15 { 40_000.0 } else { 20_000.0 };
        let raw: f64 = (base_level as f64).powf(3.0) * ((star + 1) as f64).powf(2.7) / divisor
            + 10.0;
        bases.push(raw as i64);
    }
    bases
}

fn table_for(base_level: u64) -> CostTable {
    build_cost_table(base_level, &upper_bases(base_level))
}

fn fresh(level: usize) -> RunState {
    RunState { level, taps: 0, booms: 0, cost: 0, streak: 0 }
}

#[test]
fn step_success_moves_up_and_charges() {
    let t = table_for(150);
    let mut st = fresh(0);
    // At level 0 success holds 950 of the 1000 per-mille slots; 0 succeeds.
    step(&mut st, &t, 0);
    assert_eq!(st.level, 1);
    assert_eq!(st.taps, 1);
    assert_eq!(st.booms, 0);
    assert_eq!(st.cost, t.cost_at(0));
    assert_eq!(st.streak, 1);
}

#[test]
fn step_pity_forces_success() {
    let t = table_for(150);
    // A streak at the threshold succeeds even on the worst possible roll.
    let mut st = RunState { level: 20, taps: 2, booms: 0, cost: 0, streak: 2 };
    step(&mut st, &t, 999);
    assert_eq!(st.level, 21);
    assert_eq!(st.streak, 3);
    assert_eq!(st.taps, 3);
    assert_eq!(st.booms, 0);
}

#[test]
fn step_invalid_drop_keeps_level_and_streak() {
    let t = table_for(150);
    // Level 5 fails on rolls 750..999 but sits in the protected set.
    let mut st = fresh(5);
    step(&mut st, &t, 800);
    assert_eq!(st.level, 5);
    assert_eq!(st.streak, 0);
    assert_eq!(st.taps, 1);
    assert_eq!(st.cost, t.cost_at(5));
    assert_eq!(st.booms, 0);
}

#[test]
fn step_valid_drop_lowers_level() {
    let t = table_for(150);
    // Level 11 fails on rolls 450..999 and is not protected.
    let mut st = fresh(11);
    step(&mut st, &t, 500);
    assert_eq!(st.level, 10);
    assert_eq!(st.streak, 1);
    assert_eq!(st.taps, 1);
    assert_eq!(st.cost, t.cost_at(11));
}

#[test]
fn step_destroy_resets_to_twelve() {
    let t = table_for(150);
    // Level 24: success 10, fail 594, destroy 396; 999 destroys.
    let mut st = RunState { level: 24, taps: 7, booms: 0, cost: 0, streak: 1 };
    step(&mut st, &t, 999);
    assert_eq!(st.level, 12);
    assert_eq!(st.booms, 1);
    assert_eq!(st.streak, 0);
    assert_eq!(st.taps, 8);
    assert_eq!(st.cost, t.cost_at(24));
}

#[test]
fn step_streak_stops_past_threshold() {
    let t = table_for(150);
    // Past the pity threshold the streak stays put instead of growing.
    let mut st = RunState { level: 0, taps: 3, booms: 0, cost: 0, streak: 3 };
    step(&mut st, &t, 0);
    assert_eq!(st.level, 1);
    assert_eq!(st.streak, 3);
}

#[test]
fn step_charges_cost_even_on_protected_fail() {
    let t = table_for(150);
    let mut st = fresh(15);
    // Level 15 fails on rolls 300..978 and is protected: a wasted attempt
    // still pays and still counts.
    step(&mut st, &t, 500);
    assert_eq!(st.level, 15);
    assert_eq!(st.taps, 1);
    assert_eq!(st.cost, t.cost_at(15));
}

#[test]
fn simulate_one_rejects_bad_ranges() {
    let t = table_for(150);
    assert_eq!(simulate_one(5, 5, &t), Err(SimError::InvalidRange));
    assert_eq!(simulate_one(6, 2, &t), Err(SimError::InvalidRange));
    assert_eq!(simulate_one(0, 25, &t), Err(SimError::InvalidRange));
    assert_eq!(simulate_one(24, 24, &t), Err(SimError::InvalidRange));
}

#[test]
fn simulate_one_level_15_to_16() {
    let t = table_for(150);
    let res = simulate_one(15, 16, &t).expect("valid range");
    assert!(res.taps >= 1);
    assert!(res.cost >= t.cost_at(15));
    assert!(res.booms >= 0);
}

#[test]
fn simulate_one_low_levels() {
    let t = table_for(150);
    let res = simulate_one(0, 5, &t).expect("valid range");
    assert!(res.taps >= 5);
    let floor: i64 = (0usize..5).map(|s| t.cost_at(s)).sum();
    assert!(res.cost >= floor);
    // Destruction cannot strike below level 12.
    assert_eq!(res.booms, 0);
}
