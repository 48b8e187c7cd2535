use starforce::build_cost_table;
use starforce::CostTable;

/// The cost bases for levels 10..=24, computed with the host's floating-point
/// formulas: `base^3 * (star + 1)^2.7 / divisor + 10`, truncated, with the
/// divisor 40000 for levels 10..=14 and 20000 for levels 15..=24.
fn upper_bases(base_level: u64) -> Vec<i64> {
    let mut bases: Vec<i64> = Vec::new();
    for star in 10usize..25 {
        let divisor: f64 = if star < 15 { 40_000.0 } else { 20_000.0 };
        let raw: f64 = (base_level as f64).powf(3.0) * ((star + 1) as f64).powf(2.7) / divisor
            + 10.0;
        bases.push(raw as i64);
    }
    bases
}

fn table_for(base_level: u64) -> CostTable {
    build_cost_table(base_level, &upper_bases(base_level))
}

#[test]
fn band_a_exact_values_base_150() {
    let t = table_for(150);
    // 150^3 = 3_375_000; cost(s) = 100 * (3_375_000 * (s + 1) / 2500 + 10)
    assert_eq!(t.cost_at(0), 100 * (3_375_000 / 2500 + 10));
    assert_eq!(t.cost_at(1), 100 * (3_375_000 * 2 / 2500 + 10));
    assert_eq!(t.cost_at(5), 100 * (3_375_000 * 6 / 2500 + 10));
    assert_eq!(t.cost_at(9), 100 * (3_375_000 * 10 / 2500 + 10));
    assert_eq!(t.cost_at(0), 136_000);
    assert_eq!(t.cost_at(9), 1_351_000);
}

#[test]
fn band_a_monotone_base_150() {
    let t = table_for(150);
    for s in 0usize..9 {
        assert!(t.cost_at(s) <= t.cost_at(s + 1));
    }
}

#[test]
fn upper_bands_monotone_base_150() {
    let t = table_for(150);
    for s in 10usize..14 {
        assert!(t.cost_at(s) <= t.cost_at(s + 1));
    }
    for s in 15usize..24 {
        assert!(t.cost_at(s) <= t.cost_at(s + 1));
    }
}

#[test]
fn level_15_cost_base_150() {
    let t = table_for(150);
    let expected: i64 = ((150.0f64).powf(3.0) * (16.0f64).powf(2.7) / 20_000.0 + 10.0) as i64;
    assert_eq!(t.cost_at(15), 100 * expected);
}

#[test]
fn upper_band_mapping_base_150() {
    let bases = upper_bases(150);
    let t = build_cost_table(150, &bases);
    for star in 10usize..25 {
        assert_eq!(t.cost_at(star), 100 * bases[star - 10]);
    }
}

#[test]
fn all_costs_nonnegative() {
    for base in [0u64, 1, 150, 200, 100_000] {
        let t = table_for(base);
        for level in 0usize..25 {
            assert!(t.cost_at(level) >= 0);
        }
    }
}

#[test]
fn base_zero_costs_are_floor() {
    // With a base level of zero every formula collapses to its additive ten.
    let t = table_for(0);
    for level in 0usize..25 {
        assert_eq!(t.cost_at(level), 1000);
    }
}
