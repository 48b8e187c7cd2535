use starforce::benchmark;
use starforce::build_cost_table;
use starforce::simulate_batch;
use starforce::worker_shares;
use starforce::CostTable;
use starforce::NoProgress;
use starforce::ProgressSink;
use starforce::SimError;

fn upper_bases(base_level: u64) -> Vec<i64> {
    let mut bases: Vec<i64> = Vec::new();
    for star in 10usize..25 {
        let divisor: f64 = if star < 15 { 40_000.0 } else { 20_000.0 };
        let raw: f64 = (base_level as f64).powf(3.0) * ((star + 1) as f64).powf(2.7) / divisor
            + 10.0;
        bases.push(raw as i64);
    }
    bases
}

fn table_for(base_level: u64) -> CostTable {
    build_cost_table(base_level, &upper_bases(base_level))
}

struct CountingSink {
    ticks: usize,
    last_done: usize,
    last_total: usize,
}

impl ProgressSink for CountingSink {
    fn tick(&mut self, done: usize, total: usize) {
        self.ticks += 1;
        self.last_done = done;
        self.last_total = total;
    }
}

#[test]
fn batch_returns_n_results() {
    let t = table_for(150);
    let results = simulate_batch(0, 3, &t, 10, false, &mut NoProgress).expect("valid batch");
    assert_eq!(results.len(), 10);
    for r in &results {
        assert!(r.taps >= 3);
        assert!(r.cost >= t.cost_at(0) + t.cost_at(1) + t.cost_at(2));
    }
}

#[test]
fn empty_batch_is_ok_even_on_a_bad_range() {
    let t = table_for(150);
    let results = simulate_batch(9, 2, &t, 0, false, &mut NoProgress).expect("empty batch");
    assert!(results.is_empty());
    let results = simulate_batch(0, 5, &t, 0, true, &mut NoProgress).expect("empty batch");
    assert!(results.is_empty());
    assert_eq!(benchmark(9, 2, &t, 0), Ok(()));
}

#[test]
fn batch_rejects_bad_ranges() {
    let t = table_for(150);
    assert_eq!(
        simulate_batch(5, 5, &t, 4, false, &mut NoProgress),
        Err(SimError::InvalidRange)
    );
    assert_eq!(benchmark(7, 3, &t, 4), Err(SimError::InvalidRange));
}

#[test]
fn batch_ticks_once_per_run() {
    let t = table_for(150);
    let mut sink = CountingSink { ticks: 0, last_done: 0, last_total: 0 };
    let results = simulate_batch(0, 2, &t, 7, true, &mut sink).expect("valid batch");
    assert_eq!(results.len(), 7);
    assert_eq!(sink.ticks, 7);
    assert_eq!(sink.last_done, 7);
    assert_eq!(sink.last_total, 7);
}

#[test]
fn batch_without_progress_never_ticks() {
    let t = table_for(150);
    let mut sink = CountingSink { ticks: 0, last_done: 0, last_total: 0 };
    simulate_batch(0, 2, &t, 7, false, &mut sink).expect("valid batch");
    assert_eq!(sink.ticks, 0);
}

#[test]
fn benchmark_runs_clean() {
    let t = table_for(150);
    assert_eq!(benchmark(0, 2, &t, 50), Ok(()));
}

#[test]
fn shares_of_17_over_4_workers() {
    assert_eq!(worker_shares(17, 4), vec![5, 4, 4, 4]);
}

#[test]
fn shares_cover_the_batch_exactly() {
    for (n, w) in [(0usize, 3usize), (5, 1), (23, 4), (4, 8), (100, 7), (1, 2)] {
        let shares = worker_shares(n, w);
        assert_eq!(shares.len(), w);
        assert_eq!(shares.iter().sum::<usize>(), n);
        // the first n % w workers take one extra run
        for i in 0..w {
            let expected = n / w + if i < n % w { 1 } else { 0 };
            assert_eq!(shares[i], expected);
        }
    }
}

#[test]
fn shares_never_rise_along_the_workers() {
    let shares = worker_shares(23, 5);
    for i in 0..4 {
        assert!(shares[i] >= shares[i + 1]);
    }
}
