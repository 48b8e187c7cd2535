//! The batch runners: run the single-run engine many times, optionally
//! reporting progress, and the arithmetic that splits a batch across workers.
//!
//! Rendering a progress display is a caller's business: the runners only
//! advance a [`ProgressSink`] the caller injects. The split of `n` runs over
//! `w` workers is exact and proved: the first `n % w` workers take one run
//! more than the rest, and the shares add up to `n`. Spawning the workers is
//! scheduling, not simulation, so it too stays with the caller, who gives
//! each worker one share and concatenates the slices in worker order.

use vstd::prelude::*;

use crate::costs::CostTable;
use crate::engine::reachable_result;
use crate::engine::result_bounds;
use crate::engine::simulate_one;
use crate::engine::valid_range;
use crate::engine::RunResult;
use crate::engine::SimError;

verus! {

/// A monotonic progress counter a caller injects; the runners advance it
/// once per completed run and never read it. Implementations own rendering.
pub trait ProgressSink {
    /// Called after each completed run with the number done so far and the
    /// batch's total.
    fn tick(&mut self, done: usize, total: usize);
}

/// The sink for a caller that wants no progress reporting.
pub struct NoProgress;

impl ProgressSink for NoProgress {
    fn tick(&mut self, _done: usize, _total: usize) {
    }
}

/// Runs the engine `n` times sequentially and collects the results in
/// generation order. An empty batch returns an empty sequence without
/// touching the range; otherwise a bad range is refused, any run's failure
/// aborts the whole batch, and a full batch holds exactly `n` results, each
/// within the engine's bounds. `show_progress` only gates the sink and has
/// no effect on the results.
pub fn simulate_batch<P: ProgressSink>(
    start: usize,
    end: usize,
    table: &CostTable,
    n: usize,
    show_progress: bool,
    progress: &mut P,
) -> (r: Result<Vec<RunResult>, SimError>)
    requires
        table.wf(),
    ensures
        n == 0 ==> (r matches Ok(v) && v@.len() == 0),
        n > 0 && !valid_range(start as int, end as int) ==> r == Err::<Vec<RunResult>, SimError>(
            SimError::InvalidRange,
        ),
        valid_range(start as int, end as int) ==> (r matches Err(e) ==> e
            == SimError::AttemptLimit),
        r matches Ok(v) ==> v@.len() == n && forall|j: int|
            0 <= j < n ==> result_bounds(#[trigger] v@[j], start as int, end as int, table@)
                && reachable_result(v@[j], start as int, end as int, table@),
{
    let mut out: Vec<RunResult> = Vec::new();
    if n == 0 {
        return Ok(out);
    }
    let mut i: usize = 0;
    while i < n
        invariant
            table.wf(),
            i <= n,
            out@.len() == i,
            i > 0 ==> valid_range(start as int, end as int),
            forall|j: int|
                0 <= j < i ==> result_bounds(#[trigger] out@[j], start as int, end as int, table@)
                    && reachable_result(out@[j], start as int, end as int, table@),
        decreases n - i,
    {
        match simulate_one(start, end, table) {
            Ok(res) => {
                out.push(res);
            },
            Err(e) => {
                return Err(e);
            },
        }
        if show_progress {
            progress.tick(i + 1, n);
        }
        i = i + 1;
    }
    Ok(out)
}

/// Runs the engine `n` times and discards every result: measures raw
/// throughput without collection overhead. Same refusal behaviour as
/// [`simulate_batch`].
pub fn benchmark(start: usize, end: usize, table: &CostTable, n: usize) -> (r: Result<
    (),
    SimError,
>)
    requires
        table.wf(),
    ensures
        n == 0 ==> r matches Ok(_),
        n > 0 && !valid_range(start as int, end as int) ==> r == Err::<(), SimError>(
            SimError::InvalidRange,
        ),
        valid_range(start as int, end as int) ==> (r matches Err(e) ==> e
            == SimError::AttemptLimit),
{
    if n == 0 {
        return Ok(());
    }
    let mut i: usize = 0;
    while i < n
        invariant
            table.wf(),
            i <= n,
            i > 0 ==> valid_range(start as int, end as int),
        decreases n - i,
    {
        match simulate_one(start, end, table) {
            Ok(_res) => {
            },
            Err(e) => {
                return Err(e);
            },
        }
        i = i + 1;
    }
    Ok(())
}

/// Worker `i`'s share of a batch of `n` over `workers` workers: the even
/// quotient, plus one for the first `n % workers` workers.
pub open spec fn share_spec(n: int, workers: int, i: int) -> int {
    n / workers + if i < n % workers {
        1int
    } else {
        0int
    }
}

/// The total of a sequence of shares.
pub open spec fn shares_sum(s: Seq<usize>) -> int
    decreases s.len(),
{
    if s.len() == 0 {
        0
    } else {
        shares_sum(s.drop_last()) + s.last()
    }
}

/// Splits a batch of `n` runs as evenly as possible over `workers` workers:
/// every worker takes the even quotient, the first `n % workers` workers one
/// run more, and the shares cover the batch exactly.
pub fn worker_shares(n: usize, workers: usize) -> (s: Vec<usize>)
    requires
        workers >= 1,
    ensures
        s@.len() == workers,
        forall|i: int| 0 <= i < workers ==> s@[i] == share_spec(n as int, workers as int, i),
        shares_sum(s@) == n,
{
    let div: usize = n / workers;
    let rem: usize = n % workers;
    proof {
        vstd::arithmetic::div_mod::lemma_fundamental_div_mod(n as int, workers as int);
        assert(div <= (n as int / workers as int) * workers) by (nonlinear_arith)
            requires
                div == n as int / workers as int && workers >= 1 && div >= 0,
        ;
    }
    let mut s: Vec<usize> = Vec::new();
    let mut i: usize = 0;
    while i < workers
        invariant
            workers >= 1,
            div == n as int / workers as int,
            rem == n as int % workers as int,
            rem < workers,
            div * workers + rem == n,
            div <= div * workers,
            i <= workers,
            s@.len() == i,
            forall|j: int| 0 <= j < i ==> s@[j] == share_spec(n as int, workers as int, j),
            shares_sum(s@) == i * div + if i <= rem {
                i as int
            } else {
                rem as int
            },
        decreases workers - i,
    {
        let extra: usize = if i < rem {
            1
        } else {
            0
        };
        proof {
            if i < rem {
                assert(div < n) by (nonlinear_arith)
                    requires
                        div * workers + rem == n && div <= div * workers && rem >= 1,
                ;
            }
        }
        let share: usize = div + extra;
        let ghost prev = s@;
        s.push(share);
        proof {
            assert(s@.drop_last() =~= prev);
            assert((i + 1) * div == i * div + div) by (nonlinear_arith);
        }
        i = i + 1;
    }
    proof {
        assert(workers * div == div * workers) by (nonlinear_arith);
    }
    s
}

} // verus!
