//! The load test: a fixed number of workers, each running validations over
//! the flattened sequence of test cases, cyclically, until it has completed
//! its share; then the totals of all workers and the mean latency.

use vstd::prelude::*;
use crate::schedule::{case_at, case_total, count_cases, locate_case};
use crate::validation::ValidationError;

verus! {

/// The longest duration that can be held: `u64::MAX` seconds and
/// 999 999 999 nanoseconds, in nanoseconds.
pub const MAX_DURATION_NANOS: u128 = 18_446_744_073_709_551_615_999_999_999;

/// Why a load test produced no result.
#[derive(Debug, Clone, PartialEq, Eq)]
pub enum LoadTestError {
    /// A request failed: the whole run fails with it.
    Request(ValidationError),
    /// A sum of elapsed times does not fit in a duration.
    DurationOverflow,
    /// No request was completed, so there is no mean.
    NoRequests,
}

/// What one worker completed: its requests and their summed elapsed time.
#[derive(Debug, Clone, Copy, PartialEq, Eq)]
pub struct WorkerTotals {
    pub completed: u64,
    pub elapsed_nanos: u128,
}

/// The state of one worker.
#[derive(Debug, Clone)]
pub struct Worker {
    sizes: Vec<usize>,
    total: u128,
    target: u64,
    completed: u64,
    elapsed_nanos: u128,
}

impl Worker {
    pub closed spec fn sizes_spec(&self) -> Seq<usize> {
        self.sizes@
    }

    /// The number of requests the worker is to complete.
    pub closed spec fn target_spec(&self) -> nat {
        self.target as nat
    }

    pub closed spec fn completed_spec(&self) -> nat {
        self.completed as nat
    }

    pub closed spec fn elapsed_spec(&self) -> nat {
        self.elapsed_nanos as nat
    }

    pub closed spec fn wf(&self) -> bool {
        &&& self.total == case_total(self.sizes@)
        &&& self.completed <= self.target
        &&& self.elapsed_nanos <= MAX_DURATION_NANOS
    }

    /// Whether the worker is done: it completed its share, or there is no
    /// test case to run.
    pub open spec fn done_spec(&self) -> bool {
        self.completed_spec() >= self.target_spec() || case_total(self.sizes_spec()) == 0
    }

    /// Starts a worker over configurations with these numbers of test cases.
    pub fn new(sizes: Vec<usize>, requests: u64) -> (r: Worker)
        ensures
            r.wf(),
            r.sizes_spec() == sizes@,
            r.target_spec() == requests,
            r.completed_spec() == 0,
            r.elapsed_spec() == 0,
    {
        let total = count_cases(&sizes);
        Worker { sizes, total, target: requests, completed: 0, elapsed_nanos: 0 }
    }

    /// The configuration and the test case of the next request: the
    /// worker's k-th request goes to position k of the flattened sequence,
    /// taken cyclically. Nothing when the worker is done.
    pub fn next_case(&self) -> (r: Option<(usize, usize)>)
        requires
            self.wf(),
        ensures
            self.done_spec() ==> r is None,
            !self.done_spec() ==> {
                let at = case_at(
                    self.sizes_spec(),
                    self.completed_spec() % case_total(self.sizes_spec()),
                );
                r is Some && r->Some_0.0 as nat == at.0 && r->Some_0.1 as nat == at.1
            },
    {
        if self.completed >= self.target || self.total == 0 {
            None
        } else {
            Some(locate_case(&self.sizes, self.completed as u128 % self.total))
        }
    }

    /// Records a completed request and the time it took. Fails, and changes
    /// nothing, when the summed time would not fit in a duration.
    pub fn record(&mut self, elapsed_nanos: u128) -> (r: Result<(), LoadTestError>)
        requires
            old(self).wf(),
            !old(self).done_spec(),
        ensures
            final(self).wf(),
            final(self).sizes_spec() == old(self).sizes_spec(),
            final(self).target_spec() == old(self).target_spec(),
            old(self).elapsed_spec() + elapsed_nanos > MAX_DURATION_NANOS ==> {
                &&& r == Err::<(), _>(LoadTestError::DurationOverflow)
                &&& final(self).completed_spec() == old(self).completed_spec()
                &&& final(self).elapsed_spec() == old(self).elapsed_spec()
            },
            old(self).elapsed_spec() + elapsed_nanos <= MAX_DURATION_NANOS ==> {
                &&& r is Ok
                &&& final(self).completed_spec() == old(self).completed_spec() + 1
                &&& final(self).elapsed_spec() == old(self).elapsed_spec() + elapsed_nanos
            },
    {
        if elapsed_nanos > MAX_DURATION_NANOS - self.elapsed_nanos {
            return Err(LoadTestError::DurationOverflow);
        }
        self.elapsed_nanos = self.elapsed_nanos + elapsed_nanos;
        self.completed = self.completed + 1;
        Ok(())
    }

    pub fn is_done(&self) -> (r: bool)
        requires
            self.wf(),
        ensures
            r == self.done_spec(),
    {
        self.completed >= self.target || self.total == 0
    }

    pub fn totals(&self) -> (r: WorkerTotals)
        ensures
            r.completed == self.completed_spec(),
            r.elapsed_nanos == self.elapsed_spec(),
    {
        WorkerTotals { completed: self.completed, elapsed_nanos: self.elapsed_nanos }
    }
}

/// The result of a load test in which every request succeeded.
#[derive(Debug, Clone, Copy, PartialEq, Eq)]
pub struct LoadSummary {
    pub total_requests: u128,
    pub total_nanos: u128,
    /// The mean time per request, in whole milliseconds: the summed time in
    /// whole milliseconds divided by the number of requests.
    pub average_millis: u128,
}

pub open spec fn sum_requests(results: Seq<Result<WorkerTotals, LoadTestError>>) -> nat
    decreases results.len(),
{
    if results.len() == 0 {
        0
    } else {
        sum_requests(results.drop_last()) + match results.last() {
            Ok(t) => t.completed as nat,
            Err(_) => 0nat,
        }
    }
}

pub open spec fn sum_nanos(results: Seq<Result<WorkerTotals, LoadTestError>>) -> nat
    decreases results.len(),
{
    if results.len() == 0 {
        0
    } else {
        sum_nanos(results.drop_last()) + match results.last() {
            Ok(t) => t.elapsed_nanos as nat,
            Err(_) => 0nat,
        }
    }
}

pub open spec fn all_succeeded(results: Seq<Result<WorkerTotals, LoadTestError>>) -> bool {
    forall|i: int| 0 <= i < results.len() ==> #[trigger] results[i] is Ok
}

/// Index `j` holds the first failure of the workers, in the order given.
pub open spec fn is_first_failure(results: Seq<Result<WorkerTotals, LoadTestError>>, j: int) -> bool {
    &&& 0 <= j < results.len()
    &&& results[j] is Err
    &&& forall|i: int| 0 <= i < j ==> #[trigger] results[i] is Ok
}

/// Joins the workers' results, in the order in which they were started. The
/// first failure fails the whole load test, and no mean is produced; when all
/// succeeded, the totals are the sums of the workers' totals and the mean is
/// the summed time in whole milliseconds divided by the number of requests.
pub fn summarize(results: Vec<Result<WorkerTotals, LoadTestError>>) -> (r: Result<
    LoadSummary,
    LoadTestError,
>)
    ensures
        !all_succeeded(results@) ==> exists|j: int|
            is_first_failure(results@, j) && r == Err::<LoadSummary, _>(results@[j]->Err_0),
        all_succeeded(results@) && sum_nanos(results@) > MAX_DURATION_NANOS ==> r == Err::<
            LoadSummary,
            _,
        >(LoadTestError::DurationOverflow),
        all_succeeded(results@) && sum_nanos(results@) <= MAX_DURATION_NANOS && sum_requests(
            results@,
        ) == 0 ==> r == Err::<LoadSummary, _>(LoadTestError::NoRequests),
        all_succeeded(results@) && sum_nanos(results@) <= MAX_DURATION_NANOS && sum_requests(
            results@,
        ) > 0 ==> r == Ok::<_, LoadTestError>(
            LoadSummary {
                total_requests: sum_requests(results@) as u128,
                total_nanos: sum_nanos(results@) as u128,
                average_millis: (sum_nanos(results@) / 1_000_000 / sum_requests(
                    results@,
                )) as u128,
            },
        ),
{
    let n = results.len();
    let mut i: usize = 0;
    while i < n
        invariant
            n == results@.len(),
            i <= n,
            forall|k: int| 0 <= k < i ==> #[trigger] results@[k] is Ok,
        decreases n - i,
    {
        if results[i].is_err() {
            let ghost given = results@;
            assert(is_first_failure(given, i as int));
            let mut results = results;
            let failure = results.swap_remove(i);
            assert(failure == given[i as int]);
            return match failure {
                Err(e) => Err(e),
                Ok(_) => Err(LoadTestError::NoRequests),
            };
        }
        i += 1;
    }
    let mut requests: u128 = 0;
    let mut nanos: u128 = 0;
    let mut i: usize = 0;
    while i < n
        invariant
            n == results@.len(),
            all_succeeded(results@),
            i <= n,
            requests == sum_requests(results@.subrange(0, i as int)),
            nanos == sum_nanos(results@.subrange(0, i as int)),
            nanos <= MAX_DURATION_NANOS,
            requests <= i * (u64::MAX as int),
        decreases n - i,
    {
        let ghost prefix = results@.subrange(0, i + 1);
        assert(prefix.drop_last() =~= results@.subrange(0, i as int));
        assert(results@[i as int] is Ok);
        let totals = match &results[i] {
            Ok(t) => *t,
            Err(_) => WorkerTotals { completed: 0, elapsed_nanos: 0 },
        };
        if totals.elapsed_nanos > MAX_DURATION_NANOS - nanos {
            proof {
                lemma_sums_grow(results@, i as int + 1);
            }
            return Err(LoadTestError::DurationOverflow);
        }
        proof {
            let m = u64::MAX as int;
            assert((i + 1) * m == i * m + m) by (nonlinear_arith);
            assert((i + 1) * m <= 0xffff_ffff_ffff_ffff * m) by (nonlinear_arith)
                requires
                    i + 1 <= 0xffff_ffff_ffff_ffff,
                    m >= 0,
            ;
        }
        requests = requests + totals.completed as u128;
        nanos = nanos + totals.elapsed_nanos;
        i += 1;
    }
    assert(results@.subrange(0, n as int) =~= results@);
    if requests == 0 {
        return Err(LoadTestError::NoRequests);
    }
    Ok(LoadSummary { total_requests: requests, total_nanos: nanos, average_millis: nanos / 1_000_000 / requests })
}

/// The sums over a prefix never exceed the sums over the whole.
proof fn lemma_sums_grow(results: Seq<Result<WorkerTotals, LoadTestError>>, k: int)
    requires
        0 <= k <= results.len(),
    ensures
        sum_nanos(results.subrange(0, k)) <= sum_nanos(results),
        sum_requests(results.subrange(0, k)) <= sum_requests(results),
    decreases results.len() - k,
{
    if k < results.len() {
        lemma_sums_grow(results, k + 1);
        assert(results.subrange(0, k + 1).drop_last() =~= results.subrange(0, k));
    } else {
        assert(results.subrange(0, k) =~= results);
    }
}

} // verus!
