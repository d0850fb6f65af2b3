//! The sequential run: every test case once, in order, with the caller doing
//! each validation. Whether a failure stops the run is the caller's choice.

use vstd::prelude::*;
use crate::schedule::{case_at, case_total, count_cases, locate_case};

verus! {

/// What the run does after a failed test case.
#[derive(Debug, Clone, Copy, PartialEq, Eq)]
pub enum RunMode {
    /// Report the failure and go on with the next test case.
    Continue,
    /// Stop the whole run at the first failure.
    Strict,
}

/// The state of a sequential run.
#[derive(Debug, Clone)]
pub struct SequentialRun {
    mode: RunMode,
    sizes: Vec<usize>,
    total: u128,
    done: u128,
    passed: u128,
    failed: u128,
    halted: bool,
}

impl SequentialRun {
    pub closed spec fn mode_spec(&self) -> RunMode {
        self.mode
    }

    pub closed spec fn sizes_spec(&self) -> Seq<usize> {
        self.sizes@
    }

    /// The number of test cases already run.
    pub closed spec fn done_spec(&self) -> nat {
        self.done as nat
    }

    pub closed spec fn passed_spec(&self) -> nat {
        self.passed as nat
    }

    pub closed spec fn failed_spec(&self) -> nat {
        self.failed as nat
    }

    pub closed spec fn halted_spec(&self) -> bool {
        self.halted
    }

    pub closed spec fn wf(&self) -> bool {
        &&& self.total == case_total(self.sizes@)
        &&& self.done <= self.total
        &&& self.passed + self.failed == self.done
        &&& self.halted == (self.mode == RunMode::Strict && self.failed > 0)
        &&& self.mode == RunMode::Strict ==> self.failed <= 1
    }

    /// Whether the run is over: every test case ran, or a strict run failed.
    pub open spec fn finished_spec(&self) -> bool {
        self.halted_spec() || self.done_spec() == case_total(self.sizes_spec())
    }

    /// Starts a run over configurations with these numbers of test cases.
    pub fn new(mode: RunMode, sizes: Vec<usize>) -> (r: SequentialRun)
        ensures
            r.wf(),
            r.mode_spec() == mode,
            r.sizes_spec() == sizes@,
            r.done_spec() == 0,
            r.passed_spec() == 0,
            r.failed_spec() == 0,
            !r.halted_spec(),
    {
        let total = count_cases(&sizes);
        SequentialRun { mode, sizes, total, done: 0, passed: 0, failed: 0, halted: false }
    }

    /// The configuration and the test case to run next, or nothing when the
    /// run is over.
    pub fn next_case(&self) -> (r: Option<(usize, usize)>)
        requires
            self.wf(),
        ensures
            self.finished_spec() ==> r is None,
            !self.finished_spec() ==> r is Some && r->Some_0.0 as nat == case_at(
                self.sizes_spec(),
                self.done_spec(),
            ).0 && r->Some_0.1 as nat == case_at(self.sizes_spec(), self.done_spec()).1,
    {
        if self.halted || self.done == self.total {
            None
        } else {
            Some(locate_case(&self.sizes, self.done))
        }
    }

    /// Records the outcome of the test case that `next_case` named.
    pub fn record(&mut self, passed: bool)
        requires
            old(self).wf(),
            !old(self).finished_spec(),
        ensures
            final(self).wf(),
            final(self).mode_spec() == old(self).mode_spec(),
            final(self).sizes_spec() == old(self).sizes_spec(),
            final(self).done_spec() == old(self).done_spec() + 1,
            final(self).passed_spec() == old(self).passed_spec() + if passed {
                1nat
            } else {
                0nat
            },
            final(self).failed_spec() == old(self).failed_spec() + if passed {
                0nat
            } else {
                1nat
            },
            final(self).halted_spec() == (!passed && old(self).mode_spec() == RunMode::Strict),
    {
        self.done = self.done + 1;
        if passed {
            self.passed = self.passed + 1;
        } else {
            self.failed = self.failed + 1;
            if let RunMode::Strict = self.mode {
                self.halted = true;
            }
        }
    }

    pub fn is_finished(&self) -> (r: bool)
        requires
            self.wf(),
        ensures
            r == self.finished_spec(),
    {
        self.halted || self.done == self.total
    }

    pub fn passed(&self) -> (r: u128)
        ensures
            r == self.passed_spec(),
    {
        self.passed
    }

    pub fn failed(&self) -> (r: u128)
        ensures
            r == self.failed_spec(),
    {
        self.failed
    }

    /// Whether the run succeeded so far: no test case failed.
    pub fn succeeded(&self) -> (r: bool)
        ensures
            r == (self.failed_spec() == 0),
    {
        self.failed == 0
    }
}

} // verus!
