//! Repeated cold-start runs of one program, as a state machine.
//!
//! The caller builds a fresh machine for each run, loads and runs the program,
//! times the run and hands the outcome to [`Harness::record`], which decides
//! whether the benchmark may go on: every run must end exactly as the first
//! did, and the summed run time must stay within what a
//! `std::time::Duration` holds. Once every run is in, [`Harness::finish`]
//! gives the last result and the average time of a run.

use vstd::prelude::*;
use crate::vm::vm_errors_equal;

verus! {

/// How many times the benchmark runs the program.
pub const RUNS: u32 = 10000;

/// A progress marker is due on each run whose index is a multiple of this.
pub const PROGRESS_EVERY: u32 = 1000;

/// Nanoseconds in a second.
pub const NANOS_PER_SEC: u128 = 1_000_000_000;

/// The longest span that a `std::time::Duration` holds, in nanoseconds.
pub const MAX_TOTAL_NANOS: u128 = 18_446_744_073_709_551_615_999_999_999;

/// What one run of the program shows from outside: how it ended (an exit code
/// or the machine's error), the cycles it was charged, and register A1.
#[derive(Debug)]
pub struct RunResult {
    pub exit: Result<i8, ckb_vm::Error>,
    pub cycles: u64,
    pub a1: u64,
}

/// Why the benchmark stopped early.
#[derive(Debug)]
pub enum HarnessError {
    /// The machine refused the program.
    Load(ckb_vm::Error),
    /// A run ended otherwise than the runs before it.
    Mismatch { previous: RunResult, current: RunResult },
    /// The summed run time no longer fits a `std::time::Duration`.
    TimeOverflow,
}

/// The outcome of a completed benchmark.
#[derive(Debug)]
pub struct Summary {
    /// The result of the last run, which every run shared.
    pub result: RunResult,
    /// The average time of a run: whole seconds ...
    pub average_secs: u64,
    /// ... and the nanoseconds beyond them.
    pub average_subsec_nanos: u32,
}

impl RunResult {
    /// Whether two runs ended alike: same exit, same cycles, same A1.
    pub fn same_as(&self, other: &RunResult) -> (r: bool)
        ensures
            r == (*self == *other),
    {
        let same_exit = match (&self.exit, &other.exit) {
            (Ok(a), Ok(b)) => *a == *b,
            (Err(a), Err(b)) => vm_errors_equal(a, b),
            _ => false,
        };
        same_exit && self.cycles == other.cycles && self.a1 == other.a1
    }

    /// The status the host process exits with: the guest's exit code, or the
    /// machine's error where the run failed.
    pub fn exit_status(self) -> (r: Result<i32, ckb_vm::Error>)
        ensures
            match self.exit {
                Ok(code) => r == Ok::<i32, ckb_vm::Error>(code as i32),
                Err(e) => r == Err::<i32, ckb_vm::Error>(e),
            },
    {
        match self.exit {
            Ok(code) => Ok(code as i32),
            Err(e) => Err(e),
        }
    }
}

/// The sum of a sequence of run times.
pub open spec fn sum_nanos(times: Seq<u128>) -> int
    decreases times.len(),
{
    if times.len() == 0 {
        0
    } else {
        sum_nanos(times.drop_last()) + times.last()
    }
}

/// The bookkeeping of a benchmark that runs one program a fixed number of
/// times.
pub struct Harness {
    runs: u32,
    completed: u32,
    last: Option<RunResult>,
    total_nanos: u128,
    failed: bool,
    history: Ghost<Seq<RunResult>>,
    times: Ghost<Seq<u128>>,
}

impl Harness {
    /// How many runs the benchmark asks for.
    pub closed spec fn runs(&self) -> nat {
        self.runs as nat
    }

    /// The results of the runs accepted so far, in order.
    pub closed spec fn results(&self) -> Seq<RunResult> {
        self.history@
    }

    /// The times of the runs accepted so far, in nanoseconds, in order.
    pub closed spec fn elapsed(&self) -> Seq<u128> {
        self.times@
    }

    /// Whether the benchmark has stopped on an error.
    pub closed spec fn failed(&self) -> bool {
        self.failed
    }

    /// How many runs have been accepted.
    pub open spec fn completed(&self) -> nat {
        self.results().len()
    }

    /// Every run is in and none was refused.
    pub open spec fn finished(&self) -> bool {
        !self.failed() && self.completed() == self.runs()
    }

    /// The counters, the running total and the last result agree with the
    /// recorded runs, and those runs all ended alike.
    pub closed spec fn wf(&self) -> bool {
        &&& self.runs > 0
        &&& self.completed <= self.runs
        &&& self.completed as nat == self.history@.len()
        &&& self.times@.len() == self.history@.len()
        &&& self.total_nanos as int == sum_nanos(self.times@)
        &&& self.total_nanos <= MAX_TOTAL_NANOS
        &&& forall|i: int| 0 <= i < self.history@.len() ==> #[trigger] self.history@[i] == self.history@[0]
        &&& !self.failed ==> self.last == if self.history@.len() == 0 {
            None
        } else {
            Some(self.history@.last())
        }
    }

    /// A benchmark of `runs` runs, none of them done yet.
    pub fn new(runs: u32) -> (r: Harness)
        requires
            runs > 0,
        ensures
            r.wf(),
            r.runs() == runs,
            r.results() == Seq::<RunResult>::empty(),
            r.elapsed() == Seq::<u128>::empty(),
            !r.failed(),
    {
        Harness {
            runs,
            completed: 0,
            last: None,
            total_nanos: 0,
            failed: false,
            history: Ghost(Seq::empty()),
            times: Ghost(Seq::empty()),
        }
    }

    /// Whether every run has been recorded.
    pub fn is_finished(&self) -> (r: bool)
        requires
            self.wf(),
            !self.failed(),
        ensures
            r == self.finished(),
    {
        self.completed == self.runs
    }

    /// Takes the outcome of one run and its time in nanoseconds. `attempt` is
    /// the machine's error where it refused to load the program, and the
    /// run's result otherwise.
    ///
    /// A refused program, a summed time beyond what a `Duration` holds, or a
    /// result that differs from the earlier runs' stops the benchmark with
    /// nothing recorded. Otherwise the run is recorded, and the answer is the
    /// run's index where a progress marker is due.
    pub fn record(&mut self, attempt: Result<RunResult, ckb_vm::Error>, elapsed_nanos: u128) -> (r:
        Result<Option<u32>, HarnessError>)
        requires
            old(self).wf(),
            !old(self).failed(),
            old(self).completed() < old(self).runs(),
        ensures
            final(self).wf(),
            final(self).runs() == old(self).runs(),
            r is Err <==> final(self).failed(),
            r is Err ==> final(self).results() == old(self).results() && final(self).elapsed()
                == old(self).elapsed(),
            match attempt {
                Err(e) => r == Err::<Option<u32>, HarnessError>(HarnessError::Load(e)),
                Ok(res) => if sum_nanos(old(self).elapsed()) + elapsed_nanos > MAX_TOTAL_NANOS {
                    r == Err::<Option<u32>, HarnessError>(HarnessError::TimeOverflow)
                } else if old(self).completed() > 0 && res != old(self).results().last() {
                    r == Err::<Option<u32>, HarnessError>(
                        (HarnessError::Mismatch { previous: old(self).results().last(), current: res }),
                    )
                } else {
                    &&& r == Ok::<Option<u32>, HarnessError>(
                        if old(self).completed() % (PROGRESS_EVERY as nat) == 0 {
                            Some(old(self).completed() as u32)
                        } else {
                            None
                        },
                    )
                    &&& final(self).results() == old(self).results().push(res)
                    &&& final(self).elapsed() == old(self).elapsed().push(elapsed_nanos)
                },
            },
    {
        let res = match attempt {
            Err(e) => {
                self.failed = true;
                return Err(HarnessError::Load(e));
            },
            Ok(res) => res,
        };
        if elapsed_nanos > MAX_TOTAL_NANOS - self.total_nanos {
            self.failed = true;
            return Err(HarnessError::TimeOverflow);
        }
        let index = self.completed;
        match self.last.take() {
            Some(previous) => {
                if !previous.same_as(&res) {
                    self.failed = true;
                    return Err(HarnessError::Mismatch { previous, current: res });
                }
            },
            None => {},
        }
        proof {
            let old_times = self.times@;
            self.history@ = self.history@.push(res);
            self.times@ = self.times@.push(elapsed_nanos);
            assert(self.times@.drop_last() =~= old_times);
        }
        self.total_nanos = self.total_nanos + elapsed_nanos;
        self.completed = self.completed + 1;
        self.last = Some(res);
        if index % PROGRESS_EVERY == 0 {
            Ok(Some(index))
        } else {
            Ok(None)
        }
    }

    /// Ends a benchmark whose runs are all recorded: the last run's result
    /// and the average run time, rounded down to the nanosecond.
    pub fn finish(self) -> (r: Summary)
        requires
            self.wf(),
            self.finished(),
        ensures
            r.result == self.results().last(),
            r.average_subsec_nanos < NANOS_PER_SEC,
            r.average_secs * NANOS_PER_SEC + r.average_subsec_nanos == sum_nanos(self.elapsed())
                / (self.runs() as int),
    {
        let average = self.total_nanos / (self.runs as u128);
        assert(average <= self.total_nanos) by (nonlinear_arith)
            requires
                average == self.total_nanos / (self.runs as u128),
                self.runs >= 1,
        ;
        let result = self.last.unwrap();
        Summary {
            result,
            average_secs: (average / NANOS_PER_SEC) as u64,
            average_subsec_nanos: (average % NANOS_PER_SEC) as u32,
        }
    }
}

/// Every recorded run of a benchmark ended exactly as every other: the
/// harness accepts no run whose result differs from the earlier ones.
pub proof fn lemma_runs_agree(h: &Harness)
    requires
        h.wf(),
    ensures
        forall|i: int, j: int|
            0 <= i < h.completed() && 0 <= j < h.completed() ==> #[trigger] h.results()[i]
                == #[trigger] h.results()[j],
{
}

/// Runs that each take the same time `d` sum to `d` times their number.
pub proof fn lemma_sum_of_equal_times(times: Seq<u128>, d: u128)
    requires
        forall|i: int| 0 <= i < times.len() ==> times[i] == d,
    ensures
        sum_nanos(times) == times.len() * d,
    decreases times.len(),
{
    if times.len() > 0 {
        lemma_sum_of_equal_times(times.drop_last(), d);
        assert(times.len() * d == (times.len() - 1) * d + d) by (nonlinear_arith);
    }
}

/// Where every run of a completed benchmark took the same time `d`, the
/// average that [`Harness::finish`] reports is exactly `d`.
pub proof fn lemma_fixed_delay_average(h: &Harness, d: u128)
    requires
        h.wf(),
        h.finished(),
        forall|i: int| 0 <= i < h.elapsed().len() ==> h.elapsed()[i] == d,
    ensures
        sum_nanos(h.elapsed()) / (h.runs() as int) == d,
{
    lemma_sum_of_equal_times(h.elapsed(), d);
    let n = h.runs() as int;
    assert(n > 0);
    assert((n * d) / n == d) by (nonlinear_arith)
        requires
            n > 0,
    ;
}

} // verus!
