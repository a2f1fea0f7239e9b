//! Running the jobs of a run, a bounded number at a time.
//!
//! The runner starts nothing itself. It is asked what to do next, and told
//! how each job ended; whoever asks starts the processes and waits for them.
//! Every job is run, whether earlier ones failed or not, and the failures are
//! reported together at the end.

use vstd::prelude::*;
use crate::error::{failures_view, FailedJob, FailedJobView, SplitError, SplitErrorView};

verus! {

/// How many jobs may run at a time, for a wish of `jobs` on a machine with
/// `max_cpus` processing units: the wish, unless there is none or it is zero or
/// more than the machine has; then as many as the machine has.
pub open spec fn spec_max_jobs(jobs: Option<u32>, max_cpus: u32) -> u32 {
    match jobs {
        Some(n) => if n == 0 || n > max_cpus {
            max_cpus
        } else {
            n
        },
        None => max_cpus,
    }
}

/// How many jobs may run at a time.
pub fn max_jobs(jobs: Option<u32>, max_cpus: u32) -> (n: u32)
    ensures
        n == spec_max_jobs(jobs, max_cpus),
{
    let n = match jobs {
        Some(n) => n,
        None => max_cpus,
    };
    if n == 0 || n > max_cpus {
        max_cpus
    } else {
        n
    }
}

/// What to do next.
#[derive(Debug, Clone, Copy, PartialEq, Eq, Structural)]
pub enum Action {
    /// Start the job with this index, then ask again.
    Start(usize),
    /// Wait until one of the running jobs ends, record it, then ask again.
    Wait,
    /// Every job has been started and has ended.
    Done,
}

/// How a job ended.
#[derive(Debug)]
pub enum JobOutcome {
    /// The process ended with status zero.
    Succeeded,
    /// The process could not be started or ended with another status; the
    /// text is what the system said or what the process wrote to its error
    /// stream.
    Failed(String),
}

/// Where a run stands: how many jobs there are, how many may run at a time,
/// which were started and which of those have ended, and which failed.
pub struct JobRunner {
    total: usize,
    limit: usize,
    /// One entry for each job that was started, in the order of their
    /// indices; `true` once the job's end was recorded.
    ended: Vec<bool>,
    /// How many entries of `ended` are `true`.
    finished: usize,
    failures: Vec<FailedJob>,
}

/// What a runner holds. Jobs are started in the order of their indices, so
/// the jobs that were started are those with an index below `ended.len()`.
pub struct JobRunnerView {
    pub total: nat,
    pub limit: nat,
    pub ended: Seq<bool>,
    pub failures: Seq<FailedJobView>,
}

/// How many of the entries are `true`.
pub open spec fn count_true(s: Seq<bool>) -> nat
    decreases s.len(),
{
    if s.len() == 0 {
        0
    } else {
        count_true(s.drop_last()) + if s.last() {
            1nat
        } else {
            0nat
        }
    }
}

impl JobRunnerView {
    /// How many jobs were started.
    pub open spec fn started(self) -> nat {
        self.ended.len()
    }

    /// How many jobs have ended.
    pub open spec fn finished(self) -> nat {
        count_true(self.ended)
    }

    /// Whether the job with the given index was started and has not ended.
    pub open spec fn is_running(self, index: int) -> bool {
        0 <= index < self.ended.len() && !self.ended[index]
    }

    /// How many jobs are running.
    pub open spec fn running(self) -> int {
        self.started() - self.finished()
    }

    /// Whether another job may be started now.
    pub open spec fn can_start(self) -> bool {
        self.started() < self.total && self.running() < self.limit
    }

    /// How many steps are left until the run is over: every job is started
    /// once and ends once.
    pub open spec fn steps_left(self) -> int {
        2 * self.total - self.started() - self.finished()
    }

    /// What holds of every runner: no job is started that the run does not
    /// have, and never more than `limit` run at a time.
    pub open spec fn wf(self) -> bool {
        &&& self.limit >= 1
        &&& self.started() <= self.total
        &&& 0 <= self.running() <= self.limit
    }
}

/// No more entries are `true` than there are entries.
pub proof fn lemma_count_true_bound(s: Seq<bool>)
    ensures
        count_true(s) <= s.len(),
    decreases s.len(),
{
    if s.len() > 0 {
        lemma_count_true_bound(s.drop_last());
    }
}

/// An entry that is added at the end counts where it is `true`.
pub proof fn lemma_count_true_push(s: Seq<bool>, b: bool)
    ensures
        count_true(s.push(b)) == count_true(s) + if b {
            1nat
        } else {
            0nat
        },
{
    assert(s.push(b).drop_last() =~= s);
}

/// Setting an entry that was `false` raises the count by one, and an entry
/// that is `false` leaves the count below the number of entries.
pub proof fn lemma_count_true_set(s: Seq<bool>, i: int)
    requires
        0 <= i < s.len(),
        !s[i],
    ensures
        count_true(s.update(i, true)) == count_true(s) + 1,
        count_true(s) < s.len(),
    decreases s.len(),
{
    let front = s.drop_last();
    if i == s.len() - 1 {
        assert(s.update(i, true).drop_last() =~= front);
        lemma_count_true_bound(front);
    } else {
        lemma_count_true_set(front, i);
        assert(s.update(i, true).drop_last() =~= front.update(i, true));
    }
}

/// Where all entries are counted, all are `true`.
pub proof fn lemma_count_true_all(s: Seq<bool>)
    requires
        count_true(s) == s.len(),
    ensures
        forall|i: int| 0 <= i < s.len() ==> s[i],
    decreases s.len(),
{
    if s.len() > 0 {
        lemma_count_true_bound(s.drop_last());
        lemma_count_true_all(s.drop_last());
        assert forall|i: int| 0 <= i < s.len() implies s[i] by {
            if i < s.len() - 1 {
                assert(s.drop_last()[i] == s[i]);
            }
        }
    }
}

impl View for JobRunner {
    type V = JobRunnerView;

    closed spec fn view(&self) -> JobRunnerView {
        JobRunnerView {
            total: self.total as nat,
            limit: self.limit as nat,
            ended: self.ended@,
            failures: failures_view(self.failures@),
        }
    }
}

impl JobRunner {
    /// What the constructor establishes and every method keeps: the runner
    /// is what `JobRunnerView::wf` says, and its count of ended jobs is right.
    pub closed spec fn wf(&self) -> bool {
        &&& self@.wf()
        &&& self.finished == count_true(self.ended@)
    }

    /// A runner for `total` jobs, none started, of which at most
    /// `max_jobs(jobs, max_cpus)` run at a time, and one where that is zero.
    pub fn new(total: usize, jobs: Option<u32>, max_cpus: u32) -> (runner: JobRunner)
        ensures
            runner.wf(),
            runner@.wf(),
            runner@ == (JobRunnerView {
                total: total as nat,
                limit: if spec_max_jobs(jobs, max_cpus) == 0 {
                    1
                } else {
                    spec_max_jobs(jobs, max_cpus) as nat
                },
                ended: Seq::empty(),
                failures: Seq::empty(),
            }),
    {
        let n = max_jobs(jobs, max_cpus);
        let limit: usize = if n == 0 {
            1
        } else {
            n as usize
        };
        let runner = JobRunner {
            total,
            limit,
            ended: Vec::new(),
            finished: 0,
            failures: Vec::new(),
        };
        proof {
            assert(runner@.failures =~= Seq::<FailedJobView>::empty());
        }
        runner
    }

    /// What to do next: start the next job where one is left and fewer than
    /// `limit` are running; else wait where one is running; else all is done.
    pub fn next_action(&mut self) -> (action: Action)
        requires
            old(self).wf(),
        ensures
            final(self).wf(),
            final(self)@.wf(),
            match action {
                Action::Start(index) => old(self)@.can_start() && index == old(self)@.started()
                    && final(self)@ == (JobRunnerView {
                    ended: old(self)@.ended.push(false),
                    ..old(self)@
                }),
                Action::Wait => !old(self)@.can_start() && old(self)@.running() > 0
                    && final(self)@ == old(self)@,
                Action::Done => old(self)@.started() == old(self)@.total && old(self)@.running()
                    == 0 && final(self)@ == old(self)@,
            },
    {
        let started = self.ended.len();
        if started < self.total && started - self.finished < self.limit {
            proof {
                lemma_count_true_push(self.ended@, false);
            }
            self.ended.push(false);
            Action::Start(started)
        } else if self.finished < started {
            Action::Wait
        } else {
            Action::Done
        }
    }

    /// Takes note that the job with the given index has ended. Nothing is
    /// noted, and `false` returned, where that job is not running: where it
    /// was never started, or its end was recorded before.
    pub fn record(&mut self, index: usize, outcome: JobOutcome) -> (noted: bool)
        requires
            old(self).wf(),
        ensures
            final(self).wf(),
            final(self)@.wf(),
            noted == old(self)@.is_running(index as int),
            !noted ==> final(self)@ == old(self)@,
            noted ==> final(self)@ == (JobRunnerView {
                ended: old(self)@.ended.update(index as int, true),
                failures: match outcome {
                    JobOutcome::Succeeded => old(self)@.failures,
                    JobOutcome::Failed(detail) => old(self)@.failures.push(
                        FailedJobView { index: index as nat, detail: detail@ },
                    ),
                },
                ..old(self)@
            }),
            noted ==> final(self)@.running() == old(self)@.running() - 1,
    {
        if index < self.ended.len() && !self.ended[index] {
            proof {
                lemma_count_true_set(self.ended@, index as int);
            }
            self.ended.set(index, true);
            self.finished = self.finished + 1;
            match outcome {
                JobOutcome::Succeeded => {},
                JobOutcome::Failed(detail) => {
                    let ghost before = self.failures@;
                    self.failures.push(FailedJob { index, detail });
                    proof {
                        assert(failures_view(self.failures@) =~= failures_view(before).push(
                            FailedJobView { index: index as nat, detail: detail@ },
                        ));
                    }
                },
            }
            true
        } else {
            false
        }
    }

    /// Stops the run: no job that was not started yet will be started.
    pub fn cancel(&mut self)
        requires
            old(self).wf(),
        ensures
            final(self).wf(),
            final(self)@.wf(),
            final(self)@ == (JobRunnerView { total: old(self)@.started(), ..old(self)@ }),
    {
        self.total = self.ended.len();
    }

    /// How many jobs are running.
    pub fn running(&self) -> (n: usize)
        requires
            self.wf(),
        ensures
            n == self@.running(),
    {
        self.ended.len() - self.finished
    }

    /// How the run ended: the number of jobs that have ended where none of
    /// them failed, else the failures in the order in which they were recorded.
    pub fn finish(self) -> (outcome: Result<usize, SplitError>)
        requires
            self.wf(),
        ensures
            match outcome {
                Ok(count) => self@.failures.len() == 0 && count == self@.finished(),
                Err(e) => self@.failures.len() > 0 && e@ == SplitErrorView::JobExecution(
                    self@.failures,
                ),
            },
    {
        if self.failures.len() == 0 {
            Ok(self.finished)
        } else {
            Err(SplitError::JobExecution(self.failures))
        }
    }
}

/// A run is over exactly when no step is left: as long as one is left, either
/// a job can be started or one is running, whose end will be recorded. Starting
/// a job and recording the end of one each take one step, so a run of `total`
/// jobs is over after `2 * total` steps, however many of the jobs fail; and
/// then every job has been started and has ended.
pub proof fn lemma_run_ends(runner: JobRunnerView)
    requires
        runner.wf(),
    ensures
        runner.steps_left() >= 0,
        runner.steps_left() == 0 <==> !runner.can_start() && runner.running() == 0,
        runner.steps_left() == 0 ==> runner.started() == runner.total && forall|i: int|
            0 <= i < runner.total ==> runner.ended[i],
        runner.can_start() ==> (JobRunnerView {
            ended: runner.ended.push(false),
            ..runner
        }).steps_left() == runner.steps_left() - 1,
        forall|i: int| #[trigger]
            runner.is_running(i) ==> (JobRunnerView {
                ended: runner.ended.update(i, true),
                ..runner
            }).steps_left() == runner.steps_left() - 1,
{
    lemma_count_true_push(runner.ended, false);
    if runner.steps_left() == 0 {
        lemma_count_true_all(runner.ended);
    }
    assert forall|i: int| #[trigger] runner.is_running(i) implies (JobRunnerView {
        ended: runner.ended.update(i, true),
        ..runner
    }).steps_left() == runner.steps_left() - 1 by {
        lemma_count_true_set(runner.ended, i);
    }
}

} // verus!
