//! The startup guard: of all the "connected" signals that a process receives,
//! exactly the first may start the periodic jobs.

use once_cell::sync::OnceCell;
use vstd::prelude::*;

verus! {

/// Seconds between two ticks of the fan-out loop.
pub const FANOUT_INTERVAL_SECS: u64 = 60;

/// Seconds between two health pings.
pub const HEALTH_INTERVAL_SECS: u64 = 60;

/// Seconds between two sweeps of the scratch directory.
pub const JANITOR_INTERVAL_SECS: u64 = 86_400;

/// `once_cell::sync::OnceCell`, a cell that is filled at most once. Nothing is
/// known of what a cell holds.
#[verifier::external_type_specification]
#[verifier::external_body]
#[verifier::reject_recursive_types(T)]
pub struct ExOnceCell<T>(OnceCell<T>);

/// `OnceCell::new`: a cell of its own. Nothing is claimed of it.
#[verifier::external_body]
fn empty_cell() -> OnceCell<()> {
    OnceCell::new()
}

/// `OnceCell::set` with the unit value; the answer is whether the cell took it.
///
/// Nothing is claimed of the answer here, because it depends on every call made
/// on the same cell before this one, in this thread or another. What the crate
/// relies on, and does not prove, is that the cell follows
/// [`SchedulerRunState::check_and_set`] one call at a time, also when calls race.
#[verifier::external_body]
fn fill(cell: &OnceCell<()>) -> bool {
    cell.set(()).is_ok()
}

/// The run state that the guard keeps: whether the periodic jobs have been
/// started. It begins as not started, is set by the first admission and is
/// never reset.
pub struct SchedulerRunState {
    pub started: bool,
}

impl SchedulerRunState {
    /// The state of a process that has admitted nobody yet.
    pub open spec fn fresh() -> SchedulerRunState {
        SchedulerRunState { started: false }
    }

    /// One check-and-set, taken as a whole: the answer is whether the jobs had
    /// not been started, and afterwards they count as started.
    pub open spec fn check_and_set(self) -> (bool, SchedulerRunState) {
        (!self.started, SchedulerRunState { started: true })
    }
}

/// The answers of `calls` admissions that take effect one after another, the
/// first of them on `state`.
pub open spec fn admissions(state: SchedulerRunState, calls: nat) -> Seq<bool>
    decreases calls,
{
    if calls == 0 {
        Seq::empty()
    } else {
        seq![state.check_and_set().0] + admissions(state.check_and_set().1, (calls - 1) as nat)
    }
}

/// How many of `answers` are `true`.
pub open spec fn admitted(answers: Seq<bool>) -> nat
    decreases answers.len(),
{
    if answers.len() == 0 {
        0
    } else {
        admitted(answers.drop_first()) + if answers[0] {
            1nat
        } else {
            0nat
        }
    }
}

/// Once the jobs are started, every later admission is refused.
pub proof fn lemma_started_admits_nobody(calls: nat)
    ensures
        admissions(SchedulerRunState { started: true }, calls).len() == calls,
        forall|i: int| 0 <= i < calls ==> !admissions(SchedulerRunState { started: true }, calls)[i],
        admitted(admissions(SchedulerRunState { started: true }, calls)) == 0,
    decreases calls,
{
    let started = SchedulerRunState { started: true };
    if calls > 0 {
        lemma_started_admits_nobody((calls - 1) as nat);
        let rest = admissions(started, (calls - 1) as nat);
        assert(admissions(started, calls).drop_first() == rest);
    }
}

/// Of any number of admissions on a fresh guard, at least one, exactly one is
/// granted, and it is the one that takes effect first. Each check-and-set is one
/// indivisible step, so calls that race take effect in some order, and this holds
/// of every order.
pub proof fn lemma_exactly_one_admission(calls: nat)
    requires
        calls >= 1,
    ensures
        admissions(SchedulerRunState::fresh(), calls).len() == calls,
        admissions(SchedulerRunState::fresh(), calls)[0],
        forall|i: int| 1 <= i < calls ==> !admissions(SchedulerRunState::fresh(), calls)[i],
        admitted(admissions(SchedulerRunState::fresh(), calls)) == 1,
{
    let started = SchedulerRunState { started: true };
    let rest = admissions(started, (calls - 1) as nat);
    lemma_started_admits_nobody((calls - 1) as nat);
    assert(admissions(SchedulerRunState::fresh(), calls).drop_first() == rest);
    assert forall|i: int| 1 <= i < calls implies !admissions(SchedulerRunState::fresh(), calls)[i] by {
        assert(admissions(SchedulerRunState::fresh(), calls)[i] == rest[i - 1]);
    }
}

/// The jobs that run for the rest of the process's life.
#[derive(Clone, Copy, Debug, PartialEq, Eq, Structural)]
pub enum PeriodicJob {
    /// The fan-out of the daily notifications.
    FanOut,
    /// The ping of the monitoring URL.
    HealthPing,
    /// The sweep of the scratch directory.
    Janitor,
}

impl PeriodicJob {
    /// Seconds that the job's loop sleeps between two ticks.
    pub open spec fn interval(self) -> u64 {
        match self {
            PeriodicJob::FanOut => FANOUT_INTERVAL_SECS,
            PeriodicJob::HealthPing => HEALTH_INTERVAL_SECS,
            PeriodicJob::Janitor => JANITOR_INTERVAL_SECS,
        }
    }

    /// Seconds that the job's loop sleeps between two ticks.
    pub fn interval_secs(&self) -> (secs: u64)
        ensures
            secs == self.interval(),
    {
        match self {
            PeriodicJob::FanOut => FANOUT_INTERVAL_SECS,
            PeriodicJob::HealthPing => HEALTH_INTERVAL_SECS,
            PeriodicJob::Janitor => JANITOR_INTERVAL_SECS,
        }
    }
}

/// The jobs that a "connected" signal is to start, given the guard's answer to
/// it: all three for the signal that was admitted, none for any other.
pub open spec fn jobs_for(admitted: bool) -> Seq<PeriodicJob> {
    if admitted {
        seq![PeriodicJob::FanOut, PeriodicJob::HealthPing, PeriodicJob::Janitor]
    } else {
        Seq::empty()
    }
}

/// The jobs that a "connected" signal is to start, given the guard's answer to it.
pub fn jobs_to_start(admitted: bool) -> (jobs: Vec<PeriodicJob>)
    ensures
        jobs@ == jobs_for(admitted),
{
    let mut jobs: Vec<PeriodicJob> = Vec::new();
    if admitted {
        jobs.push(PeriodicJob::FanOut);
        jobs.push(PeriodicJob::HealthPing);
        jobs.push(PeriodicJob::Janitor);
    }
    assert(jobs@ =~= jobs_for(admitted));
    jobs
}

/// The guard that a process makes once, before it connects, and hands to
/// whatever receives the "connected" signal.
pub struct StartupGuard {
    cell: OnceCell<()>,
}

impl StartupGuard {
    /// A guard that has admitted nobody yet.
    pub fn new() -> StartupGuard {
        StartupGuard { cell: empty_cell() }
    }

    /// Asks to be the one that starts the periodic jobs. The check and the set
    /// are one atomic step, so the call may race with others on the same guard.
    /// Which answer a call gets depends on the calls before it; see
    /// [`lemma_exactly_one_admission`].
    pub fn admit_once(&self) -> bool {
        fill(&self.cell)
    }

    /// Handles one "connected" signal: the jobs to start now. They are all
    /// three or none, and never an error.
    pub fn on_connected(&self) -> (jobs: Vec<PeriodicJob>)
        ensures
            jobs@ == jobs_for(true) || jobs@ == jobs_for(false),
    {
        jobs_to_start(self.admit_once())
    }
}

} // verus!
