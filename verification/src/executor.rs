//! Waiting for a task on the calling thread.
//!
//! A caller that wants to block drives one task: it tries the task, and while the
//! task is not ready it parks its thread until something wakes it, or until a
//! deadline. The trying and the parking are the caller's business; what to do after
//! each try is decided here.

use vstd::prelude::*;

use crate::time::{Span, NANOS_PER_SEC};

verus! {

/// The mark of a wait that ran out of time.
#[derive(Clone, Copy, Debug, PartialEq, Eq, Structural)]
pub struct TimedOut;

/// The wake-up that a parked thread waits for: at most one is kept.
#[derive(Clone, Copy, Debug, PartialEq, Eq, Structural)]
pub struct Permit {
    pub available: bool,
}

impl Permit {
    /// The permit after a wake-up: one is kept, however many there were.
    pub open spec fn unparked(self) -> Permit {
        Permit { available: true }
    }

    /// Whether a thread that parks now has to block: it has unless a wake-up is kept.
    pub open spec fn must_block(self) -> bool {
        !self.available
    }

    /// The permit after the thread has parked: a wake-up that was kept is used up.
    pub open spec fn parked(self) -> Permit {
        Permit { available: false }
    }

    /// No wake-up is kept.
    pub fn new() -> (out: Permit)
        ensures
            out == (Permit { available: false }),
    {
        Permit { available: false }
    }

    /// Wakes the thread.
    pub fn unpark(&mut self)
        ensures
            *final(self) == old(self).unparked(),
    {
        self.available = true;
    }

    /// The thread is about to park. The result says whether it has to block.
    pub fn park(&mut self) -> (blocks: bool)
        ensures
            blocks == old(self).must_block(),
            *final(self) == old(self).parked(),
    {
        let blocks = !self.available;
        self.available = false;
        blocks
    }
}

/// A wake-up that comes before the thread parks is not lost: the thread then does
/// not block. It is kept once, however often it came: the next time the thread parks
/// without a new wake-up, it blocks.
pub proof fn lemma_wakeup_is_kept_once(permit: Permit)
    ensures
        !permit.unparked().must_block(),
        permit.unparked().unparked() == permit.unparked(),
        permit.unparked().parked().must_block(),
        permit.parked().must_block(),
{
}

/// How long to park.
#[derive(Clone, Copy, Debug, PartialEq, Eq, Structural)]
pub enum Wait {
    /// Until woken.
    Forever,
    /// Until woken, but no longer than this.
    UpTo(Span),
}

/// What to do after one try of the task.
#[derive(Debug)]
pub enum Verdict<O> {
    /// The task is done, with this output.
    Finished(O),
    /// The task is not done and the deadline has passed.
    TimedOut,
    /// The task is not done: park, then try again.
    Park(Wait),
}

/// The scheduler for one blocking wait: it remembers the deadline, as a point in
/// time on the caller's clock.
#[derive(Clone, Copy, Debug, PartialEq, Eq, Structural)]
pub struct ParkingExecutor {
    pub deadline: Option<Span>,
}

impl ParkingExecutor {
    /// Whether the deadline, if there is one, is a proper point in time.
    pub open spec fn wf(self) -> bool {
        match self.deadline {
            Some(d) => d.wf(),
            None => true,
        }
    }

    /// The point in time that lies `timeout` after `now`; where the clock cannot
    /// count that far, the last point that it can count to.
    pub open spec fn deadline_after(now: Span, timeout: Span) -> Span {
        if now.total() + timeout.total() < (u64::MAX + 1) * NANOS_PER_SEC {
            Span::from_total(now.total() + timeout.total())
        } else {
            Span::longest()
        }
    }

    /// Begins a wait at the time `now`. With a timeout the deadline is fixed once,
    /// here; without one the wait is unbounded. `driving` says whether this thread is
    /// already inside a wait of this kind: a wait cannot begin inside another.
    pub fn start(now: Span, timeout: Option<Span>, driving: bool) -> (out: ParkingExecutor)
        requires
            !driving,
            now.wf(),
            timeout is Some ==> timeout.unwrap().wf(),
        ensures
            out.wf(),
            timeout is None ==> out.deadline is None,
            timeout is Some ==> out.deadline == Some(Self::deadline_after(now, timeout.unwrap())),
    {
        match timeout {
            Some(limit) => match now.checked_add(&limit) {
                Some(deadline) => ParkingExecutor { deadline: Some(deadline) },
                None => ParkingExecutor {
                    deadline: Some(Span { secs: u64::MAX, nanos: NANOS_PER_SEC - 1 }),
                },
            },
            None => ParkingExecutor { deadline: None },
        }
    }

    /// What to do after a try at the time `now`: a ready task ends the wait with its
    /// output, deadline or not. Otherwise the wait has timed out once the deadline
    /// is reached, and else the thread parks, for no longer than is left until then.
    pub open spec fn verdict<O>(self, attempt: Option<O>, now: Span) -> Verdict<O> {
        match attempt {
            Some(output) => Verdict::Finished(output),
            None => match self.deadline {
                Some(deadline) => if now.total() >= deadline.total() {
                    Verdict::TimedOut
                } else {
                    Verdict::Park(
                        Wait::UpTo(Span::from_total((deadline.total() - now.total()) as nat)),
                    )
                },
                None => Verdict::Park(Wait::Forever),
            },
        }
    }

    /// Takes the outcome of one try of the task, made at the time `now`: `Some` with
    /// the output where the task was ready.
    pub fn after_attempt<O>(&self, attempt: Option<O>, now: Span) -> (out: Verdict<O>)
        requires
            self.wf(),
            now.wf(),
        ensures
            out == self.verdict(attempt, now),
    {
        match attempt {
            Some(output) => Verdict::Finished(output),
            None => match self.deadline {
                Some(deadline) => if now.at_least(&deadline) {
                    Verdict::TimedOut
                } else {
                    Verdict::Park(Wait::UpTo(deadline.saturating_sub(&now)))
                },
                None => Verdict::Park(Wait::Forever),
            },
        }
    }
}

/// The result of a wait whose task itself may fail: the task's own result where it
/// finished, and the error that `timeout_transform` makes of the timeout where it
/// did not.
pub fn execute_blocking_flatten_timeout<O, E, M>(
    outcome: Result<Result<O, E>, TimedOut>,
    timeout_transform: M,
) -> (out: Result<O, E>) where M: FnOnce(TimedOut) -> E
    requires
        outcome is Err ==> timeout_transform.requires((TimedOut,)),
    ensures
        outcome is Ok ==> out == outcome->Ok_0,
        outcome is Err ==> out is Err && timeout_transform.ensures((TimedOut,), out->Err_0),
{
    match outcome {
        Ok(result) => result,
        Err(timed_out) => Err(timeout_transform(timed_out)),
    }
}

/// A task that is never ready ends in a timeout at the first try that is made at or
/// after the deadline, and before that the thread is parked for exactly the time that
/// is left until the deadline, so that the next try is due then at the latest.
pub proof fn lemma_deadline_bounds_the_wait<O>(executor: ParkingExecutor, now: Span)
    requires
        executor.wf(),
        now.wf(),
        executor.deadline is Some,
    ensures
        now.total() >= executor.deadline.unwrap().total() ==> executor.verdict(None::<O>, now)
            == Verdict::<O>::TimedOut,
        now.total() < executor.deadline.unwrap().total() ==> executor.verdict(None::<O>, now)
            == Verdict::<O>::Park(
            Wait::UpTo(Span::from_total((executor.deadline.unwrap().total() - now.total()) as nat)),
        ),
        now.total() < executor.deadline.unwrap().total() ==> now.total() + Span::from_total(
            (executor.deadline.unwrap().total() - now.total()) as nat,
        ).total() == executor.deadline.unwrap().total(),
{
    let deadline = executor.deadline.unwrap();
    if now.total() < deadline.total() {
        assert(deadline.total() < (u64::MAX + 1) * NANOS_PER_SEC) by (nonlinear_arith)
            requires
                deadline.total() == deadline.secs * NANOS_PER_SEC + deadline.nanos,
                deadline.secs <= u64::MAX,
                deadline.nanos < NANOS_PER_SEC,
        ;
        Span::lemma_total_of((deadline.total() - now.total()) as nat);
    }
}

} // verus!
