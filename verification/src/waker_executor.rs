use crate::error::Error;
use crate::task::Poll;
use crate::waker::{after_park, park_resumes, Parker};
use vstd::prelude::*;

verus! {

/// How long the naive executor sleeps between two attempts, in milliseconds.
pub const NAIVE_SLEEP_MILLIS: u64 = 20;

/// How an executor waits while its task is suspended.
#[derive(Clone, Copy, Debug, PartialEq, Eq, Structural)]
pub enum Backoff {
    /// Sleep `NAIVE_SLEEP_MILLIS` and attempt again, ready or not.
    Sleep,
    /// Block on the multiplexer until it reports any event, then attempt
    /// again.
    Multiplexer,
    /// Park until the task's waker has been invoked.
    Park,
}

/// Where an executor stands in its run.
#[derive(Clone, Copy, Debug, PartialEq, Eq, Structural)]
pub enum ExecutorState {
    /// The next thing to do is an attempt at progress on the task.
    Attempting,
    /// The task is suspended: the executor waits.
    Suspended,
    /// The task is done or has failed: the run is over.
    Finished,
}

/// What the executor's thread does after an attempt.
#[derive(Debug)]
pub enum Step<T> {
    /// Return the task's result to the caller.
    Return(T),
    /// Give the error to the caller at once: nothing is retried.
    Abort(Error),
    /// Wait in this way, then attempt again.
    Wait(Backoff),
}

/// Drives one task to completion: attempt, wait while suspended, attempt
/// again. It holds the one waker, of type `W`, that every suspension of the
/// run is registered with.
pub struct Executor<W> {
    backoff: Backoff,
    state: ExecutorState,
    waker: W,
}

/// An executor as a mathematical value.
pub struct ExecutorModel<W> {
    pub backoff: Backoff,
    pub state: ExecutorState,
    pub waker: W,
}

impl<W> ExecutorModel<W> {
    /// True if the executor may attempt progress now.
    pub open spec fn may_attempt(self) -> bool {
        self.state is Attempting
    }

    /// True if only a wake can end the executor's wait.
    pub open spec fn parked(self) -> bool {
        self.backoff == Backoff::Park && self.state is Suspended
    }

    /// The executor after an attempt that reported `report`.
    pub open spec fn after_report<T>(self, report: Result<Poll<T>, Error>) -> ExecutorModel<W> {
        ExecutorModel {
            state: match report {
                Ok(Poll::Pending) => ExecutorState::Suspended,
                _ => ExecutorState::Finished,
            },
            ..self
        }
    }

    /// What to do after an attempt that reported `report`.
    pub open spec fn step<T>(self, report: Result<Poll<T>, Error>) -> Step<T> {
        match report {
            Ok(Poll::Ready(result)) => Step::Return(result),
            Ok(Poll::Pending) => Step::Wait(self.backoff),
            Err(error) => Step::Abort(error),
        }
    }

    /// The executor after its thread has looked at a parker whose flag was
    /// `woken`: a parked executor goes on if the flag was set, and nothing
    /// else changes anything.
    pub open spec fn after_look(self, woken: bool) -> ExecutorModel<W> {
        if self.parked() && park_resumes(woken) {
            ExecutorModel { state: ExecutorState::Attempting, ..self }
        } else {
            self
        }
    }

    /// The flag after that look: a parked executor's look is a park, any
    /// other leaves the flag alone.
    pub open spec fn flag_after_look(self, woken: bool) -> bool {
        if self.parked() {
            after_park(woken)
        } else {
            woken
        }
    }

    /// The executor after a sleep or a wait on the multiplexer has ended.
    /// Under the park policy no such thing ends a wait.
    pub open spec fn after_resume(self) -> ExecutorModel<W> {
        if self.state is Suspended && self.backoff != Backoff::Park {
            ExecutorModel { state: ExecutorState::Attempting, ..self }
        } else {
            self
        }
    }

    /// The executor after `looks` looks at a parker that nobody woke.
    pub open spec fn after_idle_looks(self, looks: nat) -> ExecutorModel<W>
        decreases looks,
    {
        if looks == 0 {
            self
        } else {
            self.after_idle_looks((looks - 1) as nat).after_look(false).after_resume()
        }
    }
}

impl<W> View for Executor<W> {
    type V = ExecutorModel<W>;

    closed spec fn view(&self) -> ExecutorModel<W> {
        ExecutorModel { backoff: self.backoff, state: self.state, waker: self.waker }
    }
}

impl<W> Executor<W> {
    /// An executor about to make its first attempt.
    pub fn new(backoff: Backoff, waker: W) -> (executor: Executor<W>)
        ensures
            executor@ == (ExecutorModel { backoff, state: ExecutorState::Attempting, waker }),
    {
        Executor { backoff, state: ExecutorState::Attempting, waker }
    }

    /// The waker to register a suspension with.
    pub fn waker(&self) -> (waker: &W)
        ensures
            *waker == self@.waker,
    {
        &self.waker
    }

    pub fn may_attempt(&self) -> (may: bool)
        ensures
            may == self@.may_attempt(),
    {
        match self.state {
            ExecutorState::Attempting => true,
            _ => false,
        }
    }

    /// Takes the report of one attempt on the task and decides what the
    /// thread does next. An executor that waits makes no attempt, so there is
    /// none to report then.
    pub fn block_on<T>(&mut self, report: Result<Poll<T>, Error>) -> (step: Step<T>)
        requires
            old(self)@.may_attempt(),
        ensures
            final(self)@ == old(self)@.after_report(report),
            step == old(self)@.step(report),
    {
        match report {
            Ok(Poll::Ready(result)) => {
                self.state = ExecutorState::Finished;
                Step::Return(result)
            },
            Ok(Poll::Pending) => {
                self.state = ExecutorState::Suspended;
                Step::Wait(self.backoff)
            },
            Err(error) => {
                self.state = ExecutorState::Finished;
                Step::Abort(error)
            },
        }
    }

    /// One look at the parker by the executor's thread, inside the parker's
    /// critical section. A parked executor parks on it: with a wake pending
    /// it goes back to attempting, without one it stays as it is and the
    /// thread must block on the condition variable. Any other executor
    /// leaves the parker alone. Says whether the executor may attempt now.
    pub fn park(&mut self, parker: &mut Parker) -> (may: bool)
        ensures
            final(self)@ == old(self)@.after_look(old(parker)@),
            final(parker)@ == old(self)@.flag_after_look(old(parker)@),
            may == final(self)@.may_attempt(),
    {
        let parked = match (self.backoff, self.state) {
            (Backoff::Park, ExecutorState::Suspended) => true,
            _ => false,
        };
        if parked {
            if parker.park() {
                self.state = ExecutorState::Attempting;
            }
        }
        self.may_attempt()
    }

    /// The sleep, or the wait on the multiplexer, has ended: the executor
    /// attempts again. A parked executor is not moved by this.
    pub fn resume(&mut self)
        ensures
            final(self)@ == old(self)@.after_resume(),
    {
        let waits = match (self.backoff, self.state) {
            (Backoff::Park, _) => false,
            (_, ExecutorState::Suspended) => true,
            _ => false,
        };
        if waits {
            self.state = ExecutorState::Attempting;
        }
    }
}

/// No busy-waiting. A suspension parks the executor, and a parked executor
/// makes no attempt until a wake has come: however often its thread looks at
/// a parker that nobody woke, or is told that some other wait has ended, it
/// stays suspended and the flag stays clear. One look after a wake lets it
/// attempt again and uses the wake up.
pub proof fn lemma_no_busy_waiting<W, T>(
    executor: ExecutorModel<W>,
    report: Result<Poll<T>, Error>,
    looks: nat,
)
    requires
        executor.backoff == Backoff::Park,
        report is Ok,
        report->Ok_0 is Pending,
    ensures
        executor.after_report(report).parked(),
        executor.after_report(report).after_idle_looks(looks) == executor.after_report(report),
        !executor.after_report(report).after_idle_looks(looks).may_attempt(),
        executor.after_report(report).flag_after_look(false) == false,
        executor.after_report(report).after_idle_looks(looks).after_look(true).may_attempt(),
        executor.after_report(report).after_idle_looks(looks).flag_after_look(true) == false,
    decreases looks,
{
    if looks > 0 {
        lemma_no_busy_waiting(executor, report, (looks - 1) as nat);
    }
}

/// A run ends with the task: a result is returned and an error is given up
/// at once, and after either the executor attempts nothing more.
pub proof fn lemma_run_ends_with_task<W, T>(
    executor: ExecutorModel<W>,
    report: Result<Poll<T>, Error>,
)
    requires
        !(report is Ok && report->Ok_0 is Pending),
    ensures
        executor.after_report(report).state == ExecutorState::Finished,
        !executor.after_report(report).may_attempt(),
        report matches Ok(Poll::Ready(result)) ==> executor.step(report) == Step::Return(result),
        report matches Err(error) ==> executor.step(report) == Step::<T>::Abort(error),
        executor.after_report(report).after_look(true) == executor.after_report(report),
        executor.after_report(report).after_resume() == executor.after_report(report),
{
}

/// One waker serves the whole run: no report, look or resumption changes
/// the waker that suspensions are registered with, nor the way of waiting.
pub proof fn lemma_same_waker<W, T>(
    executor: ExecutorModel<W>,
    report: Result<Poll<T>, Error>,
    woken: bool,
)
    ensures
        executor.after_report(report).waker == executor.waker,
        executor.after_look(woken).waker == executor.waker,
        executor.after_resume().waker == executor.waker,
        executor.after_report(report).backoff == executor.backoff,
        executor.after_look(woken).backoff == executor.backoff,
        executor.after_resume().backoff == executor.backoff,
{
}

} // verus!
