use crate::task::{Poll, Suspension};
use crate::waker::after_wake;
use crate::waker_executor::{Backoff, ExecutorModel};
use crate::waker_reactor::{after_register, wakes_for, Registration};
use vstd::prelude::*;

verus! {

/// What the two threads of the runtime share and drive, taken together: the
/// executor, the reactor's registration and the parker's flag.
pub struct Runtime<W> {
    pub executor: ExecutorModel<W>,
    pub reactor: Option<Registration<W>>,
    pub woken: bool,
}

/// What happens while a task is suspended.
pub enum Event {
    /// The reactor's thread observed this many readiness events and invoked
    /// the wakers for them.
    Readiness(nat),
    /// The executor's thread looked at the parker.
    Look,
}

/// True of the events that bring a wake: readiness, one event at least.
pub open spec fn wakes(event: Event) -> bool {
    event matches Event::Readiness(events) && events > 0
}

/// True if a wake has come by the end of the trace, or was pending before
/// it.
pub open spec fn arrived(woken: bool, trace: Seq<Event>) -> bool {
    woken || exists|i: int| 0 <= i < trace.len() && wakes(#[trigger] trace[i])
}

/// True if some look of the trace came when a wake had come or was pending.
pub open spec fn found(woken: bool, trace: Seq<Event>) -> bool {
    exists|j: int| 0 <= j < trace.len() && #[trigger] trace[j] is Look && arrived(woken, trace.take(j))
}

impl<W> Runtime<W> {
    /// The runtime when an attempt has just suspended on `suspension`: the
    /// suspension is registered with the executor's own waker and the
    /// executor waits. The flag is as it was.
    pub open spec fn suspended(
        executor: ExecutorModel<W>,
        reactor: Option<Registration<W>>,
        woken: bool,
        suspension: Suspension,
    ) -> Runtime<W> {
        Runtime {
            executor: executor.after_report::<()>(Ok(Poll::Pending)),
            reactor: after_register(
                reactor,
                Registration {
                    socket: suspension.socket,
                    interest: suspension.interest,
                    waker: executor.waker,
                },
            ),
            woken,
        }
    }

    /// The runtime after one event. The wakers that the reactor invokes are
    /// the executor's, so invoking any sets the flag of the executor's
    /// parker.
    pub open spec fn after(self, event: Event) -> Runtime<W> {
        match event {
            Event::Readiness(events) => Runtime {
                woken: if wakes_for(self.reactor, events).len() > 0 {
                    after_wake(self.woken)
                } else {
                    self.woken
                },
                ..self
            },
            Event::Look => Runtime {
                executor: self.executor.after_look(self.woken),
                woken: self.executor.flag_after_look(self.woken),
                ..self
            },
        }
    }

    /// The runtime after a trace of events, oldest first.
    pub open spec fn after_all(self, trace: Seq<Event>) -> Runtime<W>
        decreases trace.len(),
    {
        if trace.len() == 0 {
            self
        } else {
            self.after_all(trace.drop_last()).after(trace.last())
        }
    }
}

/// No wake is lost and none is invented. From the moment a task suspends
/// under the park policy, and whatever the two threads then do in whatever
/// order: the executor attempts again exactly if its thread has looked at the
/// parker at a time when readiness had been observed or a wake was pending
/// from before. Whether the wake came before the thread's first look or
/// after any number of them makes no difference; until a look finds it, it
/// stays in the flag; and the registration stays as it was made.
pub proof fn lemma_no_wake_lost_none_invented<W>(
    executor: ExecutorModel<W>,
    reactor: Option<Registration<W>>,
    woken: bool,
    suspension: Suspension,
    trace: Seq<Event>,
)
    requires
        executor.backoff == Backoff::Park,
    ensures
        ({
            let start = Runtime::suspended(executor, reactor, woken, suspension);
            let end = start.after_all(trace);
            &&& end.executor.may_attempt() <==> found(woken, trace)
            &&& !end.executor.may_attempt() ==> end.executor == start.executor && end.woken
                == arrived(woken, trace)
            &&& end.reactor == start.reactor
            &&& end.executor.waker == executor.waker
        }),
    decreases trace.len(),
{
    let start = Runtime::suspended(executor, reactor, woken, suspension);
    if trace.len() > 0 {
        let earlier = trace.drop_last();
        let last = trace.last();
        let before = start.after_all(earlier);
        lemma_no_wake_lost_none_invented(executor, reactor, woken, suspension, earlier);
        assert(trace.take(trace.len() - 1) =~= earlier);
        assert forall|j: int| 0 <= j < earlier.len() implies trace.take(j) == earlier.take(j) by {
            assert(trace.take(j) =~= earlier.take(j));
        }
        if found(woken, earlier) {
            let j = choose|j: int|
                0 <= j < earlier.len() && #[trigger] earlier[j] is Look && arrived(
                    woken,
                    earlier.take(j),
                );
            assert(trace[j] is Look && arrived(woken, trace.take(j)));
        }
        if found(woken, trace) && !found(woken, earlier) {
            let j = choose|j: int|
                0 <= j < trace.len() && #[trigger] trace[j] is Look && arrived(
                    woken,
                    trace.take(j),
                );
            if j < earlier.len() {
                assert(earlier[j] is Look && arrived(woken, earlier.take(j)));
            }
        }
        if arrived(woken, earlier) {
            if !woken {
                let i = choose|i: int| 0 <= i < earlier.len() && wakes(#[trigger] earlier[i]);
                assert(wakes(trace[i]));
            }
        }
        if arrived(woken, trace) && !arrived(woken, earlier) {
            let i = choose|i: int| 0 <= i < trace.len() && wakes(#[trigger] trace[i]);
            if i < earlier.len() {
                assert(wakes(earlier[i]));
            }
        }
        match last {
            Event::Readiness(events) => {
                if events > 0 {
                    assert(wakes(trace[trace.len() - 1]));
                }
            },
            Event::Look => {
                if arrived(woken, earlier) {
                    assert(trace[trace.len() - 1] is Look);
                }
            },
        }
    }
}

} // verus!
