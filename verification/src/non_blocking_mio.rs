use vstd::prelude::*;

verus! {

/// What is read of one readiness event of the multiplexer.
#[derive(Clone, Copy, Debug, PartialEq, Eq, Structural)]
pub struct Readiness {
    /// The token the stream was registered with: its place.
    pub token: usize,
    pub readable: bool,
    pub writable: bool,
    pub read_closed: bool,
}

/// What to do with one stream for one event.
#[derive(Clone, Copy, Debug, PartialEq, Eq, Structural)]
pub enum Plan {
    /// Nothing.
    Skip,
    /// Drain the stream; if the peer has closed, mark it done and take it out
    /// of the registry.
    Read,
    /// The peer has closed its side: mark the stream done, drain it and take
    /// it out of the registry.
    Drain,
}

/// The part one event has in reading every response.
pub open spec fn read_plan(done: Seq<bool>, event: Readiness) -> Plan {
    if done[event.token as int] {
        Plan::Skip
    } else if event.readable {
        Plan::Read
    } else if event.read_closed {
        Plan::Drain
    } else {
        Plan::Skip
    }
}

/// The part of one event in reading every response. A stream that is to be
/// drained because its peer closed is marked done here.
pub fn read_all_non_blocking(done: &mut Vec<bool>, event: Readiness) -> (plan: Plan)
    requires
        event.token < old(done)@.len(),
    ensures
        plan == read_plan(old(done)@, event),
        final(done)@ == if plan == Plan::Drain {
            old(done)@.update(event.token as int, true)
        } else {
            old(done)@
        },
{
    let i = event.token;
    if done[i] {
        return Plan::Skip;
    }
    if event.readable {
        Plan::Read
    } else if event.read_closed {
        done[i] = true;
        Plan::Drain
    } else {
        Plan::Skip
    }
}

/// The part of one event in sending every request: true if the request is
/// to be written to the stream the event names.
pub fn send_all(sent: &[bool], event: Readiness) -> (write: bool)
    requires
        event.token < sent@.len(),
    ensures
        write == (!sent@[event.token as int] && event.writable),
{
    !sent[event.token] && event.writable
}

} // verus!
