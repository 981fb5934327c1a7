use crate::sys_libc::SocketFd;
use crate::task::Interest;
use vstd::prelude::*;

verus! {

/// What the reactor was told: whom to notify, and for what.
pub struct Registration<W> {
    pub socket: i32,
    pub interest: Interest,
    pub waker: W,
}

/// The call on the multiplexer that a registration needs.
#[derive(Clone, Copy, Debug, PartialEq, Eq, Structural)]
pub enum Arm {
    /// Nothing was registered before: arm the socket for the first time.
    Register,
    /// Something was: replace its interest.
    Reregister,
}

/// The reactor's state: at most one registration at any time. `W` is the
/// type of the wakers it stores.
pub struct Reactor<W> {
    current: Option<Registration<W>>,
}

impl<W> View for Reactor<W> {
    type V = Option<Registration<W>>;

    closed spec fn view(&self) -> Option<Registration<W>> {
        self.current
    }
}

/// What the reactor holds after a registration: that registration, whatever
/// it held before.
pub open spec fn after_register<W>(
    current: Option<Registration<W>>,
    registration: Registration<W>,
) -> Option<Registration<W>> {
    Some(registration)
}

/// The multiplexer call that registering needs when the reactor holds
/// `current`.
pub open spec fn arm_for<W>(current: Option<Registration<W>>) -> Arm {
    if current is Some {
        Arm::Reregister
    } else {
        Arm::Register
    }
}

/// The wakers to invoke when `events` readiness events were observed while
/// the reactor held `current`: the stored one for each event, whichever
/// socket the event names.
pub open spec fn wakes_for<W>(current: Option<Registration<W>>, events: nat) -> Seq<W> {
    match current {
        Some(registration) => Seq::new(events, |i: int| registration.waker),
        None => Seq::empty(),
    }
}

/// A reactor with nothing registered.
pub fn initialize_reactor<W>() -> (reactor: Reactor<W>)
    ensures
        reactor@ is None,
{
    Reactor { current: None }
}

/// Makes (`source`, `interest`, `waker`) the reactor's one registration,
/// whatever it held, and says how to arm the multiplexer for it.
pub fn register<W>(reactor: &mut Reactor<W>, source: &SocketFd, interest: Interest, waker: W) -> (arm:
    Arm)
    ensures
        final(reactor)@ == after_register(
            old(reactor)@,
            Registration { socket: source.0, interest, waker },
        ),
        arm == arm_for(old(reactor)@),
{
    let is_reregister = reactor.current.is_some();
    reactor.current = Some(Registration { socket: source.0, interest, waker });
    if is_reregister {
        Arm::Reregister
    } else {
        Arm::Register
    }
}

/// One turn of the reactor's loop: the multiplexer returned with `events`
/// readiness events. Gives the wakers to invoke, one per event.
pub fn run_reactor<W>(reactor: &Reactor<W>, events: usize) -> (wakes: Vec<&W>)
    ensures
        wakes@.len() == wakes_for(reactor@, events as nat).len(),
        forall|i: int| 0 <= i < wakes@.len() ==> *wakes@[i] == wakes_for(reactor@, events as nat)[i],
{
    let mut wakes: Vec<&W> = Vec::new();
    match &reactor.current {
        Some(registration) => {
            let mut seen: usize = 0;
            while seen < events
                invariant
                    seen <= events,
                    reactor.current == Some(*registration),
                    wakes@.len() == seen,
                    forall|i: int| 0 <= i < wakes@.len() ==> *wakes@[i] == registration.waker,
                decreases events - seen,
            {
                wakes.push(&registration.waker);
                seen = seen + 1;
            }
        },
        None => {},
    }
    wakes
}

/// A registration replaces, it does not queue. After registering `first` and
/// then `second`, with no event between, the reactor holds `second` alone, the
/// second call re-arms the multiplexer, and every event wakes the second
/// waker and no other.
pub proof fn lemma_registration_overwrite<W>(
    before: Option<Registration<W>>,
    first: Registration<W>,
    second: Registration<W>,
    events: nat,
)
    ensures
        after_register(after_register(before, first), second) == Some(second),
        arm_for(after_register(before, first)) == Arm::Reregister,
        wakes_for(after_register(after_register(before, first), second), events).len() == events,
        forall|i: int|
            0 <= i < events ==> wakes_for(
                after_register(after_register(before, first), second),
                events,
            )[i] == second.waker,
{
}

} // verus!
