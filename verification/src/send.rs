use crate::error::Error;
use crate::sys_libc::SocketFd;
use crate::task::{Interest, Progress, Suspension, WriteOutcome};
use vstd::prelude::*;
use vstd::string::*;

verus! {

#[derive(Clone, Copy, Debug, PartialEq, Eq, Structural)]
pub enum SendState {
    Sending,
    Done,
}

/// Writes a request to a socket, as many attempts as the socket needs.
pub struct SendFuture {
    stream: i32,
    request: Vec<u8>,
    sent: usize,
    state: SendState,
}

/// A send operation as a mathematical value.
pub struct SendModel {
    pub stream: i32,
    pub request: Seq<u8>,
    pub sent: usize,
    pub state: SendState,
}

impl SendModel {
    /// Never more sent than there is, and done only when all is sent.
    pub open spec fn wf(self) -> bool {
        &&& self.request.len() <= usize::MAX
        &&& self.sent <= self.request.len()
        &&& self.state == SendState::Done ==> self.sent == self.request.len()
    }

    /// The number of bytes still to be written.
    pub open spec fn remaining(self) -> int {
        self.request.len() - self.sent
    }

    /// The bytes still to be written: what the next write is offered.
    pub open spec fn unsent(self) -> Seq<u8> {
        self.request.subrange(self.sent as int, self.request.len() as int)
    }

    /// The writable interest on this operation's socket.
    pub open spec fn suspension(self) -> Suspension {
        Suspension { socket: self.stream, interest: Interest::Writable }
    }

    /// A socket never takes more than it was offered.
    pub open spec fn accepts(self, written: WriteOutcome) -> bool {
        written matches WriteOutcome::Wrote(n) ==> n <= self.remaining()
    }

    /// The operation after one write outcome. Only bytes taken change it.
    pub open spec fn after(self, written: WriteOutcome) -> SendModel {
        match (self.state, written) {
            (SendState::Sending, WriteOutcome::Wrote(n)) => SendModel {
                sent: (self.sent + n) as usize,
                state: if self.sent + n >= self.request.len() {
                    SendState::Done
                } else {
                    SendState::Sending
                },
                ..self
            },
            _ => self,
        }
    }

    /// What the attempt that observed `written` reports.
    pub open spec fn report(self, written: WriteOutcome) -> Result<Progress<usize>, Error> {
        match (self.state, written) {
            (SendState::Done, _) => Ok(Progress::Done(self.sent)),
            (SendState::Sending, WriteOutcome::Wrote(n)) => if self.sent + n
                >= self.request.len() {
                Ok(Progress::Done((self.sent + n) as usize))
            } else {
                Ok(Progress::Suspend(self.suspension()))
            },
            (SendState::Sending, WriteOutcome::WouldBlock) => Ok(
                Progress::Suspend(self.suspension()),
            ),
            (SendState::Sending, WriteOutcome::Failed) => Err(Error::IoError),
        }
    }

    /// The operation after a run of write outcomes, oldest first.
    pub open spec fn after_all(self, writes: Seq<WriteOutcome>) -> SendModel
        decreases writes.len(),
    {
        if writes.len() == 0 {
            self
        } else {
            self.after_all(writes.drop_last()).after(writes.last())
        }
    }

    /// Every outcome of the run is one the socket could have given at its
    /// time.
    pub open spec fn admits(self, writes: Seq<WriteOutcome>) -> bool {
        forall|i: int|
            0 <= i < writes.len() ==> #[trigger] self.after_all(writes.take(i)).accepts(writes[i])
    }
}

/// The bytes that a run of writes took in all.
pub open spec fn taken(writes: Seq<WriteOutcome>) -> nat
    decreases writes.len(),
{
    if writes.len() == 0 {
        0
    } else {
        taken(writes.drop_last()) + match writes.last() {
            WriteOutcome::Wrote(n) => n as nat,
            _ => 0,
        }
    }
}

/// True of a run in which the socket answered a write at least once with a
/// count.
pub open spec fn wrote_once(writes: Seq<WriteOutcome>) -> bool {
    exists|i: int| 0 <= i < writes.len() && #[trigger] writes[i] is Wrote
}

impl View for SendFuture {
    type V = SendModel;

    closed spec fn view(&self) -> SendModel {
        SendModel {
            stream: self.stream,
            request: self.request@,
            sent: self.sent,
            state: self.state,
        }
    }
}

/// Starts sending `request` on `stream`: nothing written yet.
pub fn send_async(stream: &SocketFd, request: &str) -> (future: SendFuture)
    ensures
        future@ == (SendModel {
            stream: stream.0,
            request: request.spec_bytes(),
            sent: 0,
            state: SendState::Sending,
        }),
        future@.wf(),
{
    let mut bytes: Vec<u8> = Vec::new();
    bytes.extend_from_slice(request.as_bytes());
    assert(bytes@ =~= request.spec_bytes());
    assert(bytes@.len() == bytes.len());
    SendFuture { stream: stream.0, request: bytes, sent: 0, state: SendState::Sending }
}

impl SendFuture {
    #[verifier::type_invariant]
    spec fn inv(self) -> bool {
        self@.wf()
    }

    /// True once the whole request has been written. From then on `poll`
    /// needs no write: it reports the same total whatever it is handed.
    pub fn is_done(&self) -> (done: bool)
        ensures
            done == (self@.state == SendState::Done),
            self@.wf(),
    {
        proof {
            use_type_invariant(self);
        }
        match self.state {
            SendState::Done => true,
            SendState::Sending => false,
        }
    }

    /// The descriptor of the socket written to.
    pub fn stream(&self) -> (stream: i32)
        ensures
            stream == self@.stream,
    {
        self.stream
    }

    /// The bytes to offer to the next write.
    pub fn unsent(&self) -> (bytes: &[u8])
        ensures
            bytes@ == self@.unsent(),
            bytes@.len() == self@.remaining(),
            self@.wf(),
    {
        proof {
            use_type_invariant(self);
        }
        let all = self.request.as_slice();
        &all[self.sent..all.len()]
    }

    /// One attempt at progress, given what the write of the unsent bytes
    /// returned.
    pub fn poll(&mut self, written: WriteOutcome) -> (report: Result<Progress<usize>, Error>)
        requires
            old(self)@.state == SendState::Sending ==> old(self)@.accepts(written),
        ensures
            final(self)@ == old(self)@.after(written),
            report == old(self)@.report(written),
            final(self)@.wf(),
    {
        proof {
            use_type_invariant(&*self);
        }
        match self.state {
            SendState::Sending => {
                let suspension = Suspension { socket: self.stream, interest: Interest::Writable };
                match written {
                    WriteOutcome::Wrote(n) => {
                        self.sent = self.sent + n;
                        if self.sent >= self.request.len() {
                            self.state = SendState::Done;
                            Ok(Progress::Done(self.sent))
                        } else {
                            Ok(Progress::Suspend(suspension))
                        }
                    },
                    WriteOutcome::WouldBlock => Ok(Progress::Suspend(suspension)),
                    WriteOutcome::Failed => Err(Error::IoError),
                }
            },
            SendState::Done => Ok(Progress::Done(self.sent)),
        }
    }
}

/// Whatever the socket gives back, a send keeps its request and socket, has
/// sent exactly the bytes that were taken, and is well formed.
pub proof fn lemma_send_progress(start: SendModel, writes: Seq<WriteOutcome>)
    requires
        start.wf(),
        start.admits(writes),
    ensures
        start.after_all(writes).wf(),
        start.after_all(writes).stream == start.stream,
        start.after_all(writes).request == start.request,
        start.after_all(writes).sent == start.sent + taken(writes),
        start.state == SendState::Done ==> start.after_all(writes) == start,
    decreases writes.len(),
{
    if writes.len() > 0 {
        let earlier = writes.drop_last();
        assert forall|i: int| 0 <= i < earlier.len() implies #[trigger] start.after_all(
            earlier.take(i),
        ).accepts(earlier[i]) by {
            assert(earlier.take(i) =~= writes.take(i));
            assert(start.after_all(writes.take(i)).accepts(writes[i]));
        }
        lemma_send_progress(start, earlier);
        assert(writes.take(writes.len() - 1) =~= earlier);
        assert(start.after_all(writes.take(writes.len() - 1)).accepts(writes[writes.len() - 1]));
    }
}

/// Send completes with the whole request and not before. Over any run of
/// write outcomes that the socket could have given, however small the single
/// counts: the operation is done only if every byte was taken, it is done as
/// soon as the counts add up to the length of the request, and once done it
/// reports that length as the total.
pub proof fn lemma_send_completeness(start: SendModel, writes: Seq<WriteOutcome>)
    requires
        start.wf(),
        start.state == SendState::Sending,
        start.admits(writes),
    ensures
        start.after_all(writes).state == SendState::Done ==> start.sent + taken(writes)
            == start.request.len(),
        start.sent + taken(writes) == start.request.len() && wrote_once(writes)
            ==> start.after_all(writes).state == SendState::Done,
        start.after_all(writes).state == SendState::Done ==> forall|next: WriteOutcome|
            #[trigger] start.after_all(writes).report(next) == Ok::<Progress<usize>, Error>(
                Progress::Done(start.request.len() as usize),
            ),
    decreases writes.len(),
{
    lemma_send_progress(start, writes);
    if writes.len() > 0 {
        let earlier = writes.drop_last();
        assert forall|i: int| 0 <= i < earlier.len() implies #[trigger] start.after_all(
            earlier.take(i),
        ).accepts(earlier[i]) by {
            assert(earlier.take(i) =~= writes.take(i));
            assert(start.after_all(writes.take(i)).accepts(writes[i]));
        }
        lemma_send_progress(start, earlier);
        lemma_send_completeness(start, earlier);
        assert(writes.take(writes.len() - 1) =~= earlier);
        assert(start.after_all(writes.take(writes.len() - 1)).accepts(writes[writes.len() - 1]));
        if start.sent + taken(writes) == start.request.len() && wrote_once(writes) {
            let i = choose|i: int| 0 <= i < writes.len() && #[trigger] writes[i] is Wrote;
            if i < earlier.len() {
                assert(earlier[i] is Wrote);
                assert(wrote_once(earlier));
            }
        }
    }
}

} // verus!
