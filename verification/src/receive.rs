use crate::error::Error;
use crate::sys_libc::SocketFd;
use crate::task::{bytes_report, Interest, Progress, ReadOutcome, Suspension};
use vstd::prelude::*;

verus! {

/// The most bytes one read attempt may bring.
pub const SCRATCH_LEN: usize = 1024;

#[derive(Clone, Copy, Debug, PartialEq, Eq, Structural)]
pub enum ReceiveState {
    Receiving,
    Done,
}

/// Reads from a socket until the peer closes, collecting every byte.
pub struct ReceiveFuture {
    stream: i32,
    response: Vec<u8>,
    state: ReceiveState,
}

/// A receive operation as a mathematical value.
pub struct ReceiveModel {
    pub stream: i32,
    pub response: Seq<u8>,
    pub state: ReceiveState,
}

impl ReceiveModel {
    /// The readable interest on this operation's socket.
    pub open spec fn suspension(self) -> Suspension {
        Suspension { socket: self.stream, interest: Interest::Readable }
    }

    /// The operation after one read outcome. Only data changes it: bytes are
    /// appended, and a read of nothing completes it.
    pub open spec fn after(self, read: ReadOutcome) -> ReceiveModel {
        match (self.state, read) {
            (ReceiveState::Receiving, ReadOutcome::Data(bytes)) => if bytes@.len() == 0 {
                ReceiveModel { state: ReceiveState::Done, ..self }
            } else {
                ReceiveModel { response: self.response + bytes@, ..self }
            },
            _ => self,
        }
    }

    /// What the attempt that observed `read` reports.
    pub open spec fn report(self, read: ReadOutcome) -> Result<Progress<Seq<u8>>, Error> {
        match (self.state, read) {
            (ReceiveState::Done, _) => Ok(Progress::Done(self.response)),
            (ReceiveState::Receiving, ReadOutcome::Data(bytes)) => if bytes@.len() == 0 {
                Ok(Progress::Done(self.response))
            } else {
                Ok(Progress::Suspend(self.suspension()))
            },
            (ReceiveState::Receiving, ReadOutcome::WouldBlock) => Ok(
                Progress::Suspend(self.suspension()),
            ),
            (ReceiveState::Receiving, ReadOutcome::Failed) => Err(Error::IoError),
        }
    }

    /// The operation after a run of read outcomes, oldest first.
    pub open spec fn after_all(self, reads: Seq<ReadOutcome>) -> ReceiveModel
        decreases reads.len(),
    {
        if reads.len() == 0 {
            self
        } else {
            self.after_all(reads.drop_last()).after(reads.last())
        }
    }
}

/// True of a read that shows the peer still open: some bytes, or none ready.
pub open spec fn peer_open(read: ReadOutcome) -> bool {
    match read {
        ReadOutcome::Data(bytes) => bytes@.len() > 0,
        ReadOutcome::WouldBlock => true,
        ReadOutcome::Failed => false,
    }
}

/// All bytes that a run of reads delivered, in order.
pub open spec fn delivered(reads: Seq<ReadOutcome>) -> Seq<u8>
    decreases reads.len(),
{
    if reads.len() == 0 {
        Seq::empty()
    } else {
        delivered(reads.drop_last()) + match reads.last() {
            ReadOutcome::Data(bytes) => bytes@,
            _ => Seq::empty(),
        }
    }
}

impl View for ReceiveFuture {
    type V = ReceiveModel;

    closed spec fn view(&self) -> ReceiveModel {
        ReceiveModel { stream: self.stream, response: self.response@, state: self.state }
    }
}

/// Starts receiving on `stream`: nothing collected yet.
pub fn receive_async(stream: &SocketFd) -> (future: ReceiveFuture)
    ensures
        future@ == (ReceiveModel {
            stream: stream.0,
            response: Seq::empty(),
            state: ReceiveState::Receiving,
        }),
{
    ReceiveFuture { stream: stream.0, response: Vec::new(), state: ReceiveState::Receiving }
}

impl ReceiveFuture {
    /// True once the peer's close has been observed. From then on `poll`
    /// needs no read: it reports the same result whatever it is handed.
    pub fn is_done(&self) -> (done: bool)
        ensures
            done == (self@.state == ReceiveState::Done),
    {
        match self.state {
            ReceiveState::Done => true,
            ReceiveState::Receiving => false,
        }
    }

    /// One attempt at progress, given what the read of at most `SCRATCH_LEN`
    /// bytes returned.
    pub fn poll(&mut self, read: ReadOutcome) -> (report: Result<Progress<Vec<u8>>, Error>)
        ensures
            final(self)@ == old(self)@.after(read),
            bytes_report(report) == old(self)@.report(read),
    {
        match self.state {
            ReceiveState::Receiving => {
                let suspension = Suspension { socket: self.stream, interest: Interest::Readable };
                match read {
                    ReadOutcome::Data(bytes) => {
                        if bytes.len() == 0 {
                            self.state = ReceiveState::Done;
                            Ok(Progress::Done(self.response.clone()))
                        } else {
                            self.response.extend_from_slice(bytes.as_slice());
                            assert(self.response@ =~= old(self).response@ + bytes@);
                            Ok(Progress::Suspend(suspension))
                        }
                    },
                    ReadOutcome::WouldBlock => Ok(Progress::Suspend(suspension)),
                    ReadOutcome::Failed => Err(Error::IoError),
                }
            },
            ReceiveState::Done => Ok(Progress::Done(self.response.clone())),
        }
    }
}

/// Receive ends with the peer's close and not before. While every read shows
/// the peer still open, the operation stays receiving, reports only
/// suspensions, and holds exactly the bytes delivered so far; the read of
/// nothing that follows completes it with all of them.
pub proof fn lemma_receive_termination(start: ReceiveModel, reads: Seq<ReadOutcome>)
    requires
        start.state == ReceiveState::Receiving,
        forall|i: int| 0 <= i < reads.len() ==> peer_open(#[trigger] reads[i]),
    ensures
        start.after_all(reads).state == ReceiveState::Receiving,
        start.after_all(reads).stream == start.stream,
        start.after_all(reads).response == start.response + delivered(reads),
        forall|i: int|
            0 <= i < reads.len() ==> #[trigger] start.after_all(reads.take(i)).report(reads[i])
                == Ok::<Progress<Seq<u8>>, Error>(Progress::Suspend(start.suspension())),
        forall|close: ReadOutcome|
            close matches ReadOutcome::Data(bytes) && bytes@.len() == 0 ==> {
                &&& #[trigger] start.after_all(reads).report(close) == Ok::<
                    Progress<Seq<u8>>,
                    Error,
                >(Progress::Done(start.response + delivered(reads)))
                &&& start.after_all(reads).after(close).state == ReceiveState::Done
                &&& start.after_all(reads).after(close).response == start.response + delivered(
                    reads,
                )
            },
    decreases reads.len(),
{
    if reads.len() == 0 {
        assert(start.response + delivered(reads) =~= start.response);
    } else {
        let earlier = reads.drop_last();
        lemma_receive_termination(start, earlier);
        let before = start.after_all(earlier);
        assert(start.after_all(reads) == before.after(reads.last()));
        assert(start.after_all(reads).response =~= start.response + delivered(reads));
        assert forall|i: int| 0 <= i < reads.len() implies #[trigger] start.after_all(
            reads.take(i),
        ).report(reads[i]) == Ok::<Progress<Seq<u8>>, Error>(
            Progress::Suspend(start.suspension()),
        ) by {
            if i < earlier.len() {
                assert(reads.take(i) =~= earlier.take(i));
                assert(reads[i] == earlier[i]);
            } else {
                assert(reads.take(i) =~= earlier);
            }
        }
    }
}

} // verus!
