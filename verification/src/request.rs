use crate::connect::{connect_async, ConnectFuture, ConnectOutcome};
use crate::error::Error;
use crate::receive::{
    delivered, lemma_receive_termination, peer_open, receive_async, ReceiveFuture, ReceiveModel,
    ReceiveState, SCRATCH_LEN,
};
use crate::send::{
    lemma_send_completeness, lemma_send_progress, send_async, taken, wrote_once, SendFuture,
    SendModel, SendState,
};
use crate::sys_libc::SocketFd;
use crate::task::{Progress, ReadOutcome, Suspension, WriteOutcome};
use vstd::prelude::*;
use vstd::string::*;

verus! {

/// The socket call that a request needs next.
#[derive(Debug)]
pub enum Want<'a> {
    /// A non-blocking connect to this address.
    Connect(&'a str),
    /// A write of these bytes.
    Write(&'a [u8]),
    /// A read of at most this many bytes.
    Read(usize),
    /// None: the request is done.
    Nothing,
}

/// What a socket call returned.
#[derive(Debug)]
pub enum Outcome {
    Connect(ConnectOutcome),
    Write(WriteOutcome),
    Read(ReadOutcome),
}

/// What one step of a request reports.
#[derive(Debug)]
pub enum Advance<T> {
    /// The response is complete.
    Done(T),
    /// The request cannot go on until the socket is ready.
    Suspend(Suspension),
    /// Nothing stands in the way of the next step: an operation has
    /// completed and the next one can be attempted at once.
    Again,
}

impl View for Advance<Vec<u8>> {
    type V = Advance<Seq<u8>>;

    open spec fn view(&self) -> Advance<Seq<u8>> {
        match *self {
            Advance::Done(bytes) => Advance::Done(bytes@),
            Advance::Suspend(suspension) => Advance::Suspend(suspension),
            Advance::Again => Advance::Again,
        }
    }
}

/// A step's report with the response taken as a sequence.
pub open spec fn advance_report(report: Result<Advance<Vec<u8>>, Error>) -> Result<
    Advance<Seq<u8>>,
    Error,
> {
    match report {
        Ok(advance) => Ok(advance@),
        Err(error) => Err(error),
    }
}

/// A request as a mathematical value: the operation it is at.
pub enum RequestModel {
    Connecting { address: Seq<char>, request: Seq<u8> },
    Sending(SendModel),
    Receiving(ReceiveModel),
    Done(Seq<u8>),
}

impl RequestModel {
    /// A socket never takes more than it was offered.
    pub open spec fn accepts(self, outcome: Outcome) -> bool {
        match (self, outcome) {
            (RequestModel::Sending(send), Outcome::Write(written)) => send.accepts(written),
            _ => true,
        }
    }

    /// The request after one outcome. The outcome of a call that the
    /// request did not want changes nothing.
    pub open spec fn after(self, outcome: Outcome) -> RequestModel {
        match (self, outcome) {
            (
                RequestModel::Connecting { address, request },
                Outcome::Connect(ConnectOutcome::Connected(socket)),
            ) => RequestModel::Sending(
                SendModel { stream: socket.0, request, sent: 0, state: SendState::Sending },
            ),
            (RequestModel::Sending(send), Outcome::Write(written)) => if send.after(written).state
                == SendState::Done {
                RequestModel::Receiving(
                    ReceiveModel {
                        stream: send.stream,
                        response: Seq::empty(),
                        state: ReceiveState::Receiving,
                    },
                )
            } else {
                RequestModel::Sending(send.after(written))
            },
            (RequestModel::Receiving(receive), Outcome::Read(read)) => if receive.after(read).state
                == ReceiveState::Done {
                RequestModel::Done(receive.response)
            } else {
                RequestModel::Receiving(receive.after(read))
            },
            _ => self,
        }
    }

    /// The request after a run of outcomes, oldest first.
    pub open spec fn after_all(self, outcomes: Seq<Outcome>) -> RequestModel
        decreases outcomes.len(),
    {
        if outcomes.len() == 0 {
            self
        } else {
            self.after_all(outcomes.drop_last()).after(outcomes.last())
        }
    }

    /// What the step that observed `outcome` reports.
    pub open spec fn report(self, outcome: Outcome) -> Result<Advance<Seq<u8>>, Error> {
        match (self, outcome) {
            (RequestModel::Done(response), _) => Ok(Advance::Done(response)),
            (RequestModel::Connecting { .. }, Outcome::Connect(ConnectOutcome::Failed)) => Err(
                Error::ConnectError,
            ),
            (RequestModel::Sending(send), Outcome::Write(written)) => match send.report(written) {
                Ok(Progress::Done(_)) => Ok(Advance::Again),
                Ok(Progress::Suspend(suspension)) => Ok(Advance::Suspend(suspension)),
                Err(error) => Err(error),
            },
            (RequestModel::Receiving(receive), Outcome::Read(read)) => match receive.report(read) {
                Ok(Progress::Done(response)) => Ok(Advance::Done(response)),
                Ok(Progress::Suspend(suspension)) => Ok(Advance::Suspend(suspension)),
                Err(error) => Err(error),
            },
            _ => Ok(Advance::Again),
        }
    }
}

/// A run of write outcomes as outcomes of a request.
pub open spec fn write_outcomes(writes: Seq<WriteOutcome>) -> Seq<Outcome> {
    Seq::new(writes.len(), |i: int| Outcome::Write(writes[i]))
}

/// A run of read outcomes as outcomes of a request.
pub open spec fn read_outcomes(reads: Seq<ReadOutcome>) -> Seq<Outcome> {
    Seq::new(reads.len(), |i: int| Outcome::Read(reads[i]))
}

/// The read that shows the peer's close: no bytes.
pub open spec fn is_close(read: ReadOutcome) -> bool {
    read matches ReadOutcome::Data(bytes) && bytes@.len() == 0
}

/// A receive on `stream` with nothing collected yet.
pub open spec fn fresh_receive(stream: i32) -> ReceiveModel {
    ReceiveModel { stream, response: Seq::empty(), state: ReceiveState::Receiving }
}

/// A send of `request` on `stream` with nothing written yet.
pub open spec fn fresh_send(stream: i32, request: Seq<u8>) -> SendModel {
    SendModel { stream, request, sent: 0, state: SendState::Sending }
}

enum Stage {
    Connecting(ConnectFuture),
    Sending(SendFuture),
    Receiving(ReceiveFuture),
    Done(Vec<u8>),
}

/// One request and its response: connect, then send, then receive, each
/// operation taken up where the one before it ended.
pub struct Request {
    request: String,
    stage: Stage,
}

impl View for Request {
    type V = RequestModel;

    closed spec fn view(&self) -> RequestModel {
        match self.stage {
            Stage::Connecting(connect) => RequestModel::Connecting {
                address: connect@,
                request: vstd::utf8::encode_utf8(self.request@),
            },
            Stage::Sending(send) => RequestModel::Sending(send@),
            Stage::Receiving(receive) => RequestModel::Receiving(receive@),
            Stage::Done(response) => RequestModel::Done(response@),
        }
    }
}

impl Request {
    /// A request to `address`, with nothing attempted yet.
    pub fn new(address: &str, request: &str) -> (task: Request)
        ensures
            task@ == (RequestModel::Connecting {
                address: address@,
                request: request.spec_bytes(),
            }),
    {
        Request { request: request.to_owned(), stage: Stage::Connecting(connect_async(address)) }
    }

    /// The socket call to make before the next step.
    pub fn wants(&self) -> (want: Want<'_>)
        ensures
            match self@ {
                RequestModel::Connecting { address, request } => want matches Want::Connect(to)
                    && to@ == address,
                RequestModel::Sending(send) => want matches Want::Write(bytes) && bytes@
                    == send.unsent(),
                RequestModel::Receiving(_) => want == Want::Read(SCRATCH_LEN),
                RequestModel::Done(_) => want == Want::Nothing,
            },
    {
        match &self.stage {
            Stage::Connecting(connect) => Want::Connect(connect.address()),
            Stage::Sending(send) => Want::Write(send.unsent()),
            Stage::Receiving(_) => Want::Read(SCRATCH_LEN),
            Stage::Done(_) => Want::Nothing,
        }
    }

    /// One step, given what the wanted socket call returned.
    pub fn poll(&mut self, outcome: Outcome) -> (report: Result<Advance<Vec<u8>>, Error>)
        requires
            old(self)@.accepts(outcome),
        ensures
            final(self)@ == old(self)@.after(outcome),
            advance_report(report) == old(self)@.report(outcome),
    {
        match outcome {
            Outcome::Connect(connected) => {
                let polled = match &self.stage {
                    Stage::Connecting(connect) => Some(connect.poll(connected)),
                    Stage::Done(response) => {
                        return Ok(Advance::Done(response.clone()));
                    },
                    _ => None,
                };
                match polled {
                    Some(Ok(Progress::Done(socket))) => {
                        let send = send_async(&socket, self.request.as_str());
                        self.stage = Stage::Sending(send);
                        Ok(Advance::Again)
                    },
                    Some(Ok(Progress::Suspend(suspension))) => Ok(Advance::Suspend(suspension)),
                    Some(Err(error)) => Err(error),
                    None => Ok(Advance::Again),
                }
            },
            Outcome::Write(written) => {
                let polled = match &mut self.stage {
                    Stage::Sending(send) => Some((send.poll(written), send.stream())),
                    Stage::Done(response) => {
                        return Ok(Advance::Done(response.clone()));
                    },
                    _ => None,
                };
                match polled {
                    Some((Ok(Progress::Done(_)), stream)) => {
                        self.stage = Stage::Receiving(receive_async(&SocketFd(stream)));
                        Ok(Advance::Again)
                    },
                    Some((Ok(Progress::Suspend(suspension)), _)) => Ok(
                        Advance::Suspend(suspension),
                    ),
                    Some((Err(error), _)) => Err(error),
                    None => Ok(Advance::Again),
                }
            },
            Outcome::Read(read) => {
                let polled = match &mut self.stage {
                    Stage::Receiving(receive) => Some(receive.poll(read)),
                    Stage::Done(response) => {
                        return Ok(Advance::Done(response.clone()));
                    },
                    _ => None,
                };
                match polled {
                    Some(Ok(Progress::Done(response))) => {
                        self.stage = Stage::Done(response.clone());
                        Ok(Advance::Done(response))
                    },
                    Some(Ok(Progress::Suspend(suspension))) => Ok(Advance::Suspend(suspension)),
                    Some(Err(error)) => Err(error),
                    None => Ok(Advance::Again),
                }
            },
        }
    }
}

/// A run of outcomes followed by another is the two runs one after the
/// other.
pub proof fn lemma_after_all_concat(start: RequestModel, first: Seq<Outcome>, then: Seq<Outcome>)
    ensures
        start.after_all(first + then) == start.after_all(first).after_all(then),
    decreases then.len(),
{
    if then.len() == 0 {
        assert(first + then =~= first);
    } else {
        assert((first + then).drop_last() =~= first + then.drop_last());
        assert((first + then).last() == then.last());
        lemma_after_all_concat(start, first, then.drop_last());
    }
}

/// While it sends, a request is its send: it follows the send through every
/// write outcome and turns to a fresh receive on the same socket when the
/// send completes. Writes that come after that change nothing.
pub proof fn lemma_sending_phase(send: SendModel, writes: Seq<WriteOutcome>)
    requires
        send.wf(),
        send.state == SendState::Sending,
        send.admits(writes),
    ensures
        RequestModel::Sending(send).after_all(write_outcomes(writes)) == if send.after_all(
            writes,
        ).state == SendState::Done {
            RequestModel::Receiving(fresh_receive(send.stream))
        } else {
            RequestModel::Sending(send.after_all(writes))
        },
    decreases writes.len(),
{
    if writes.len() > 0 {
        let earlier = writes.drop_last();
        assert forall|i: int| 0 <= i < earlier.len() implies #[trigger] send.after_all(
            earlier.take(i),
        ).accepts(earlier[i]) by {
            assert(earlier.take(i) =~= writes.take(i));
            assert(send.after_all(writes.take(i)).accepts(writes[i]));
        }
        lemma_sending_phase(send, earlier);
        lemma_send_progress(send, earlier);
        assert(write_outcomes(writes).drop_last() =~= write_outcomes(earlier));
        assert(write_outcomes(writes).last() == Outcome::Write(writes.last()));
    }
}

/// While the peer stays open, a request that receives is its receive.
pub proof fn lemma_receiving_phase(receive: ReceiveModel, reads: Seq<ReadOutcome>)
    requires
        receive.state == ReceiveState::Receiving,
        forall|i: int| 0 <= i < reads.len() ==> peer_open(#[trigger] reads[i]),
    ensures
        RequestModel::Receiving(receive).after_all(read_outcomes(reads)) == RequestModel::Receiving(
            receive.after_all(reads),
        ),
    decreases reads.len(),
{
    lemma_receive_termination(receive, reads);
    if reads.len() > 0 {
        let earlier = reads.drop_last();
        lemma_receiving_phase(receive, earlier);
        lemma_receive_termination(receive, earlier);
        assert(read_outcomes(reads).drop_last() =~= read_outcomes(earlier));
        assert(read_outcomes(reads).last() == Outcome::Read(reads.last()));
    }
}

/// End to end. Against a peer that accepts the connection, takes the whole
/// request in whatever pieces, delivers some bytes in whatever pieces with
/// whatever pauses and then closes, the request ends with exactly the bytes
/// delivered, and the step that observes the close reports them.
pub proof fn lemma_request_end_to_end(
    address: Seq<char>,
    request: Seq<u8>,
    socket: SocketFd,
    writes: Seq<WriteOutcome>,
    reads: Seq<ReadOutcome>,
    close: ReadOutcome,
)
    requires
        request.len() <= usize::MAX,
        fresh_send(socket.0, request).admits(writes),
        taken(writes) == request.len(),
        wrote_once(writes),
        forall|i: int| 0 <= i < reads.len() ==> peer_open(#[trigger] reads[i]),
        is_close(close),
    ensures
        ({
            let start = RequestModel::Connecting { address, request };
            let connected = seq![Outcome::Connect(ConnectOutcome::Connected(socket))];
            let before_close = start.after_all(
                connected + write_outcomes(writes) + read_outcomes(reads),
            );
            &&& before_close == RequestModel::Receiving(
                fresh_receive(socket.0).after_all(reads),
            )
            &&& before_close.report(Outcome::Read(close)) == Ok::<Advance<Seq<u8>>, Error>(
                Advance::Done(delivered(reads)),
            )
            &&& before_close.after(Outcome::Read(close)) == RequestModel::Done(delivered(reads))
        }),
{
    let start = RequestModel::Connecting { address, request };
    let connected = seq![Outcome::Connect(ConnectOutcome::Connected(socket))];
    let send = fresh_send(socket.0, request);
    let receive = fresh_receive(socket.0);
    assert(connected.drop_last() =~= Seq::<Outcome>::empty());
    assert(start.after_all(connected) == start.after_all(connected.drop_last()).after(
        connected.last(),
    ));
    assert(start.after_all(connected) == RequestModel::Sending(send));
    lemma_send_completeness(send, writes);
    lemma_sending_phase(send, writes);
    lemma_receiving_phase(receive, reads);
    lemma_receive_termination(receive, reads);
    lemma_after_all_concat(start, connected, write_outcomes(writes));
    lemma_after_all_concat(start, connected + write_outcomes(writes), read_outcomes(reads));
    assert(receive.response + delivered(reads) =~= delivered(reads));
}

} // verus!
