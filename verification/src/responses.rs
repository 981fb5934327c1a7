use crate::flags::{all_set, none_set};
use vstd::prelude::*;

verus! {

/// What one receive showed of the stream.
#[derive(Clone, Copy, Debug, PartialEq, Eq, Structural)]
pub enum Stream {
    /// Bytes arrived.
    Open,
    /// Nothing is available now.
    Idle,
    /// The peer has closed.
    Closed,
}

/// What a classified receive shows: a count of zero is the close, no count
/// at all means "not now".
pub open spec fn stream_of(received: Option<usize>) -> Stream {
    match received {
        None => Stream::Idle,
        Some(n) => if n == 0 {
            Stream::Closed
        } else {
            Stream::Open
        },
    }
}

/// The bytes that a classified receive brought into `temp_buf`.
pub open spec fn brought(received: Option<usize>, temp_buf: Seq<u8>) -> Seq<u8> {
    match received {
        None => Seq::empty(),
        Some(n) => temp_buf.take(n as int),
    }
}

/// Appends to `buffer` what a receive brought into `temp_buf`, and says what
/// it showed of the stream.
pub fn absorb(buffer: &mut Vec<u8>, received: Option<usize>, temp_buf: &[u8]) -> (stream: Stream)
    requires
        received matches Some(n) ==> n <= temp_buf@.len(),
    ensures
        final(buffer)@ == old(buffer)@ + brought(received, temp_buf@),
        stream == stream_of(received),
{
    match received {
        None => {
            assert(buffer@ =~= buffer@ + Seq::<u8>::empty());
            Stream::Idle
        },
        Some(n) => {
            if n == 0 {
                assert(buffer@ =~= buffer@ + temp_buf@.take(0));
                Stream::Closed
            } else {
                let part = &temp_buf[0..n];
                assert(part@ =~= temp_buf@.take(n as int));
                buffer.extend_from_slice(part);
                assert(buffer@ =~= old(buffer)@ + temp_buf@.take(n as int));
                Stream::Open
            }
        },
    }
}

/// The responses of several sockets under construction, each with the mark
/// that says whether it is complete.
pub struct Responses {
    responses: Vec<Vec<u8>>,
    finished: Vec<bool>,
}

/// Responses as a mathematical value.
pub struct ResponsesModel {
    pub responses: Seq<Seq<u8>>,
    pub finished: Seq<bool>,
}

impl ResponsesModel {
    /// One mark for each response.
    pub open spec fn wf(self) -> bool {
        self.responses.len() == self.finished.len()
    }

    pub open spec fn len(self) -> nat {
        self.responses.len()
    }

    pub open spec fn all_finished(self) -> bool {
        forall|i: int| 0 <= i < self.finished.len() ==> self.finished[i]
    }

    /// The same responses with what a receive brought appended to number `i`.
    pub open spec fn with_bytes(self, i: int, bytes: Seq<u8>) -> ResponsesModel {
        ResponsesModel { responses: self.responses.update(i, self.responses[i] + bytes), ..self }
    }

    /// The same responses with the mark of number `i` replaced.
    pub open spec fn with_mark(self, i: int, finished: bool) -> ResponsesModel {
        ResponsesModel { finished: self.finished.update(i, finished), ..self }
    }
}

impl View for Responses {
    type V = ResponsesModel;

    closed spec fn view(&self) -> ResponsesModel {
        ResponsesModel {
            responses: Seq::new(self.responses@.len(), |i: int| self.responses@[i]@),
            finished: self.finished@,
        }
    }
}

impl Responses {
    #[verifier::type_invariant]
    spec fn inv(self) -> bool {
        self.responses@.len() == self.finished@.len()
    }

    /// `count` empty responses, none complete.
    pub fn new(count: usize) -> (fresh: Responses)
        ensures
            fresh@.wf(),
            fresh@.responses == Seq::new(count as nat, |i: int| Seq::<u8>::empty()),
            fresh@.finished == Seq::new(count as nat, |i: int| false),
    {
        let mut responses: Vec<Vec<u8>> = Vec::new();
        while responses.len() < count
            invariant
                responses@.len() <= count,
                forall|j: int| 0 <= j < responses@.len() ==> responses@[j]@.len() == 0,
            decreases count - responses@.len(),
        {
            responses.push(Vec::new());
        }
        let fresh = Responses { responses, finished: none_set(count) };
        assert(fresh@.responses =~= Seq::new(count as nat, |i: int| Seq::<u8>::empty())) by {
            assert forall|i: int| 0 <= i < count implies fresh@.responses[i]
                == Seq::<u8>::empty() by {
                assert(fresh.responses@[i]@ =~= Seq::<u8>::empty());
            }
        }
        fresh
    }

    pub fn len(&self) -> (len: usize)
        ensures
            len == self@.len(),
            self@.wf(),
    {
        proof {
            use_type_invariant(self);
        }
        self.responses.len()
    }

    /// True once every response is complete.
    pub fn all_finished(&self) -> (all: bool)
        ensures
            all == self@.all_finished(),
    {
        let flags = self.finished.as_slice();
        let all = all_set(flags);
        assert(self@.finished =~= flags@);
        all
    }

    /// The marks, one for each response.
    pub fn finished(&self) -> (marks: &[bool])
        ensures
            marks@ == self@.finished,
            self@.wf(),
    {
        proof {
            use_type_invariant(self);
        }
        self.finished.as_slice()
    }

    /// The mark of response `i`.
    pub fn is_finished(&self, i: usize) -> (finished: bool)
        requires
            i < self@.len(),
        ensures
            finished == self@.finished[i as int],
    {
        proof {
            use_type_invariant(self);
        }
        self.finished[i]
    }

    /// Replaces the mark of response `i`.
    pub fn mark(&mut self, i: usize, finished: bool)
        requires
            i < old(self)@.len(),
        ensures
            final(self)@ == old(self)@.with_mark(i as int, finished),
    {
        proof {
            use_type_invariant(&*self);
        }
        self.finished[i] = finished;
        assert(self@.responses =~= old(self)@.responses);
    }

    /// Appends to response `i` what a receive brought into `temp_buf`, and
    /// says what it showed of the stream. The marks stay as they are.
    pub fn absorb(&mut self, i: usize, received: Option<usize>, temp_buf: &[u8]) -> (stream: Stream)
        requires
            i < old(self)@.len(),
            received matches Some(n) ==> n <= temp_buf@.len(),
        ensures
            final(self)@ == old(self)@.with_bytes(i as int, brought(received, temp_buf@)),
            stream == stream_of(received),
    {
        proof {
            use_type_invariant(&*self);
        }
        let stream = absorb(&mut self.responses[i], received, temp_buf);
        assert(self@.responses =~= old(self)@.with_bytes(
            i as int,
            brought(received, temp_buf@),
        ).responses);
        stream
    }

    /// Takes one receive on socket `i`: appends what it brought and, if it
    /// showed the peer's close, marks the response complete.
    pub fn receive(&mut self, i: usize, received: Option<usize>, temp_buf: &[u8]) -> (stream: Stream)
        requires
            i < old(self)@.len(),
            received matches Some(n) ==> n <= temp_buf@.len(),
        ensures
            final(self)@ == if stream_of(received) == Stream::Closed {
                old(self)@.with_mark(i as int, true)
            } else {
                old(self)@.with_bytes(i as int, brought(received, temp_buf@))
            },
            stream == stream_of(received),
    {
        let stream = self.absorb(i, received, temp_buf);
        match stream {
            Stream::Closed => {
                self.mark(i, true);
                assert(self@.responses =~= old(self)@.responses);
            },
            _ => {},
        }
        stream
    }

    /// The responses, in the order of their sockets.
    pub fn into_responses(self) -> (responses: Vec<Vec<u8>>)
        ensures
            responses@.len() == self@.len(),
            forall|i: int| 0 <= i < responses@.len() ==> responses@[i]@ == self@.responses[i],
    {
        self.responses
    }
}

} // verus!
