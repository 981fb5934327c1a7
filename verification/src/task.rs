use vstd::prelude::*;

verus! {

/// The direction of readiness an operation waits for.
#[derive(Clone, Copy, Debug, PartialEq, Eq, Structural)]
pub enum Interest {
    Readable,
    Writable,
}

/// What a suspended operation asks the reactor to watch: one socket, one
/// direction.
#[derive(Clone, Copy, Debug, PartialEq, Eq, Structural)]
pub struct Suspension {
    pub socket: i32,
    pub interest: Interest,
}

/// What one attempt at progress reports.
#[derive(Debug)]
pub enum Progress<T> {
    /// The operation has completed with this result.
    Done(T),
    /// The operation cannot go on until the socket is ready.
    Suspend(Suspension),
}

/// What an executor sees of one attempt: a result, or not yet.
#[derive(Debug)]
pub enum Poll<T> {
    Ready(T),
    Pending,
}

impl<T> Progress<T> {
    /// What an executor sees of this report: whom the operation asked to be
    /// woken by is no concern of the executor.
    pub open spec fn as_poll(self) -> Poll<T> {
        match self {
            Progress::Done(result) => Poll::Ready(result),
            Progress::Suspend(_) => Poll::Pending,
        }
    }

    /// Turns the report into what an executor sees of it.
    pub fn into_poll(self) -> (poll: Poll<T>)
        ensures
            poll == self.as_poll(),
    {
        match self {
            Progress::Done(result) => Poll::Ready(result),
            Progress::Suspend(_) => Poll::Pending,
        }
    }
}

/// What a non-blocking read returned.
#[derive(Debug)]
pub enum ReadOutcome {
    /// The bytes that were read; none means that the peer has closed.
    Data(Vec<u8>),
    WouldBlock,
    /// Any other error of the operating system.
    Failed,
}

/// What a non-blocking write returned.
#[derive(Clone, Copy, Debug, PartialEq, Eq, Structural)]
pub enum WriteOutcome {
    /// The number of bytes the socket took.
    Wrote(usize),
    WouldBlock,
    /// Any other error of the operating system.
    Failed,
}

impl View for Progress<Vec<u8>> {
    type V = Progress<Seq<u8>>;

    open spec fn view(&self) -> Progress<Seq<u8>> {
        match *self {
            Progress::Done(bytes) => Progress::Done(bytes@),
            Progress::Suspend(suspension) => Progress::Suspend(suspension),
        }
    }
}

/// A report whose result is a byte buffer, with the buffer taken as a
/// sequence.
pub open spec fn bytes_report(report: Result<Progress<Vec<u8>>, crate::error::Error>) -> Result<
    Progress<Seq<u8>>,
    crate::error::Error,
> {
    match report {
        Ok(progress) => Ok(progress@),
        Err(error) => Err(error),
    }
}

} // verus!
