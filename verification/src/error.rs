use vstd::prelude::*;

verus! {

/// Why a task was aborted. "Would block" is not among them: it is a signal to
/// try again once the socket is ready and never leaves an operation.
#[derive(Clone, Copy, Debug, PartialEq, Eq, Structural)]
pub enum Error {
    /// The non-blocking connect failed for a reason other than "in progress".
    ConnectError,
    /// A read, a write or a registration failed for a reason other than
    /// "would block".
    IoError,
}

} // verus!
