use crate::error::Error;
use crate::sys_libc::SocketFd;
use crate::task::Progress;
use vstd::prelude::*;

verus! {

/// What the non-blocking connect call returned.
#[derive(Debug)]
pub enum ConnectOutcome {
    /// The call gave a socket: the connection stands or is still in
    /// progress, which a non-blocking connect does not tell apart.
    Connected(SocketFd),
    /// The call failed for any other reason.
    Failed,
}

/// Connects to an address in a single attempt.
pub struct ConnectFuture {
    address: String,
}

impl View for ConnectFuture {
    type V = Seq<char>;

    closed spec fn view(&self) -> Seq<char> {
        self.address@
    }
}

/// What the attempt that observed `connected` reports: the socket as it is,
/// or the connect error. A connect never suspends.
pub open spec fn connect_report(connected: ConnectOutcome) -> Result<Progress<SocketFd>, Error> {
    match connected {
        ConnectOutcome::Connected(socket) => Ok(Progress::Done(socket)),
        ConnectOutcome::Failed => Err(Error::ConnectError),
    }
}

/// A connect to `address`, not attempted yet.
pub fn connect_async(address: &str) -> (future: ConnectFuture)
    ensures
        future@ == address@,
{
    ConnectFuture { address: address.to_owned() }
}

impl ConnectFuture {
    /// The address to hand to the connect call.
    pub fn address(&self) -> (address: &str)
        ensures
            address@ == self@,
    {
        self.address.as_str()
    }

    /// The one attempt, given what the connect call returned. The socket is
    /// handed on without waiting for the connection to stand.
    pub fn poll(&self, connected: ConnectOutcome) -> (report: Result<Progress<SocketFd>, Error>)
        ensures
            report == connect_report(connected),
    {
        match connected {
            ConnectOutcome::Connected(socket) => Ok(Progress::Done(socket)),
            ConnectOutcome::Failed => Err(Error::ConnectError),
        }
    }
}

} // verus!
