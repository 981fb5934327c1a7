use vstd::prelude::*;

verus! {

/// The system calls whose failure is reported.
#[derive(Clone, Copy, Debug, PartialEq, Eq, Structural)]
pub enum Call {
    Socket,
    Connect,
    Send,
    Recv,
    GetSockOpt,
    Select,
    Poll,
    EpollCreate1,
    EpollCtl,
    EpollCtlRemove,
    EpollWait,
}

/// What can go wrong in the raw socket interface.
#[derive(Clone, Copy, Debug, PartialEq, Eq, Structural)]
pub enum SysError {
    /// A system call returned -1 with this error number.
    Os { call: Call, errno: i32 },
    /// The text is not an IPv4 address.
    InvalidAddress,
    /// Nothing became ready within the timeout.
    Timeout,
    /// A socket reported an error, a hang-up or an invalid descriptor.
    Sockets,
    /// A connection completed with this pending error.
    ConnectionFailed(i32),
}

/// True of an error number that only says "not now".
pub open spec fn would_block(errno: i32) -> bool {
    errno == crate::sys_libc::libc::EWOULDBLOCK || errno == crate::sys_libc::libc::EAGAIN
}

} // verus!
