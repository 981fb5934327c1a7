use crate::sys_libc::error::{Call, SysError};
use crate::sys_libc::socket_fd::SocketFd;
use vstd::prelude::*;

verus! {

/// What `socket(2)` returned, classified: the new socket.
pub open spec fn created(sockfd: i32, errno: i32) -> Result<SocketFd, SysError> {
    if sockfd == -1 {
        Err(SysError::Os { call: Call::Socket, errno })
    } else {
        Ok(SocketFd(sockfd))
    }
}

/// What `socket(2)` returned for a blocking TCP socket, classified.
pub fn create_tcp_socket(sockfd: i32, errno: i32) -> (socket: Result<SocketFd, SysError>)
    ensures
        socket == created(sockfd, errno),
{
    if sockfd == -1 {
        return Err(SysError::Os { call: Call::Socket, errno });
    }
    Ok(SocketFd(sockfd))
}

/// What `socket(2)` returned for a non-blocking TCP socket, classified.
pub fn create_non_blocking_tcp_socket(sockfd: i32, errno: i32) -> (socket: Result<
    SocketFd,
    SysError,
>)
    ensures
        socket == created(sockfd, errno),
{
    if sockfd == -1 {
        return Err(SysError::Os { call: Call::Socket, errno });
    }
    Ok(SocketFd(sockfd))
}

} // verus!
