use crate::responses::{absorb, brought, stream_of, Responses, Stream};
use crate::sys_libc::epoll_event::fd_of;
use crate::sys_libc::libc::{epoll_event, EPOLLERR, EPOLLET, EPOLLHUP, EPOLLIN, EPOLLOUT};
use crate::sys_libc::socket_fd::position;
use crate::sys_libc::{SocketFd, SysError};
use vstd::prelude::*;

verus! {

/// How long one wait for events lasts, in milliseconds.
pub const TIMEOUT: i32 = 5000;

/// The most events one wait returns.
pub const MAX_EVENTS: usize = 10;

/// The mask every socket is added with: readable, writable, edge triggered.
pub const IN_AND_OUT_EDGE_TRIGGER: u32 = EPOLLIN | EPOLLOUT | EPOLLET;

/// True if some socket has the descriptor `fd`.
pub open spec fn known(sockets: Seq<SocketFd>, fd: i32) -> bool {
    exists|i: int| 0 <= i < sockets.len() && (#[trigger] sockets[i]).0 == fd
}

/// True if `idx` is the place of the first socket with the descriptor `fd`.
pub open spec fn first_with(sockets: Seq<SocketFd>, fd: i32, idx: int) -> bool {
    &&& 0 <= idx < sockets.len()
    &&& sockets[idx].0 == fd
    &&& forall|i: int| 0 <= i < idx ==> sockets[i].0 != fd
}

/// What a wait for events that returned `nfds` means: the number of events
/// to go through, or a timeout if there is none.
pub fn waited(nfds: i32) -> (events: Result<usize, SysError>)
    requires
        nfds >= 0,
    ensures
        events == if nfds == 0 {
            Err::<usize, SysError>(SysError::Timeout)
        } else {
            Ok(nfds as usize)
        },
{
    if nfds == 0 {
        return Err(SysError::Timeout);
    }
    Ok(nfds as usize)
}

/// One turn of draining a socket: appends what the receive brought and says
/// whether to stop. `None`: receive again. `Some(finished)`: stop, the peer
/// having closed if `finished`, and nothing being available now if not.
pub fn read_until_would_block(
    buffer: &mut Vec<u8>,
    bytes_received: Option<usize>,
    temp_buf: &[u8],
) -> (finished: Option<bool>)
    requires
        bytes_received matches Some(n) ==> n <= temp_buf@.len(),
    ensures
        final(buffer)@ == old(buffer)@ + brought(bytes_received, temp_buf@),
        finished == match stream_of(bytes_received) {
            Stream::Open => None::<bool>,
            Stream::Idle => Some(false),
            Stream::Closed => Some(true),
        },
{
    match absorb(buffer, bytes_received, temp_buf) {
        Stream::Open => None,
        Stream::Idle => Some(false),
        Stream::Closed => Some(true),
    }
}

/// What to do with one socket for one event.
#[derive(Clone, Copy, Debug, PartialEq, Eq, Structural)]
pub struct Plan {
    /// The place of the socket.
    pub idx: usize,
    /// The socket hung up or failed: drain it, whatever the draining says,
    /// and take it out of the epoll instance.
    pub drain: bool,
    /// The socket is readable and not complete: drain it and mark it as the
    /// draining says.
    pub read: bool,
}

/// The part of one event in receiving every response. A socket that hung up
/// or failed is marked complete here and now, and so is never also read.
pub fn receive_all_non_blocking(
    sockets: &[SocketFd],
    responses: &mut Responses,
    event: &epoll_event,
) -> (plan: Plan)
    requires
        known(sockets@, fd_of(event.data)),
        old(responses)@.len() == sockets@.len(),
    ensures
        first_with(sockets@, fd_of(event.data), plan.idx as int),
        plan.drain == (event.events & (EPOLLHUP | EPOLLERR) != 0),
        final(responses)@ == if plan.drain {
            old(responses)@.with_mark(plan.idx as int, true)
        } else {
            old(responses)@
        },
        plan.read == (event.events & EPOLLIN != 0 && !final(responses)@.finished[plan.idx as int]),
{
    let fd: i32 = #[verifier::truncate]
    (event.data as i32);
    let idx = match position(sockets, fd) {
        Some(idx) => idx,
        None => 0,
    };
    let drain = event.events & (EPOLLHUP | EPOLLERR) != 0;
    if drain {
        responses.mark(idx, true);
    }
    let read = event.events & EPOLLIN != 0 && !responses.is_finished(idx);
    Plan { idx, drain, read }
}

/// True if a send with this return counts as the request sent. Any count
/// does, a partial one too.
pub fn sent(ret: Option<usize>) -> (sent: bool)
    ensures
        sent == ret is Some,
{
    ret.is_some()
}

/// The part of one event in sending every request: the place of the socket
/// to send on, if the event says that it is writable and its request is not
/// sent yet.
pub fn send_all(sockets: &[SocketFd], sent_requests: &[bool], event: &epoll_event) -> (send:
    Option<usize>)
    requires
        known(sockets@, fd_of(event.data)),
        sent_requests@.len() == sockets@.len(),
    ensures
        send matches Some(idx) ==> first_with(sockets@, fd_of(event.data), idx as int),
        send is Some <==> event.events & EPOLLOUT != 0 && exists|idx: int|
            first_with(sockets@, fd_of(event.data), idx) && !sent_requests@[idx],
{
    let fd: i32 = #[verifier::truncate]
    (event.data as i32);
    let idx = match position(sockets, fd) {
        Some(idx) => idx,
        None => 0,
    };
    assert forall|other: int| first_with(sockets@, fd_of(event.data), other) implies other
        == idx by {}
    if event.events & EPOLLOUT != 0 && !sent_requests[idx] {
        Some(idx)
    } else {
        None
    }
}

} // verus!
