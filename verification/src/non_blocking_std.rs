use crate::non_blocking_epoll::first_with;
use crate::sys_libc::epoll_event::fd_of;
use crate::sys_libc::libc::{epoll_event, EPOLLERR, EPOLLHUP, EPOLLIN, EPOLLNVAL};
use crate::sys_libc::socket_fd::position;
use crate::sys_libc::SocketFd;
use vstd::prelude::*;

verus! {

/// What to do with one stream for one event.
#[derive(Clone, Copy, Debug, PartialEq, Eq, Structural)]
pub struct Plan {
    /// The place of the stream.
    pub idx: usize,
    /// The stream failed, hung up or is invalid: drain it, mark it as the
    /// draining says and take it out of the epoll instance.
    pub failed: bool,
    /// The stream is readable: drain it, mark it as the draining says, and
    /// take it out of the epoll instance if it is complete. This comes after
    /// what `failed` asks for, and both may be asked for.
    pub read: bool,
}

/// The part of one event in reading every response: nothing for an event
/// that names no stream or one that is complete.
pub fn read_all_non_blocking(sockets: &[SocketFd], finished: &[bool], event: &epoll_event) -> (plan:
    Option<Plan>)
    requires
        finished@.len() == sockets@.len(),
    ensures
        plan is Some <==> exists|idx: int|
            first_with(sockets@, fd_of(event.data), idx) && !finished@[idx],
        plan matches Some(p) ==> {
            &&& first_with(sockets@, fd_of(event.data), p.idx as int)
            &&& p.failed == (event.events & (EPOLLERR | EPOLLHUP | EPOLLNVAL) != 0)
            &&& p.read == (event.events & EPOLLIN != 0)
        },
{
    let fd: i32 = #[verifier::truncate]
    (event.data as i32);
    match position(sockets, fd) {
        Some(idx) => {
            assert forall|other: int| first_with(sockets@, fd_of(event.data), other) implies other
                == idx by {}
            if finished[idx] {
                return None;
            }
            Some(
                Plan {
                    idx,
                    failed: event.events & (EPOLLERR | EPOLLHUP | EPOLLNVAL) != 0,
                    read: event.events & EPOLLIN != 0,
                },
            )
        },
        None => None,
    }
}

/// True if a write with this return counts as the request sent: only a
/// write that took all of it does.
pub fn sent(written: Option<usize>, request_len: usize) -> (sent: bool)
    ensures
        sent == (written == Some(request_len)),
{
    match written {
        Some(n) => n == request_len,
        None => false,
    }
}

/// The part of one event in sending every request: the place of the stream
/// to write the request to, if the event names a stream whose request is not
/// sent yet.
pub fn send_all(sockets: &[SocketFd], sent_requests: &[bool], event: &epoll_event) -> (send:
    Option<usize>)
    requires
        sent_requests@.len() == sockets@.len(),
    ensures
        send matches Some(idx) ==> first_with(sockets@, fd_of(event.data), idx as int),
        send is Some <==> exists|idx: int|
            first_with(sockets@, fd_of(event.data), idx) && !sent_requests@[idx],
{
    let fd: i32 = #[verifier::truncate]
    (event.data as i32);
    match position(sockets, fd) {
        Some(idx) => {
            assert forall|other: int| first_with(sockets@, fd_of(event.data), other) implies other
                == idx by {}
            if sent_requests[idx] {
                None
            } else {
                Some(idx)
            }
        },
        None => None,
    }
}

} // verus!
