use crate::flags::{indices_of, none_set, set_indices};
use crate::sys_libc::socket_fd::max_fd;
use crate::sys_libc::{FdSet, SocketFd, SysError};
use vstd::prelude::*;

verus! {

/// The set to hand to select: the descriptors, as far as a set has room for
/// them, of the sockets whose mark in `finished` is clear.
pub open spec fn armed(sockets: Seq<SocketFd>, finished: Seq<bool>) -> Set<int> {
    Set::new(
        |fd: int|
            0 <= fd < 1024 && exists|i: int|
                0 <= i < sockets.len() && !finished[i] && (#[trigger] sockets[i]).0 == fd,
    )
}

/// The sockets that select left in the set, among those whose mark in
/// `finished` is clear.
pub open spec fn selected(set: Set<int>, sockets: Seq<SocketFd>, finished: Seq<bool>) -> Seq<bool> {
    Seq::new(sockets.len(), |i: int| !finished[i] && set.contains(sockets[i].0 as int))
}

/// The first argument of select: one more than the largest descriptor.
pub fn nfds(sockets: &[SocketFd]) -> (nfds: i32)
    requires
        sockets@.len() > 0,
        forall|i: int| 0 <= i < sockets@.len() ==> sockets@[i].0 < i32::MAX,
    ensures
        exists|i: int| 0 <= i < sockets@.len() && sockets@[i].0 + 1 == nfds,
        forall|i: int| 0 <= i < sockets@.len() ==> sockets@[i].0 < nfds,
{
    match max_fd(sockets) {
        Some(max) => max + 1,
        None => 0,
    }
}

/// Makes `fd_set` the set to hand to select, and says whether any socket is
/// still active.
pub fn arm(fd_set: &mut FdSet, sockets: &[SocketFd], finished: &[bool]) -> (has_active: bool)
    requires
        finished@.len() == sockets@.len(),
    ensures
        final(fd_set)@ == armed(sockets@, finished@),
        has_active == exists|i: int| 0 <= i < finished@.len() && !finished@[i],
{
    fd_set.clear();
    let mut has_active = false;
    let mut i: usize = 0;
    while i < sockets.len()
        invariant
            finished@.len() == sockets@.len(),
            i <= sockets@.len(),
            fd_set@ == armed(sockets@.take(i as int), finished@.take(i as int)),
            has_active == exists|j: int| 0 <= j < i && !finished@[j],
        decreases sockets@.len() - i,
    {
        let ghost before = fd_set@;
        if !finished[i] {
            fd_set.set(&sockets[i]);
            has_active = true;
        }
        proof {
            let now = armed(sockets@.take(i + 1), finished@.take(i + 1));
            assert forall|fd: int| fd_set@.contains(fd) == now.contains(fd) by {
                if before.contains(fd) {
                    let j = choose|j: int|
                        0 <= j < i && !finished@.take(i as int)[j] && (#[trigger] sockets@.take(
                            i as int,
                        )[j]).0 == fd;
                    assert(sockets@.take(i + 1)[j].0 == fd && !finished@.take(i + 1)[j]);
                }
                if !finished@[i as int] && sockets@[i as int].0 == fd && 0 <= fd < 1024 {
                    assert(sockets@.take(i + 1)[i as int].0 == fd && !finished@.take(i + 1)[i as int]);
                }
                if now.contains(fd) {
                    let j = choose|j: int|
                        0 <= j < i + 1 && !finished@.take(i + 1)[j] && (#[trigger] sockets@.take(
                            i + 1,
                        )[j]).0 == fd;
                    if j < i {
                        assert(sockets@.take(i as int)[j].0 == fd && !finished@.take(i as int)[j]);
                    }
                }
            }
            assert(fd_set@ =~= now);
        }
        i = i + 1;
    }
    assert(sockets@.take(i as int) =~= sockets@);
    assert(finished@.take(i as int) =~= finished@);
    has_active
}

/// The places of the sockets that select left in the set, among those whose
/// mark is clear, in rising order; none unless select found something ready.
pub fn ready(fd_set: &FdSet, sockets: &[SocketFd], finished: &[bool], select_result: i32) -> (ready:
    Vec<usize>)
    requires
        finished@.len() == sockets@.len(),
    ensures
        ready@ == if select_result > 0 {
            set_indices(selected(fd_set@, sockets@, finished@))
        } else {
            Seq::<usize>::empty()
        },
{
    if select_result <= 0 {
        return Vec::new();
    }
    let mut found: Vec<bool> = Vec::new();
    let mut i: usize = 0;
    while i < sockets.len()
        invariant
            finished@.len() == sockets@.len(),
            i <= sockets@.len(),
            found@.len() == i,
            forall|j: int|
                0 <= j < i ==> found@[j] == (!finished@[j] && fd_set@.contains(
                    sockets@[j].0 as int,
                )),
        decreases sockets@.len() - i,
    {
        let is = !finished[i] && fd_set.is_set(&sockets[i]);
        found.push(is);
        i = i + 1;
    }
    assert(found@ =~= selected(fd_set@, sockets@, finished@));
    indices_of(found.as_slice())
}

/// What one select for writability showed.
pub struct Connected {
    /// The sockets whose connect has completed and whose pending error is to
    /// be asked for, in rising order.
    pub completed: Vec<usize>,
    /// True if that is every socket: the wait is over unless one of them
    /// reports an error.
    pub all: bool,
}

/// One turn of waiting until every socket is connected, after select has
/// returned `select_result` and left in `fd_set` the sockets that are
/// writable.
pub fn wait_for_connections(fd_set: &FdSet, sockets: &[SocketFd], select_result: i32) -> (connected:
    Connected)
    ensures
        connected.completed@ == if select_result > 0 {
            set_indices(
                selected(fd_set@, sockets@, Seq::new(sockets@.len(), |i: int| false)),
            )
        } else {
            Seq::<usize>::empty()
        },
        connected.all == (select_result > 0 && forall|i: int|
            0 <= i < sockets@.len() ==> fd_set@.contains((#[trigger] sockets@[i]).0 as int)),
{
    let none = none_set(sockets.len());
    let completed = ready(fd_set, sockets, none.as_slice(), select_result);
    let mut all = select_result > 0;
    let mut i: usize = 0;
    while i < sockets.len()
        invariant
            i <= sockets@.len(),
            all == (select_result > 0 && forall|j: int|
                0 <= j < i ==> fd_set@.contains((#[trigger] sockets@[j]).0 as int)),
        decreases sockets@.len() - i,
    {
        if !fd_set.is_set(&sockets[i]) {
            all = false;
        }
        i = i + 1;
    }
    Connected { completed, all }
}

/// What the pending error of a socket whose connect has completed means:
/// zero is success.
pub fn connection(error: i32) -> (outcome: Result<(), SysError>)
    ensures
        outcome == if error != 0 {
            Err::<(), SysError>(SysError::ConnectionFailed(error))
        } else {
            Ok(())
        },
{
    if error != 0 {
        return Err(SysError::ConnectionFailed(error));
    }
    Ok(())
}

/// One turn of receiving every response, after select has returned
/// `select_result` and left in `fd_set` the sockets that are readable: the
/// sockets to receive from, in rising order.
pub fn receive_all_non_blocking(
    fd_set: &FdSet,
    sockets: &[SocketFd],
    finished: &[bool],
    select_result: i32,
) -> (receive: Vec<usize>)
    requires
        finished@.len() == sockets@.len(),
    ensures
        receive@ == if select_result > 0 {
            set_indices(selected(fd_set@, sockets@, finished@))
        } else {
            Seq::<usize>::empty()
        },
{
    ready(fd_set, sockets, finished, select_result)
}

} // verus!
