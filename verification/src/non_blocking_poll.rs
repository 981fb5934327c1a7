use crate::flags::{indices_of, set_indices};
use crate::responses::Responses;
use crate::sys_libc::libc::{pollfd, POLLERR, POLLHUP, POLLIN, POLLNVAL, POLLOUT};
use crate::sys_libc::{PollFd, SysError};
use vstd::prelude::*;

verus! {

/// How long one poll waits, in milliseconds.
pub const TIMEOUT: i32 = 5000;

/// True if the entry came back with one of the events of `mask`.
pub open spec fn has_any(entry: pollfd, mask: i16) -> bool {
    entry.revents & mask != 0
}

/// True if the entry came back with an error, a hang-up or an invalid
/// descriptor.
pub open spec fn failed(entry: pollfd) -> bool {
    entry.revents & (POLLERR | POLLHUP | POLLNVAL) != 0
}

/// The entries as the records they hold.
pub open spec fn records(poll_fds: Seq<PollFd>) -> Seq<pollfd> {
    Seq::new(poll_fds.len(), |i: int| poll_fds[i]@)
}

/// What a poll that returned `poll_result` means before any entry is looked
/// at for data: a timeout if nothing is ready, an error if any entry failed.
pub open spec fn checked(entries: Seq<pollfd>, poll_result: i32) -> Result<(), SysError> {
    if poll_result == 0 {
        Err(SysError::Timeout)
    } else if exists|i: int| 0 <= i < entries.len() && failed(#[trigger] entries[i]) {
        Err(SysError::Sockets)
    } else {
        Ok(())
    }
}

/// True if every entry came back with one of the events of `mask`.
pub open spec fn all_have(entries: Seq<pollfd>, mask: i16) -> bool {
    forall|i: int| 0 <= i < entries.len() ==> has_any(#[trigger] entries[i], mask)
}

/// Forgets the returned events of every entry.
pub fn reset_revents(poll_fds: &mut [PollFd])
    ensures
        final(poll_fds)@.len() == old(poll_fds)@.len(),
        forall|i: int|
            0 <= i < old(poll_fds)@.len() ==> (#[trigger] final(poll_fds)@[i])@ == (pollfd {
                revents: 0,
                ..old(poll_fds)@[i]@
            }),
{
    let mut i: usize = 0;
    while i < poll_fds.len()
        invariant
            poll_fds@.len() == old(poll_fds)@.len(),
            i <= poll_fds@.len(),
            forall|j: int|
                0 <= j < i ==> (#[trigger] poll_fds@[j])@ == (pollfd {
                    revents: 0,
                    ..old(poll_fds)@[j]@
                }),
            forall|j: int| i <= j < poll_fds@.len() ==> poll_fds@[j] == old(poll_fds)@[j],
        decreases poll_fds@.len() - i,
    {
        poll_fds[i].reset_revents();
        i = i + 1;
    }
}

/// Asks for `events` in every entry.
pub fn set_events(poll_fds: &mut [PollFd], events: i16)
    ensures
        final(poll_fds)@.len() == old(poll_fds)@.len(),
        forall|i: int|
            0 <= i < old(poll_fds)@.len() ==> (#[trigger] final(poll_fds)@[i])@ == (pollfd {
                events,
                ..old(poll_fds)@[i]@
            }),
{
    let mut i: usize = 0;
    while i < poll_fds.len()
        invariant
            poll_fds@.len() == old(poll_fds)@.len(),
            i <= poll_fds@.len(),
            forall|j: int|
                0 <= j < i ==> (#[trigger] poll_fds@[j])@ == (pollfd {
                    events,
                    ..old(poll_fds)@[j]@
                }),
            forall|j: int| i <= j < poll_fds@.len() ==> poll_fds@[j] == old(poll_fds)@[j],
        decreases poll_fds@.len() - i,
    {
        poll_fds[i].set_events(events);
        i = i + 1;
    }
}

/// What a poll that returned `poll_result` means before any entry is looked
/// at for data.
pub fn check(poll_fds: &[PollFd], poll_result: i32) -> (outcome: Result<(), SysError>)
    ensures
        outcome == checked(records(poll_fds@), poll_result),
{
    if poll_result == 0 {
        return Err(SysError::Timeout);
    }
    let mut i: usize = 0;
    while i < poll_fds.len()
        invariant
            poll_result != 0,
            i <= poll_fds@.len(),
            forall|j: int| 0 <= j < i ==> !failed(#[trigger] records(poll_fds@)[j]),
        decreases poll_fds@.len() - i,
    {
        if poll_fds[i].revents() & (POLLERR | POLLHUP | POLLNVAL) != 0 {
            assert(failed(records(poll_fds@)[i as int]));
            return Err(SysError::Sockets);
        }
        i = i + 1;
    }
    Ok(())
}

/// True if every entry came back with one of the events of `mask`.
pub fn all_ready(poll_fds: &[PollFd], mask: i16) -> (all: bool)
    ensures
        all == all_have(records(poll_fds@), mask),
{
    let mut i: usize = 0;
    while i < poll_fds.len()
        invariant
            i <= poll_fds@.len(),
            forall|j: int| 0 <= j < i ==> has_any(#[trigger] records(poll_fds@)[j], mask),
        decreases poll_fds@.len() - i,
    {
        if poll_fds[i].revents() & mask == 0 {
            assert(!has_any(records(poll_fds@)[i as int], mask));
            return false;
        }
        i = i + 1;
    }
    true
}

/// One turn of waiting until every socket is connected, which a socket shows
/// by becoming writable. With no poll result the wait begins: the returned
/// events are forgotten. With one, the poll has just returned it and filled
/// the entries in: a timeout or a failed entry ends the wait with an error.
/// `Ok(true)` means that all are connected, `Ok(false)` that another poll is
/// due.
pub fn wait_for_connections(poll_fds: &mut [PollFd], poll_result: Option<i32>) -> (connected:
    Result<bool, SysError>)
    ensures
        final(poll_fds)@.len() == old(poll_fds)@.len(),
        poll_result is None ==> forall|i: int|
            0 <= i < old(poll_fds)@.len() ==> (#[trigger] final(poll_fds)@[i])@ == (pollfd {
                revents: 0,
                ..old(poll_fds)@[i]@
            }),
        poll_result is Some ==> final(poll_fds)@ == old(poll_fds)@,
        connected == match poll_result {
            Some(result) => match checked(records(old(poll_fds)@), result) {
                Ok(_) => Ok::<bool, SysError>(all_have(records(old(poll_fds)@), POLLOUT)),
                Err(error) => Err(error),
            },
            None => Ok(all_have(records(final(poll_fds)@), POLLOUT)),
        },
{
    match poll_result {
        None => {
            reset_revents(poll_fds);
        },
        Some(result) => {
            match check(poll_fds, result) {
                Ok(_) => {},
                Err(error) => {
                    return Err(error);
                },
            }
        },
    }
    Ok(all_ready(poll_fds, POLLOUT))
}

/// The sockets to receive from after a poll: those not complete whose entry
/// came back readable.
pub open spec fn readable(entries: Seq<pollfd>, finished: Seq<bool>) -> Seq<bool> {
    Seq::new(entries.len(), |i: int| !finished[i] && has_any(entries[i], POLLIN))
}

/// One turn of receiving every response. With no poll result the receiving
/// begins: every entry asks for readability and the returned events are
/// forgotten. With one, the poll has just returned it and filled the entries
/// in: a timeout or a failed entry is an error, and otherwise the sockets to
/// receive from are given, in rising order.
pub fn receive_all_non_blocking(
    poll_fds: &mut [PollFd],
    responses: &Responses,
    poll_result: Option<i32>,
) -> (receive: Result<Vec<usize>, SysError>)
    requires
        responses@.len() == old(poll_fds)@.len(),
    ensures
        final(poll_fds)@.len() == old(poll_fds)@.len(),
        poll_result is None ==> forall|i: int|
            0 <= i < old(poll_fds)@.len() ==> (#[trigger] final(poll_fds)@[i])@ == (pollfd {
                events: POLLIN,
                revents: 0,
                ..old(poll_fds)@[i]@
            }),
        poll_result is Some ==> final(poll_fds)@ == old(poll_fds)@,
        match poll_result {
            None => receive matches Ok(sockets) && sockets@.len() == 0,
            Some(result) => match checked(records(old(poll_fds)@), result) {
                Ok(_) => receive matches Ok(sockets) && sockets@ == set_indices(
                    readable(records(old(poll_fds)@), responses@.finished),
                ),
                Err(error) => receive == Err::<Vec<usize>, SysError>(error),
            },
        },
{
    match poll_result {
        None => {
            reset_revents(poll_fds);
            set_events(poll_fds, POLLIN);
            Ok(Vec::new())
        },
        Some(result) => {
            match check(poll_fds, result) {
                Ok(_) => {},
                Err(error) => {
                    return Err(error);
                },
            }
            let count = responses.len();
            let mut wanted: Vec<bool> = Vec::new();
            let mut i: usize = 0;
            while i < count
                invariant
                    count == poll_fds@.len(),
                    count == responses@.len(),
                    responses@.wf(),
                    i <= count,
                    wanted@.len() == i,
                    forall|j: int|
                        0 <= j < i ==> wanted@[j] == (!responses@.finished[j] && has_any(
                            poll_fds@[j]@,
                            POLLIN,
                        )),
                decreases count - i,
            {
                let want = !responses.is_finished(i) && poll_fds[i].revents() & POLLIN != 0;
                wanted.push(want);
                i = i + 1;
            }
            assert(wanted@ =~= readable(records(poll_fds@), responses@.finished));
            Ok(indices_of(wanted.as_slice()))
        },
    }
}

} // verus!
