use core::cmp::Ordering;
use vstd::prelude::*;
use vstd::std_specs::cmp::PartialOrdSpecImpl;

verus! {

/// The descriptor of one socket. It is deliberately neither `Clone` nor
/// `Copy`: whoever holds the value stands for the owner of the socket.
/// Descriptors compare and order as their numbers do.
#[derive(Debug, PartialEq, Eq, Structural)]
pub struct SocketFd(pub i32);

impl PartialOrd for SocketFd {
    fn partial_cmp(&self, other: &Self) -> (order: Option<Ordering>) {
        self.0.partial_cmp(&other.0)
    }
}

impl PartialOrdSpecImpl for SocketFd {
    open spec fn obeys_partial_cmp_spec() -> bool {
        true
    }

    open spec fn partial_cmp_spec(&self, other: &Self) -> Option<Ordering> {
        if self.0 < other.0 {
            Some(Ordering::Less)
        } else if self.0 == other.0 {
            Some(Ordering::Equal)
        } else {
            Some(Ordering::Greater)
        }
    }
}

/// The largest descriptor among `sockets`, or `None` if there is none.
pub fn max_fd(sockets: &[SocketFd]) -> (max: Option<i32>)
    ensures
        sockets@.len() == 0 <==> max is None,
        max matches Some(m) ==> {
            &&& exists|i: int| 0 <= i < sockets@.len() && sockets@[i].0 == m
            &&& forall|i: int| 0 <= i < sockets@.len() ==> sockets@[i].0 <= m
        },
{
    if sockets.len() == 0 {
        return None;
    }
    let mut max: i32 = sockets[0].0;
    let mut i: usize = 1;
    while i < sockets.len()
        invariant
            1 <= i <= sockets@.len(),
            exists|j: int| 0 <= j < i && sockets@[j].0 == max,
            forall|j: int| 0 <= j < i ==> sockets@[j].0 <= max,
        decreases sockets@.len() - i,
    {
        if sockets[i].0 > max {
            max = sockets[i].0;
        }
        i = i + 1;
    }
    Some(max)
}

/// The place of the socket with descriptor `fd` among `sockets`: the first,
/// if several have it.
pub fn position(sockets: &[SocketFd], fd: i32) -> (place: Option<usize>)
    ensures
        place is None <==> forall|i: int| 0 <= i < sockets@.len() ==> sockets@[i].0 != fd,
        place matches Some(p) ==> {
            &&& p < sockets@.len()
            &&& sockets@[p as int].0 == fd
            &&& forall|i: int| 0 <= i < p ==> sockets@[i].0 != fd
        },
{
    let mut i: usize = 0;
    while i < sockets.len()
        invariant
            i <= sockets@.len(),
            forall|j: int| 0 <= j < i ==> sockets@[j].0 != fd,
        decreases sockets@.len() - i,
    {
        if sockets[i].0 == fd {
            return Some(i);
        }
        i = i + 1;
    }
    None
}

} // verus!
