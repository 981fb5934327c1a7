use vstd::prelude::*;

verus! {

/// The descriptor of one epoll instance. Two are equal when their numbers
/// are.
#[derive(Debug, PartialEq, Eq, Structural)]
pub struct EpollFd(pub i32);

} // verus!
