use crate::sys_libc::libc::epoll_event;
use crate::sys_libc::socket_fd::SocketFd;
use core::marker::PhantomData;
use vstd::prelude::*;

verus! {

/// One epoll event whose user data is the descriptor of a socket, tied to
/// the lifetime of that socket.
pub struct EpollEvent<'a>(epoll_event, PhantomData<&'a SocketFd>);

/// The user data that stands for a descriptor: its number, sign-extended to
/// 64 bits.
pub open spec fn data_of(fd: i32) -> u64 {
    fd as u64
}

/// The descriptor that user data stands for: its low 32 bits.
pub open spec fn fd_of(data: u64) -> i32 {
    data as i32
}

impl<'a> View for EpollEvent<'a> {
    type V = epoll_event;

    closed spec fn view(&self) -> epoll_event {
        self.0
    }
}

impl<'a> EpollEvent<'a> {
    /// An event for `sockfd` with the mask `events`.
    pub fn new(sockfd: &'a SocketFd, events: u32) -> (event: Self)
        ensures
            event@ == (epoll_event { events, data: data_of(sockfd.0) }),
    {
        EpollEvent(
            epoll_event { events, data: (#[verifier::truncate] (sockfd.0 as u64)) },
            PhantomData,
        )
    }

    /// The descriptor in the user data.
    pub fn fd(&self) -> (fd: i32)
        ensures
            fd == fd_of(self@.data),
    {
        #[verifier::truncate]
        (self.0.data as i32)
    }

    /// Replaces the event mask.
    pub fn set_events(&mut self, events: u32)
        ensures
            final(self)@ == (epoll_event { events, ..old(self)@ }),
    {
        self.0.events = events;
    }

    /// The event mask.
    pub fn events(&self) -> (events: u32)
        ensures
            events == self@.events,
    {
        self.0.events
    }

    /// The record as the kernel takes it.
    pub fn as_raw(&self) -> (raw: epoll_event)
        ensures
            raw == self@,
    {
        self.0
    }
}

/// The descriptor put into an event comes out of it unchanged, negative ones
/// too.
pub proof fn lemma_fd_round_trip(fd: i32)
    ensures
        fd_of(data_of(fd)) == fd,
{
    assert((fd as u64) as i32 == fd) by (bit_vector);
}

} // verus!
