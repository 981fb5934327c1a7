use crate::sys_libc::libc::pollfd;
use crate::sys_libc::socket_fd::SocketFd;
use core::marker::PhantomData;
use vstd::prelude::*;

verus! {

/// One entry for poll, tied to the lifetime of the socket it names so that
/// no entry outlives its descriptor.
pub struct PollFd<'a>(pollfd, PhantomData<&'a SocketFd>);

impl<'a> View for PollFd<'a> {
    type V = pollfd;

    closed spec fn view(&self) -> pollfd {
        self.0
    }
}

impl<'a> PollFd<'a> {
    /// An entry that asks for `events` on `sockfd`, with nothing returned
    /// yet.
    pub fn new(sockfd: &'a SocketFd, events: i16) -> (entry: Self)
        ensures
            entry@ == (pollfd { fd: sockfd.0, events, revents: 0 }),
    {
        PollFd(pollfd { fd: sockfd.0, events, revents: 0 }, PhantomData)
    }

    /// The descriptor the entry names.
    pub fn fd(&self) -> (fd: i32)
        ensures
            fd == self@.fd,
    {
        self.0.fd
    }

    /// Replaces the events asked for.
    pub fn set_events(&mut self, events: i16)
        ensures
            final(self)@ == (pollfd { events, ..old(self)@ }),
    {
        self.0.events = events;
    }

    /// The events asked for.
    pub fn events(&self) -> (events: i16)
        ensures
            events == self@.events,
    {
        self.0.events
    }

    /// The events that the last poll returned for this entry.
    pub fn revents(&self) -> (revents: i16)
        ensures
            revents == self@.revents,
    {
        self.0.revents
    }

    /// Stores what a poll returned for this entry.
    pub fn set_revents(&mut self, revents: i16)
        ensures
            final(self)@ == (pollfd { revents, ..old(self)@ }),
    {
        self.0.revents = revents;
    }

    /// The record as the kernel takes it.
    pub fn as_raw(&self) -> (raw: pollfd)
        ensures
            raw == self@,
    {
        self.0
    }

    /// Forgets the returned events.
    pub fn reset_revents(&mut self)
        ensures
            final(self)@ == (pollfd { revents: 0, ..old(self)@ }),
    {
        self.0.revents = 0;
    }
}

} // verus!
