use vstd::prelude::*;

verus! {

pub const EINPROGRESS: i32 = 115;

pub const EWOULDBLOCK: i32 = 11;

pub const EAGAIN: i32 = 11;

pub const SO_ERROR: i32 = 4;

pub const SOL_SOCKET: i32 = 1;

/// IPv4 family.
pub const AF_INET: i32 = 2;

/// IPv6 family.
pub const AF_INET6: i32 = 10;

pub const SOCK_STREAM: i32 = 1;

pub const NON_BLOCKING: i32 = 0o4000;

pub const IPPROTO_TCP: i32 = 6;

// Poll events
pub const POLLIN: i16 = 0x001;

pub const POLLPRI: i16 = 0x002;

pub const POLLOUT: i16 = 0x004;

pub const POLLERR: i16 = 0x008;

pub const POLLHUP: i16 = 0x010;

pub const POLLNVAL: i16 = 0x020;

pub const POLLRDNORM: i16 = 0x040;

pub const POLLRDBAND: i16 = 0x080;

pub const POLLWRNORM: i16 = 0x100;

pub const POLLWRBAND: i16 = 0x200;

pub const POLLMSG: i16 = 0x400;

pub const POLLRDHUP: i16 = 0x2000;

// op values for epoll_ctl
pub const EPOLL_CTL_ADD: i32 = 1;

pub const EPOLL_CTL_DEL: i32 = 2;

pub const EPOLL_CTL_MOD: i32 = 3;

// events for epoll_event.events (bit mask, to be ORed together)
pub const EPOLLIN: u32 = 0x001;

pub const EPOLLPRI: u32 = 0x002;

pub const EPOLLOUT: u32 = 0x004;

/// Always checked, no need to set.
pub const EPOLLERR: u32 = 0x008;

/// Always checked, no need to set.
pub const EPOLLHUP: u32 = 0x010;

/// Always checked, no need to set.
pub const EPOLLNVAL: u32 = 0x020;

pub const EPOLLRDNORM: u32 = 0x040;

pub const EPOLLRDBAND: u32 = 0x080;

pub const EPOLLWRNORM: u32 = 0x100;

pub const EPOLLWRBAND: u32 = 0x200;

pub const EPOLLMSG: u32 = 0x400;

pub const EPOLLRDHUP: u32 = 0x2000;

pub const EPOLLONESHOT: u32 = 0x4000_0000;

/// Edge triggered behavior.
pub const EPOLLET: u32 = 0x8000_0000;

// epoll_create1 flags
pub const EPOLL_CLOEXEC: i32 = 0o2000000;

pub const EPOLL_NONBLOCK: i32 = 0o4000;

/// An IPv4 socket address, port and address in network byte order.
#[allow(non_camel_case_types)]
#[derive(Clone, Copy, Debug)]
pub struct sockaddr_in {
    pub sin_family: u16,
    pub sin_port: u16,
    pub sin_addr: u32,
    pub sin_zero: [u8; 8],
}

/// A socket address of any family.
#[allow(non_camel_case_types)]
#[derive(Clone, Copy, Debug)]
pub struct sockaddr {
    pub sa_family: u16,
    pub sa_data: [u8; 14],
}

/// One entry of the array that poll works on.
#[allow(non_camel_case_types)]
#[derive(Clone, Copy, Debug, PartialEq, Eq, Structural)]
pub struct pollfd {
    pub fd: i32,
    pub events: i16,
    pub revents: i16,
}

/// One epoll event: the event mask, and the 64 bits of user data that come
/// back with it.
#[allow(non_camel_case_types)]
#[derive(Clone, Copy, Debug, PartialEq, Eq, Structural)]
pub struct epoll_event {
    pub events: u32,
    pub data: u64,
}

} // verus!
