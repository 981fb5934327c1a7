pub mod connect;
pub mod epoll;
pub mod epoll_event;
pub mod epoll_fd;
pub mod error;
pub mod fd_set;
pub mod getsockopt;
pub mod libc;
pub mod net_utils;
pub mod poll;
pub mod poll_fd;
pub mod recv;
pub mod select;
pub mod send;
pub mod socket;
pub mod socket_fd;

pub use connect::connect;
pub use epoll::{epoll_create1, epoll_ctl, epoll_ctl_remove, epoll_wait};
pub use epoll_event::EpollEvent;
pub use epoll_fd::EpollFd;
pub use error::{Call, SysError};
pub use fd_set::FdSet;
pub use getsockopt::{get_socket_error, getsockopt};
pub use net_utils::{create_ipv4_sockaddr, parse_network_address};
pub use poll::poll;
pub use poll_fd::PollFd;
pub use recv::recv;
pub use select::select;
pub use send::send;
pub use socket::{create_non_blocking_tcp_socket, create_tcp_socket};
pub use socket_fd::SocketFd;
