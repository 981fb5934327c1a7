//! A minimal cooperative task runtime, stated as verified state machines.
//!
//! A socket operation (`connect`, `send`, `receive`) never touches the
//! operating system itself: the caller performs the non-blocking call and
//! hands the outcome to `poll`, which decides what the operation has become
//! and whether it must be suspended until the socket is ready. `request`
//! chains the three into one task. The reactor (`waker_reactor`) keeps the
//! one current registration, the parker (`waker`) keeps the wake flag, and
//! the executor (`waker_executor`) decides between attempting again and
//! waiting. `runtime` puts the three together and shows that no wake is lost.
//!
//! `sys_libc` holds the plain-data side of the raw socket interface: file
//! descriptor sets, poll and epoll records, and the classification of what a
//! system call returned. `sequential` and the `non_blocking_*` modules hold
//! the decisions of the programs that talk to several sockets at once with
//! select, poll and epoll.

pub mod connect;
pub mod error;
pub mod flags;
pub mod non_blocking_epoll;
pub mod non_blocking_mio;
pub mod non_blocking_poll;
pub mod non_blocking_select;
pub mod non_blocking_std;
pub mod receive;
pub mod request;
pub mod responses;
pub mod runtime;
pub mod send;
pub mod sequential;
pub mod socket;
pub mod sys_libc;
pub mod task;
pub mod waker;
pub mod waker_executor;
pub mod waker_reactor;
