use manual_futures::sys_libc::libc::{
    epoll_event, pollfd, AF_INET, EAGAIN, EINPROGRESS, EPOLLIN, EPOLLOUT, EWOULDBLOCK, POLLIN,
    POLLOUT,
};
use manual_futures::sys_libc::socket_fd::{max_fd, position};
use manual_futures::sys_libc::{
    connect, create_ipv4_sockaddr, create_non_blocking_tcp_socket, create_tcp_socket,
    epoll_create1, epoll_ctl, epoll_ctl_remove, epoll_wait, get_socket_error, getsockopt,
    parse_network_address, poll, recv, select, send, Call, EpollEvent, EpollFd, FdSet, PollFd,
    SocketFd, SysError,
};

#[test]
fn fd_set_starts_empty() {
    let set = FdSet::new();
    assert!(!set.is_set(&SocketFd(0)));
    assert!(!set.is_set(&SocketFd(1023)));
    assert!(set.members().is_empty());
    assert_eq!(set.as_words(), [0u64; 16]);
}

#[test]
fn fd_set_holds_what_was_set() {
    let mut set = FdSet::new();
    set.set(&SocketFd(3));
    set.set(&SocketFd(64));
    set.set(&SocketFd(1023));
    set.set(&SocketFd(3));
    assert!(set.is_set(&SocketFd(3)));
    assert!(set.is_set(&SocketFd(64)));
    assert!(set.is_set(&SocketFd(1023)));
    assert!(!set.is_set(&SocketFd(4)));
    assert!(!set.is_set(&SocketFd(67)));
    assert_eq!(set.members(), vec![3, 64, 1023]);
}

#[test]
fn fd_set_layout_is_bit_fd_mod_64_of_word_fd_div_64() {
    let mut set = FdSet::new();
    set.set(&SocketFd(0));
    set.set(&SocketFd(63));
    set.set(&SocketFd(65));
    let words = set.as_words();
    assert_eq!(words[0], 1 | (1 << 63));
    assert_eq!(words[1], 2);
    assert_eq!(words[2], 0);
    let mut left_by_select = [0u64; 16];
    left_by_select[1] = 2;
    let set = FdSet::from_words(left_by_select);
    assert_eq!(set.members(), vec![65]);
    assert!(set.is_set(&SocketFd(65)));
    assert!(!set.is_set(&SocketFd(0)));
}

#[test]
fn fd_set_ignores_descriptors_it_has_no_room_for() {
    let mut set = FdSet::new();
    set.set(&SocketFd(1024));
    set.set(&SocketFd(-1));
    set.set(&SocketFd(i32::MAX));
    set.set(&SocketFd(i32::MIN));
    assert!(set.members().is_empty());
    assert!(!set.is_set(&SocketFd(1024)));
    assert!(!set.is_set(&SocketFd(-1)));
    assert!(!set.is_set(&SocketFd(i32::MIN)));
}

#[test]
fn fd_set_clear_removes_everything() {
    let mut set = FdSet::new();
    set.set(&SocketFd(3));
    set.set(&SocketFd(700));
    set.clear();
    assert!(!set.is_set(&SocketFd(3)));
    assert!(set.members().is_empty());
}

#[test]
fn poll_fd_starts_with_no_returned_events() {
    let socket = SocketFd(8);
    let entry = PollFd::new(&socket, POLLOUT);
    assert_eq!(entry.as_raw(), pollfd { fd: 8, events: POLLOUT, revents: 0 });
    assert_eq!(entry.fd(), 8);
    assert_eq!(entry.events(), 4);
    assert_eq!(entry.revents(), 0);
}

#[test]
fn poll_fd_setters_touch_one_field_each() {
    let socket = SocketFd(8);
    let mut entry = PollFd::new(&socket, POLLOUT);
    entry.set_revents(POLLOUT);
    assert_eq!(entry.as_raw(), pollfd { fd: 8, events: POLLOUT, revents: POLLOUT });
    entry.set_events(POLLIN);
    assert_eq!(entry.as_raw(), pollfd { fd: 8, events: POLLIN, revents: POLLOUT });
    entry.reset_revents();
    assert_eq!(entry.as_raw(), pollfd { fd: 8, events: POLLIN, revents: 0 });
}

#[test]
fn epoll_event_carries_the_descriptor() {
    let socket = SocketFd(12);
    let mut event = EpollEvent::new(&socket, EPOLLIN | EPOLLOUT);
    assert_eq!(event.as_raw(), epoll_event { events: 5, data: 12 });
    assert_eq!(event.fd(), 12);
    assert_eq!(event.events(), 5);
    event.set_events(EPOLLIN);
    assert_eq!(event.as_raw(), epoll_event { events: 1, data: 12 });
}

#[test]
fn epoll_event_round_trips_a_negative_descriptor() {
    let socket = SocketFd(-1);
    let event = EpollEvent::new(&socket, 0);
    assert_eq!(event.as_raw().data, u64::MAX);
    assert_eq!(event.fd(), -1);
    let socket = SocketFd(i32::MIN);
    assert_eq!(EpollEvent::new(&socket, 0).fd(), i32::MIN);
}

#[test]
fn descriptors_compare_as_their_numbers() {
    assert!(SocketFd(3) == SocketFd(3));
    assert!(SocketFd(3) != SocketFd(4));
    assert!(SocketFd(3) < SocketFd(4));
    assert!(SocketFd(-1) < SocketFd(0));
    assert!(SocketFd(9) > SocketFd(4));
    assert!(SocketFd(4) <= SocketFd(4));
    assert!(EpollFd(3) == EpollFd(3));
    assert!(EpollFd(3) != EpollFd(5));
}

#[test]
fn max_fd_and_position() {
    let sockets = vec![SocketFd(5), SocketFd(9), SocketFd(7), SocketFd(9)];
    assert_eq!(max_fd(&sockets), Some(9));
    assert_eq!(max_fd(&[]), None);
    assert_eq!(position(&sockets, 9), Some(1));
    assert_eq!(position(&sockets, 7), Some(2));
    assert_eq!(position(&sockets, 6), None);
}

#[test]
fn connect_in_progress_is_no_failure() {
    assert_eq!(connect(0, 0), Ok(()));
    assert_eq!(connect(-1, EINPROGRESS), Ok(()));
    assert_eq!(connect(-1, 111), Err(SysError::Os { call: Call::Connect, errno: 111 }));
}

#[test]
fn recv_tells_count_would_block_and_failure_apart() {
    assert_eq!(recv(17, 0), Ok(Some(17)));
    assert_eq!(recv(0, 0), Ok(Some(0)));
    assert_eq!(recv(-1, EWOULDBLOCK), Ok(None));
    assert_eq!(recv(-1, EAGAIN), Ok(None));
    assert_eq!(recv(-1, 104), Err(SysError::Os { call: Call::Recv, errno: 104 }));
}

#[test]
fn send_tells_count_would_block_and_failure_apart() {
    assert_eq!(send(54, 0), Ok(Some(54)));
    assert_eq!(send(-1, EWOULDBLOCK), Ok(None));
    assert_eq!(send(-1, 32), Err(SysError::Os { call: Call::Send, errno: 32 }));
}

#[test]
fn minus_one_is_the_failure_of_every_call() {
    assert_eq!(poll(2, 0), Ok(2));
    assert_eq!(poll(0, 0), Ok(0));
    assert_eq!(poll(-1, 4), Err(SysError::Os { call: Call::Poll, errno: 4 }));
    assert_eq!(select(1, 0), Ok(1));
    assert_eq!(select(-1, 9), Err(SysError::Os { call: Call::Select, errno: 9 }));
    assert_eq!(epoll_create1(4, 0), Ok(EpollFd(4)));
    assert_eq!(epoll_create1(-1, 24), Err(SysError::Os { call: Call::EpollCreate1, errno: 24 }));
    assert_eq!(epoll_ctl(0, 0), Ok(()));
    assert_eq!(epoll_ctl(-1, 17), Err(SysError::Os { call: Call::EpollCtl, errno: 17 }));
    assert_eq!(epoll_ctl_remove(0, 0), Ok(()));
    assert_eq!(epoll_ctl_remove(-1, 2), Err(SysError::Os { call: Call::EpollCtlRemove, errno: 2 }));
    assert_eq!(epoll_wait(3, 0), Ok(3));
    assert_eq!(epoll_wait(-1, 4), Err(SysError::Os { call: Call::EpollWait, errno: 4 }));
    assert_eq!(create_tcp_socket(5, 0), Ok(SocketFd(5)));
    assert_eq!(create_tcp_socket(-1, 24), Err(SysError::Os { call: Call::Socket, errno: 24 }));
    assert_eq!(create_non_blocking_tcp_socket(6, 0), Ok(SocketFd(6)));
    assert_eq!(
        create_non_blocking_tcp_socket(-1, 23),
        Err(SysError::Os { call: Call::Socket, errno: 23 })
    );
    assert_eq!(getsockopt(0, 0, 4), Ok(4));
    assert_eq!(getsockopt(-1, 88, 4), Err(SysError::Os { call: Call::GetSockOpt, errno: 88 }));
}

#[test]
fn socket_error_query_reports_zero_when_it_succeeds() {
    assert_eq!(get_socket_error(0, 0, 4), Ok(0));
    assert_eq!(get_socket_error(-1, 88, 4), Err(SysError::Os { call: Call::GetSockOpt, errno: 88 }));
}

#[test]
fn all_bits_set_is_no_address() {
    assert_eq!(parse_network_address(0x0100_007f), Ok(0x0100_007f));
    assert_eq!(parse_network_address(0), Ok(0));
    assert_eq!(parse_network_address(u32::MAX), Err(SysError::InvalidAddress));
}

#[test]
fn ipv4_socket_address() {
    let addr = create_ipv4_sockaddr(0x0100_007f, 0xb80b).unwrap();
    assert_eq!(addr.sin_family, AF_INET as u16);
    assert_eq!(addr.sin_family, 2);
    assert_eq!(addr.sin_port, 0xb80b);
    assert_eq!(addr.sin_addr, 0x0100_007f);
    assert_eq!(addr.sin_zero, [0u8; 8]);
    assert!(matches!(create_ipv4_sockaddr(u32::MAX, 80), Err(SysError::InvalidAddress)));
}
