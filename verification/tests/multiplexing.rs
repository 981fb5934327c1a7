use manual_futures::flags::{all_set, indices_of, none_set};
use manual_futures::non_blocking_epoll;
use manual_futures::non_blocking_mio;
use manual_futures::non_blocking_mio::Readiness;
use manual_futures::non_blocking_poll;
use manual_futures::non_blocking_select;
use manual_futures::non_blocking_std;
use manual_futures::responses::{absorb, Responses, Stream};
use manual_futures::sequential::receive_all;
use manual_futures::sys_libc::libc::{
    epoll_event, EPOLLERR, EPOLLHUP, EPOLLIN, EPOLLOUT, POLLERR, POLLHUP, POLLIN, POLLNVAL, POLLOUT,
};
use manual_futures::sys_libc::{FdSet, PollFd, SocketFd, SysError};

#[test]
fn flags_helpers() {
    assert!(all_set(&[]));
    assert!(all_set(&[true, true]));
    assert!(!all_set(&[true, false, true]));
    assert_eq!(none_set(3), vec![false, false, false]);
    assert!(none_set(0).is_empty());
    assert_eq!(indices_of(&[false, true, true, false, true]), vec![1, 2, 4]);
    assert!(indices_of(&[false, false]).is_empty());
}

#[test]
fn absorb_appends_what_was_received() {
    let mut buffer = vec![1u8];
    let temp_buf = [9u8, 8, 7, 6];
    assert_eq!(absorb(&mut buffer, Some(2), &temp_buf), Stream::Open);
    assert_eq!(buffer, vec![1, 9, 8]);
    assert_eq!(absorb(&mut buffer, None, &temp_buf), Stream::Idle);
    assert_eq!(buffer, vec![1, 9, 8]);
    assert_eq!(absorb(&mut buffer, Some(4), &temp_buf), Stream::Open);
    assert_eq!(buffer, vec![1, 9, 8, 9, 8, 7, 6]);
    assert_eq!(absorb(&mut buffer, Some(0), &temp_buf), Stream::Closed);
    assert_eq!(buffer, vec![1, 9, 8, 9, 8, 7, 6]);
}

#[test]
fn responses_collect_per_socket() {
    let mut responses = Responses::new(3);
    assert_eq!(responses.len(), 3);
    assert!(!responses.all_finished());
    assert_eq!(responses.finished(), &[false, false, false]);
    assert_eq!(responses.absorb(1, Some(2), b"hello"), Stream::Open);
    assert_eq!(responses.absorb(1, Some(3), b"llo"), Stream::Open);
    assert_eq!(responses.absorb(2, Some(0), b"zzz"), Stream::Closed);
    assert_eq!(responses.absorb(0, None, b"zzz"), Stream::Idle);
    assert!(!responses.is_finished(2));
    responses.mark(2, true);
    assert!(responses.is_finished(2));
    responses.mark(0, true);
    assert!(!responses.all_finished());
    responses.mark(1, true);
    assert!(responses.all_finished());
    responses.mark(1, false);
    assert!(!responses.all_finished());
    assert_eq!(responses.into_responses(), vec![b"".to_vec(), b"hello".to_vec(), b"".to_vec()]);
}

#[test]
fn a_receive_that_shows_the_close_completes_the_response() {
    let mut responses = Responses::new(2);
    assert_eq!(responses.receive(1, Some(3), b"abcd"), Stream::Open);
    assert_eq!(responses.receive(1, None, b"abcd"), Stream::Idle);
    assert_eq!(responses.finished(), &[false, false]);
    assert_eq!(responses.receive(1, Some(0), b"abcd"), Stream::Closed);
    assert_eq!(responses.finished(), &[false, true]);
    assert_eq!(responses.receive(0, Some(0), b"abcd"), Stream::Closed);
    assert!(responses.all_finished());
    assert_eq!(responses.into_responses(), vec![b"".to_vec(), b"abc".to_vec()]);
}

#[test]
fn no_responses_are_all_finished() {
    assert!(Responses::new(0).all_finished());
}

#[test]
fn sequential_receive_goes_on_until_the_close() {
    let mut buffer = Vec::new();
    assert!(receive_all(&mut buffer, Some(3), b"abcd"));
    assert!(receive_all(&mut buffer, None, b"abcd"));
    assert!(receive_all(&mut buffer, Some(1), b"xyz"));
    assert!(!receive_all(&mut buffer, Some(0), b"xyz"));
    assert_eq!(buffer, b"abcx");
}

#[test]
fn poll_wait_for_connections() {
    let sockets = [SocketFd(4), SocketFd(5)];
    let mut poll_fds = vec![PollFd::new(&sockets[0], POLLOUT), PollFd::new(&sockets[1], POLLOUT)];
    poll_fds[0].set_revents(POLLOUT);
    assert_eq!(non_blocking_poll::wait_for_connections(&mut poll_fds, None), Ok(false));
    assert_eq!(poll_fds[0].revents(), 0);
    poll_fds[0].set_revents(POLLOUT);
    assert_eq!(non_blocking_poll::wait_for_connections(&mut poll_fds, Some(1)), Ok(false));
    poll_fds[1].set_revents(POLLOUT | POLLIN);
    assert_eq!(non_blocking_poll::wait_for_connections(&mut poll_fds, Some(2)), Ok(true));
    assert_eq!(poll_fds[1].revents(), POLLOUT | POLLIN);
}

#[test]
fn poll_wait_for_connections_errors() {
    let sockets = [SocketFd(4), SocketFd(5)];
    let mut poll_fds = vec![PollFd::new(&sockets[0], POLLOUT), PollFd::new(&sockets[1], POLLOUT)];
    assert_eq!(
        non_blocking_poll::wait_for_connections(&mut poll_fds, Some(0)),
        Err(SysError::Timeout)
    );
    for failure in [POLLERR, POLLHUP, POLLNVAL] {
        poll_fds[0].set_revents(POLLOUT);
        poll_fds[1].set_revents(POLLOUT | failure);
        assert_eq!(
            non_blocking_poll::wait_for_connections(&mut poll_fds, Some(2)),
            Err(SysError::Sockets)
        );
    }
    poll_fds[1].set_revents(POLLERR);
    assert_eq!(
        non_blocking_poll::wait_for_connections(&mut poll_fds, Some(0)),
        Err(SysError::Timeout)
    );
}

#[test]
fn poll_wait_for_no_connections_is_over_at_once() {
    let mut poll_fds: Vec<PollFd> = Vec::new();
    assert_eq!(non_blocking_poll::wait_for_connections(&mut poll_fds, None), Ok(true));
}

#[test]
fn poll_helpers() {
    let sockets = [SocketFd(4), SocketFd(5)];
    let mut poll_fds = vec![PollFd::new(&sockets[0], POLLOUT), PollFd::new(&sockets[1], POLLOUT)];
    poll_fds[0].set_revents(POLLIN);
    poll_fds[1].set_revents(POLLIN | POLLOUT);
    assert!(non_blocking_poll::all_ready(&poll_fds, POLLIN));
    assert!(!non_blocking_poll::all_ready(&poll_fds, POLLOUT));
    assert_eq!(non_blocking_poll::check(&poll_fds, 2), Ok(()));
    non_blocking_poll::set_events(&mut poll_fds, POLLIN);
    assert_eq!(poll_fds[0].events(), POLLIN);
    assert_eq!(poll_fds[1].events(), POLLIN);
    assert_eq!(poll_fds[1].revents(), POLLIN | POLLOUT);
    non_blocking_poll::reset_revents(&mut poll_fds);
    assert_eq!(poll_fds[0].revents(), 0);
    assert_eq!(poll_fds[1].revents(), 0);
    assert_eq!(poll_fds[1].events(), POLLIN);
    assert_eq!(non_blocking_poll::TIMEOUT, 5000);
}

#[test]
fn poll_receive_all_non_blocking() {
    let sockets = [SocketFd(4), SocketFd(5), SocketFd(6)];
    let mut poll_fds: Vec<PollFd> = sockets.iter().map(|s| PollFd::new(s, POLLOUT)).collect();
    let mut responses = Responses::new(3);
    poll_fds[2].set_revents(POLLOUT);
    let begin = non_blocking_poll::receive_all_non_blocking(&mut poll_fds, &responses, None);
    assert_eq!(begin, Ok(vec![]));
    for entry in &poll_fds {
        assert_eq!(entry.events(), POLLIN);
        assert_eq!(entry.revents(), 0);
    }
    poll_fds[0].set_revents(POLLIN);
    poll_fds[2].set_revents(POLLIN);
    let turn = non_blocking_poll::receive_all_non_blocking(&mut poll_fds, &responses, Some(2));
    assert_eq!(turn, Ok(vec![0, 2]));
    responses.mark(0, true);
    let turn = non_blocking_poll::receive_all_non_blocking(&mut poll_fds, &responses, Some(2));
    assert_eq!(turn, Ok(vec![2]));
    let turn = non_blocking_poll::receive_all_non_blocking(&mut poll_fds, &responses, Some(0));
    assert_eq!(turn, Err(SysError::Timeout));
    poll_fds[1].set_revents(POLLHUP);
    let turn = non_blocking_poll::receive_all_non_blocking(&mut poll_fds, &responses, Some(3));
    assert_eq!(turn, Err(SysError::Sockets));
}

#[test]
fn select_nfds_is_one_more_than_the_largest_descriptor() {
    assert_eq!(non_blocking_select::nfds(&[SocketFd(5), SocketFd(9), SocketFd(7)]), 10);
    assert_eq!(non_blocking_select::nfds(&[SocketFd(0)]), 1);
}

#[test]
fn select_arm_sets_the_active_sockets() {
    let sockets = [SocketFd(5), SocketFd(9), SocketFd(7)];
    let mut fd_set = FdSet::new();
    fd_set.set(&SocketFd(100));
    assert!(non_blocking_select::arm(&mut fd_set, &sockets, &[false, true, false]));
    assert_eq!(fd_set.members(), vec![5, 7]);
    assert!(!non_blocking_select::arm(&mut fd_set, &sockets, &[true, true, true]));
    assert!(fd_set.members().is_empty());
    assert!(non_blocking_select::arm(&mut fd_set, &sockets, &[false, false, false]));
    assert_eq!(fd_set.members(), vec![5, 7, 9]);
}

#[test]
fn select_wait_for_connections() {
    let sockets = [SocketFd(5), SocketFd(9), SocketFd(7)];
    let mut fd_set = FdSet::new();
    fd_set.set(&SocketFd(9));
    let connected = non_blocking_select::wait_for_connections(&fd_set, &sockets, 1);
    assert_eq!(connected.completed, vec![1]);
    assert!(!connected.all);
    let connected = non_blocking_select::wait_for_connections(&fd_set, &sockets, 0);
    assert!(connected.completed.is_empty());
    assert!(!connected.all);
    fd_set.set(&SocketFd(5));
    fd_set.set(&SocketFd(7));
    let connected = non_blocking_select::wait_for_connections(&fd_set, &sockets, 3);
    assert_eq!(connected.completed, vec![0, 1, 2]);
    assert!(connected.all);
    let connected = non_blocking_select::wait_for_connections(&fd_set, &sockets, 0);
    assert!(connected.completed.is_empty());
    assert!(!connected.all);
}

#[test]
fn select_connection_error() {
    assert_eq!(non_blocking_select::connection(0), Ok(()));
    assert_eq!(non_blocking_select::connection(111), Err(SysError::ConnectionFailed(111)));
}

#[test]
fn select_receive_all_non_blocking() {
    let sockets = [SocketFd(5), SocketFd(9), SocketFd(7)];
    let mut fd_set = FdSet::new();
    fd_set.set(&SocketFd(5));
    fd_set.set(&SocketFd(7));
    let receive = non_blocking_select::receive_all_non_blocking;
    assert_eq!(receive(&fd_set, &sockets, &[false, false, false], 2), vec![0, 2]);
    assert_eq!(receive(&fd_set, &sockets, &[true, false, false], 2), vec![2]);
    assert!(receive(&fd_set, &sockets, &[false, false, false], 0).is_empty());
    assert!(receive(&fd_set, &sockets, &[false, false, false], -1).is_empty());
}

#[test]
fn epoll_constants() {
    assert_eq!(non_blocking_epoll::IN_AND_OUT_EDGE_TRIGGER, 0x8000_0005);
    assert_eq!(non_blocking_epoll::TIMEOUT, 5000);
    assert_eq!(non_blocking_epoll::MAX_EVENTS, 10);
}

#[test]
fn epoll_waited() {
    assert_eq!(non_blocking_epoll::waited(0), Err(SysError::Timeout));
    assert_eq!(non_blocking_epoll::waited(3), Ok(3));
}

#[test]
fn epoll_read_until_would_block() {
    let mut buffer = Vec::new();
    let read = non_blocking_epoll::read_until_would_block;
    assert_eq!(read(&mut buffer, Some(2), b"hello"), None);
    assert_eq!(read(&mut buffer, None, b"hello"), Some(false));
    assert_eq!(read(&mut buffer, Some(3), b"llo"), None);
    assert_eq!(read(&mut buffer, Some(0), b"llo"), Some(true));
    assert_eq!(buffer, b"hello");
}

#[test]
fn epoll_receive_all_non_blocking() {
    let sockets = [SocketFd(5), SocketFd(9), SocketFd(7)];
    let mut responses = Responses::new(3);
    let plan = non_blocking_epoll::receive_all_non_blocking;
    let readable = epoll_event { events: EPOLLIN | EPOLLOUT, data: 9 };
    let p = plan(&sockets, &mut responses, &readable);
    assert_eq!(p, non_blocking_epoll::Plan { idx: 1, drain: false, read: true });
    assert!(!responses.is_finished(1));
    let writable = epoll_event { events: EPOLLOUT, data: 7 };
    let p = plan(&sockets, &mut responses, &writable);
    assert_eq!(p, non_blocking_epoll::Plan { idx: 2, drain: false, read: false });
    for failure in [EPOLLHUP, EPOLLERR] {
        let mut responses = Responses::new(3);
        let hung_up = epoll_event { events: EPOLLIN | failure, data: 5 };
        let p = plan(&sockets, &mut responses, &hung_up);
        assert_eq!(p, non_blocking_epoll::Plan { idx: 0, drain: true, read: false });
        assert_eq!(responses.finished(), &[true, false, false]);
    }
    responses.mark(1, true);
    let p = plan(&sockets, &mut responses, &readable);
    assert_eq!(p, non_blocking_epoll::Plan { idx: 1, drain: false, read: false });
}

#[test]
fn epoll_send_all() {
    let sockets = [SocketFd(5), SocketFd(9), SocketFd(7)];
    let writable = epoll_event { events: EPOLLOUT, data: 7 };
    let readable = epoll_event { events: EPOLLIN, data: 7 };
    let send = non_blocking_epoll::send_all;
    assert_eq!(send(&sockets, &[false, false, false], &writable), Some(2));
    assert_eq!(send(&sockets, &[false, false, true], &writable), None);
    assert_eq!(send(&sockets, &[false, false, false], &readable), None);
    assert!(non_blocking_epoll::sent(Some(54)));
    assert!(non_blocking_epoll::sent(Some(3)));
    assert!(!non_blocking_epoll::sent(None));
}

#[test]
fn std_read_all_non_blocking() {
    let sockets = [SocketFd(5), SocketFd(9), SocketFd(7)];
    let plan = non_blocking_std::read_all_non_blocking;
    let readable = epoll_event { events: EPOLLIN, data: 9 };
    assert_eq!(
        plan(&sockets, &[false, false, false], &readable),
        Some(non_blocking_std::Plan { idx: 1, failed: false, read: true })
    );
    assert_eq!(plan(&sockets, &[false, true, false], &readable), None);
    let unknown = epoll_event { events: EPOLLIN, data: 8 };
    assert_eq!(plan(&sockets, &[false, false, false], &unknown), None);
    let hung_up = epoll_event { events: EPOLLIN | EPOLLHUP, data: 5 };
    assert_eq!(
        plan(&sockets, &[false, false, false], &hung_up),
        Some(non_blocking_std::Plan { idx: 0, failed: true, read: true })
    );
    let invalid = epoll_event { events: 0x20, data: 7 };
    assert_eq!(
        plan(&sockets, &[false, false, false], &invalid),
        Some(non_blocking_std::Plan { idx: 2, failed: true, read: false })
    );
}

#[test]
fn std_send_all() {
    let sockets = [SocketFd(5), SocketFd(9), SocketFd(7)];
    let event = epoll_event { events: EPOLLIN, data: 9 };
    let send = non_blocking_std::send_all;
    assert_eq!(send(&sockets, &[false, false, false], &event), Some(1));
    assert_eq!(send(&sockets, &[false, true, false], &event), None);
    let unknown = epoll_event { events: EPOLLOUT, data: 8 };
    assert_eq!(send(&sockets, &[false, false, false], &unknown), None);
    assert!(non_blocking_std::sent(Some(54), 54));
    assert!(!non_blocking_std::sent(Some(53), 54));
    assert!(!non_blocking_std::sent(None, 54));
}

#[test]
fn mio_read_all_non_blocking() {
    let event = |token, readable, read_closed| Readiness {
        token,
        readable,
        writable: false,
        read_closed,
    };
    let mut done = vec![false, false, true];
    assert_eq!(non_blocking_mio::read_all_non_blocking(&mut done, event(0, true, false)), non_blocking_mio::Plan::Read);
    assert_eq!(non_blocking_mio::read_all_non_blocking(&mut done, event(0, true, true)), non_blocking_mio::Plan::Read);
    assert_eq!(done, vec![false, false, true]);
    assert_eq!(non_blocking_mio::read_all_non_blocking(&mut done, event(2, true, true)), non_blocking_mio::Plan::Skip);
    assert_eq!(non_blocking_mio::read_all_non_blocking(&mut done, event(1, false, false)), non_blocking_mio::Plan::Skip);
    assert_eq!(done, vec![false, false, true]);
    assert_eq!(non_blocking_mio::read_all_non_blocking(&mut done, event(1, false, true)), non_blocking_mio::Plan::Drain);
    assert_eq!(done, vec![false, true, true]);
}

#[test]
fn mio_send_all() {
    let event = |token, writable| Readiness { token, readable: true, writable, read_closed: false };
    assert!(non_blocking_mio::send_all(&[false, true], event(0, true)));
    assert!(!non_blocking_mio::send_all(&[false, true], event(0, false)));
    assert!(!non_blocking_mio::send_all(&[false, true], event(1, true)));
}
