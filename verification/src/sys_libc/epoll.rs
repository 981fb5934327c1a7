use crate::sys_libc::epoll_fd::EpollFd;
use crate::sys_libc::error::{Call, SysError};
use vstd::prelude::*;

verus! {

/// What `epoll_create1(2)` returned, classified: the new instance.
pub fn epoll_create1(epoll_fd: i32, errno: i32) -> (created: Result<EpollFd, SysError>)
    ensures
        created == if epoll_fd == -1 {
            Err::<EpollFd, SysError>(SysError::Os { call: Call::EpollCreate1, errno })
        } else {
            Ok(EpollFd(epoll_fd))
        },
{
    if epoll_fd == -1 {
        return Err(SysError::Os { call: Call::EpollCreate1, errno });
    }
    Ok(EpollFd(epoll_fd))
}

/// What `epoll_ctl(2)` returned for an add or a modify, classified.
pub fn epoll_ctl(result: i32, errno: i32) -> (done: Result<(), SysError>)
    ensures
        done == if result == -1 {
            Err::<(), SysError>(SysError::Os { call: Call::EpollCtl, errno })
        } else {
            Ok(())
        },
{
    if result == -1 {
        return Err(SysError::Os { call: Call::EpollCtl, errno });
    }
    Ok(())
}

/// What `epoll_ctl(2)` returned for a delete, classified.
pub fn epoll_ctl_remove(result: i32, errno: i32) -> (done: Result<(), SysError>)
    ensures
        done == if result == -1 {
            Err::<(), SysError>(SysError::Os { call: Call::EpollCtlRemove, errno })
        } else {
            Ok(())
        },
{
    if result == -1 {
        return Err(SysError::Os { call: Call::EpollCtlRemove, errno });
    }
    Ok(())
}

/// What `epoll_wait(2)` returned, classified: the number of events, zero
/// after a timeout.
pub fn epoll_wait(result: i32, errno: i32) -> (ready: Result<i32, SysError>)
    ensures
        ready == if result == -1 {
            Err::<i32, SysError>(SysError::Os { call: Call::EpollWait, errno })
        } else {
            Ok(result)
        },
{
    if result == -1 {
        return Err(SysError::Os { call: Call::EpollWait, errno });
    }
    Ok(result)
}

} // verus!
