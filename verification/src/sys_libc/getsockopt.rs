use crate::sys_libc::error::{Call, SysError};
use vstd::prelude::*;

verus! {

/// What `getsockopt(2)` returned, classified: the length of the option's
/// value.
pub fn getsockopt(result: i32, errno: i32, optlen: u32) -> (len: Result<usize, SysError>)
    ensures
        len == if result == -1 {
            Err::<usize, SysError>(SysError::Os { call: Call::GetSockOpt, errno })
        } else {
            Ok(optlen as usize)
        },
{
    if result == -1 {
        return Err(SysError::Os { call: Call::GetSockOpt, errno });
    }
    Ok(optlen as usize)
}

/// The pending error of a socket after a query of `SO_ERROR`. The value the
/// query stored is not looked at: a query that succeeded reports 0.
pub fn get_socket_error(result: i32, errno: i32, optlen: u32) -> (error: Result<i32, SysError>)
    ensures
        error == if result == -1 {
            Err::<i32, SysError>(SysError::Os { call: Call::GetSockOpt, errno })
        } else {
            Ok(0i32)
        },
{
    let error: i32 = 0;
    match getsockopt(result, errno, optlen) {
        Ok(_) => Ok(error),
        Err(failure) => Err(failure),
    }
}

} // verus!
