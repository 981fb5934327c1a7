use crate::sys_libc::error::{Call, SysError};
use vstd::prelude::*;

verus! {

/// What `poll(2)` returned, classified: the number of entries with events,
/// zero after a timeout.
pub fn poll(result: i32, errno: i32) -> (ready: Result<i32, SysError>)
    ensures
        ready == if result == -1 {
            Err::<i32, SysError>(SysError::Os { call: Call::Poll, errno })
        } else {
            Ok(result)
        },
{
    if result == -1 {
        return Err(SysError::Os { call: Call::Poll, errno });
    }
    Ok(result)
}

} // verus!
