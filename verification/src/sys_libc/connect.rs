use crate::sys_libc::error::{Call, SysError};
use crate::sys_libc::libc::EINPROGRESS;
use vstd::prelude::*;

verus! {

/// What `connect(2)` returned, classified. A non-blocking connect that is
/// still in progress is no failure.
pub fn connect(result: i32, errno: i32) -> (connected: Result<(), SysError>)
    ensures
        connected == if result == -1 && errno != EINPROGRESS {
            Err::<(), SysError>(SysError::Os { call: Call::Connect, errno })
        } else {
            Ok(())
        },
{
    if result == -1 {
        if errno == EINPROGRESS {
            return Ok(());
        } else {
            return Err(SysError::Os { call: Call::Connect, errno });
        }
    }
    Ok(())
}

} // verus!
