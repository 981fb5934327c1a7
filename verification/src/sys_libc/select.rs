use crate::sys_libc::error::{Call, SysError};
use vstd::prelude::*;

verus! {

/// What `select(2)` returned, classified: the number of ready descriptors.
pub fn select(result: i32, errno: i32) -> (ready: Result<i32, SysError>)
    ensures
        ready == if result == -1 {
            Err::<i32, SysError>(SysError::Os { call: Call::Select, errno })
        } else {
            Ok(result)
        },
{
    if result == -1 {
        return Err(SysError::Os { call: Call::Select, errno });
    }
    Ok(result)
}

} // verus!
