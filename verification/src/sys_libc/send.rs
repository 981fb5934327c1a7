use crate::sys_libc::error::{would_block, Call, SysError};
use crate::sys_libc::libc::{EAGAIN, EWOULDBLOCK};
use vstd::prelude::*;

verus! {

/// What a transfer call returned, classified: the byte count, `None` where
/// the call would block, or the failure.
pub open spec fn transferred(call: Call, result: isize, errno: i32) -> Result<
    Option<usize>,
    SysError,
> {
    if result != -1 {
        Ok(Some(result as usize))
    } else if would_block(errno) {
        Ok(None)
    } else {
        Err(SysError::Os { call, errno })
    }
}

/// What `send(2)` returned, classified.
pub fn send(bytes_sent: isize, errno: i32) -> (sent: Result<Option<usize>, SysError>)
    ensures
        sent == transferred(Call::Send, bytes_sent, errno),
{
    if bytes_sent == -1 {
        if errno == EWOULDBLOCK || errno == EAGAIN {
            return Ok(None);
        }
        return Err(SysError::Os { call: Call::Send, errno });
    }
    Ok(Some(#[verifier::truncate] (bytes_sent as usize)))
}

} // verus!
