use crate::sys_libc::error::{Call, SysError};
use crate::sys_libc::libc::{EAGAIN, EWOULDBLOCK};
use crate::sys_libc::send::transferred;
use vstd::prelude::*;

verus! {

/// What `recv(2)` returned, classified: `Some` with the byte count, zero
/// meaning that the peer has closed; `None` where no data is available yet.
pub fn recv(bytes_received: isize, errno: i32) -> (received: Result<Option<usize>, SysError>)
    ensures
        received == transferred(Call::Recv, bytes_received, errno),
{
    if bytes_received == -1 {
        if errno == EWOULDBLOCK || errno == EAGAIN {
            return Ok(None);
        }
        return Err(SysError::Os { call: Call::Recv, errno });
    }
    Ok(Some(#[verifier::truncate] (bytes_received as usize)))
}

} // verus!
