use crate::connect::ConnectOutcome;
use crate::sys_libc::error::would_block;
use crate::sys_libc::libc::EINPROGRESS;
use crate::sys_libc::SocketFd;
use crate::task::{ReadOutcome, WriteOutcome};
use vstd::prelude::*;

verus! {

/// What a non-blocking connect on `socket` means to the connect operation.
/// "In progress" is the expected answer and no failure.
pub open spec fn connected(socket: SocketFd, result: i32, errno: i32) -> ConnectOutcome {
    if result == -1 && errno != EINPROGRESS {
        ConnectOutcome::Failed
    } else {
        ConnectOutcome::Connected(socket)
    }
}

/// What a non-blocking write means to the send operation.
pub open spec fn written(result: isize, errno: i32) -> WriteOutcome {
    if result != -1 {
        WriteOutcome::Wrote(result as usize)
    } else if would_block(errno) {
        WriteOutcome::WouldBlock
    } else {
        WriteOutcome::Failed
    }
}

/// Classifies what `connect(2)` returned for a non-blocking socket.
pub fn connect(socket: SocketFd, result: i32, errno: i32) -> (outcome: ConnectOutcome)
    ensures
        outcome == connected(socket, result, errno),
{
    match crate::sys_libc::connect(result, errno) {
        Ok(_) => ConnectOutcome::Connected(socket),
        Err(_) => ConnectOutcome::Failed,
    }
}

/// Classifies what a non-blocking read into `buf` returned: the bytes read,
/// none of them if the peer has closed; "would block"; or failure for any
/// other error.
pub fn read(result: isize, errno: i32, buf: &[u8]) -> (outcome: ReadOutcome)
    requires
        -1 <= result <= buf@.len(),
    ensures
        result >= 0 ==> (outcome matches ReadOutcome::Data(bytes) && bytes@ == buf@.take(
            result as int,
        )),
        result == -1 && would_block(errno) ==> outcome is WouldBlock,
        result == -1 && !would_block(errno) ==> outcome is Failed,
{
    match crate::sys_libc::recv(result, errno) {
        Ok(Some(n)) => {
            let mut bytes: Vec<u8> = Vec::new();
            let part = &buf[0..n];
            bytes.extend_from_slice(part);
            ReadOutcome::Data(bytes)
        },
        Ok(None) => ReadOutcome::WouldBlock,
        Err(_) => ReadOutcome::Failed,
    }
}

/// Classifies what a non-blocking write returned: the count of bytes taken;
/// "would block"; or failure for any other error.
pub fn write(result: isize, errno: i32) -> (outcome: WriteOutcome)
    requires
        -1 <= result,
    ensures
        outcome == written(result, errno),
{
    match crate::sys_libc::send(result, errno) {
        Ok(Some(n)) => WriteOutcome::Wrote(n),
        Ok(None) => WriteOutcome::WouldBlock,
        Err(_) => WriteOutcome::Failed,
    }
}

} // verus!
