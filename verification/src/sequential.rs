use crate::responses::{absorb, brought, stream_of, Stream};
use vstd::prelude::*;

verus! {

/// One turn of receiving a whole response on one socket: appends what the
/// receive brought and says whether to receive again. Only the peer's close
/// ends the response; "not now" means try again.
pub fn receive_all(buffer: &mut Vec<u8>, bytes_received: Option<usize>, temp_buf: &[u8]) -> (more:
    bool)
    requires
        bytes_received matches Some(n) ==> n <= temp_buf@.len(),
    ensures
        final(buffer)@ == old(buffer)@ + brought(bytes_received, temp_buf@),
        more == (stream_of(bytes_received) != Stream::Closed),
{
    match absorb(buffer, bytes_received, temp_buf) {
        Stream::Closed => false,
        _ => true,
    }
}

} // verus!
