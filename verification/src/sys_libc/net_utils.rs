use crate::sys_libc::error::SysError;
use crate::sys_libc::libc::{sockaddr_in, AF_INET};
use vstd::prelude::*;

verus! {

/// What `inet_addr(3)` returned, classified: all bits set means that the text
/// was no address.
pub fn parse_network_address(inet_addr: u32) -> (addr: Result<u32, SysError>)
    ensures
        addr == if inet_addr == u32::MAX {
            Err::<u32, SysError>(SysError::InvalidAddress)
        } else {
            Ok(inet_addr)
        },
{
    if inet_addr == u32::MAX {
        return Err(SysError::InvalidAddress);
    }
    Ok(inet_addr)
}

/// The IPv4 socket address of what `inet_addr(3)` returned for the host and
/// of a port already in network byte order.
pub fn create_ipv4_sockaddr(inet_addr: u32, port: u16) -> (addr: Result<sockaddr_in, SysError>)
    ensures
        inet_addr == u32::MAX ==> addr == Err::<sockaddr_in, SysError>(SysError::InvalidAddress),
        inet_addr != u32::MAX ==> (addr matches Ok(a) && a.sin_family == AF_INET && a.sin_port
            == port && a.sin_addr == inet_addr && a.sin_zero@ == Seq::new(8, |i: int| 0u8)),
{
    let addr = match parse_network_address(inet_addr) {
        Ok(addr) => addr,
        Err(error) => {
            return Err(error);
        },
    };
    let zero: [u8; 8] = [0; 8];
    Ok(sockaddr_in { sin_family: AF_INET as u16, sin_port: port, sin_addr: addr, sin_zero: zero })
}

} // verus!
