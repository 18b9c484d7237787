//! Addresses that a server can listen on.

use vstd::prelude::*;

verus! {

/// A host and a port: an IPv4 address by its four octets, or an IPv6 address
/// by its eight segments, with the flow information and the scope that such
/// an address carries.
#[derive(Clone, Copy, Debug, PartialEq, Eq)]
pub enum SocketAddr {
    V4 { ip: [u8; 4], port: u16 },
    V6 { ip: [u16; 8], port: u16, flowinfo: u32, scope_id: u32 },
}

} // verus!
