//! Frames of the TCP transport: a header and a protocol data unit.

use crate::frame::{RequestPdu, ResponsePdu};
use vstd::prelude::*;

verus! {

/// Token by which a client matches responses to its requests.
pub type TransactionId = u16;

/// Address of the device behind the server that a request is meant for.
pub type UnitId = u8;

/// Correlation data of one exchange, echoed from the request to its response.
#[derive(Clone, Copy, Debug, PartialEq, Eq, Structural)]
pub struct Header {
    pub transaction_id: TransactionId,
    pub unit_id: UnitId,
}

/// A request as the transport delivers it.
///
/// `disconnect` is a hint of the transport that the connection is to be closed
/// once the request is answered. It is no part of the request itself.
#[derive(Clone, Debug, PartialEq, Eq)]
pub struct RequestAdu {
    pub hdr: Header,
    pub pdu: RequestPdu,
    pub disconnect: bool,
}

/// A response as it is handed to the transport.
#[derive(Clone, Debug, PartialEq, Eq)]
pub struct ResponseAdu {
    pub hdr: Header,
    pub pdu: ResponsePdu,
}

} // verus!
