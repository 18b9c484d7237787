//! Request/response adaptation for a Modbus TCP server.
//!
//! A request frame carries a header and a protocol data unit. The adapter in
//! [`server::tcp`] turns the data unit into a domain request, lets an inner
//! service answer it, and wraps the answer, or the protocol exception the
//! service raised, into a response frame with the header of the request.

pub mod codec;
pub mod frame;
pub mod net;
pub mod server;
