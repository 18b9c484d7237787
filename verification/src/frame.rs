//! Domain messages, protocol data units and the fault taxonomy.

use vstd::prelude::*;

pub mod tcp;

verus! {

/// Wire-level identifier of an operation.
pub type FunctionCode = u8;

/// Address of a coil or register on the device.
pub type Address = u16;

/// State of a single coil.
pub type Coil = bool;

/// Content of a single register.
pub type Word = u16;

/// Number of coils or registers.
pub type Quantity = u16;

/// A request of a client, one variant per operation.
#[derive(Clone, Debug, PartialEq, Eq)]
pub enum Request {
    ReadCoils(Address, Quantity),
    ReadDiscreteInputs(Address, Quantity),
    WriteSingleCoil(Address, Coil),
    WriteMultipleCoils(Address, Vec<Coil>),
    ReadInputRegisters(Address, Quantity),
    ReadHoldingRegisters(Address, Quantity),
    WriteSingleRegister(Address, Word),
    WriteMultipleRegisters(Address, Vec<Word>),
    ReadWriteMultipleRegisters(Address, Quantity, Address, Vec<Word>),
    Custom(FunctionCode, Vec<u8>),
}

/// The answer to a request that succeeded, one variant per operation.
#[derive(Clone, Debug, PartialEq, Eq)]
pub enum Response {
    ReadCoils(Vec<Coil>),
    ReadDiscreteInputs(Vec<Coil>),
    WriteSingleCoil(Address),
    WriteMultipleCoils(Address, Quantity),
    ReadInputRegisters(Vec<Word>),
    ReadHoldingRegisters(Vec<Word>),
    WriteSingleRegister(Address, Word),
    WriteMultipleRegisters(Address, Quantity),
    ReadWriteMultipleRegisters(Vec<Word>),
    Custom(FunctionCode, Vec<u8>),
}

/// The faults that the protocol itself can report to a client.
#[derive(Clone, Copy, Debug, PartialEq, Eq, Structural)]
pub enum Exception {
    IllegalFunction,
    IllegalDataAddress,
    IllegalDataValue,
    ServerDeviceFailure,
    Acknowledge,
    ServerDeviceBusy,
    MemoryParityError,
    GatewayPathUnavailable,
    GatewayTargetDevice,
}

/// A fault as it is written back to the client: the operation that failed
/// and the reason.
#[derive(Clone, Copy, Debug, PartialEq, Eq, Structural)]
pub struct ExceptionResponse {
    pub function: FunctionCode,
    pub exception: Exception,
}

/// Why a service could not answer a request.
///
/// An `Exception` has a representation on the wire and is answered with an
/// exception response. A `Fatal` error has none: it carries whatever the
/// service reported and is handed on to the transport.
#[derive(Clone, Debug, PartialEq, Eq)]
pub enum MbError<E> {
    Exception(Exception),
    Fatal(E),
}

/// Payload of a request frame.
#[derive(Clone, Debug, PartialEq, Eq)]
pub struct RequestPdu(pub Request);

/// Payload of a response frame: the answer, or the exception raised instead.
#[derive(Debug, PartialEq, Eq)]
pub struct ResponsePdu(pub Result<Response, ExceptionResponse>);

impl Clone for ResponsePdu {
    fn clone(&self) -> (pdu: ResponsePdu)
        ensures
            pdu.0 is Ok <==> self.0 is Ok,
            self.0 matches Err(rsp) ==> pdu.0 == Err::<Response, ExceptionResponse>(rsp),
    {
        match &self.0 {
            Ok(rsp) => ResponsePdu(Ok(rsp.clone())),
            Err(rsp) => ResponsePdu(Err(*rsp)),
        }
    }
}

impl From<Request> for RequestPdu {
    fn from(req: Request) -> (pdu: RequestPdu) {
        RequestPdu(req)
    }
}

impl vstd::std_specs::convert::FromSpecImpl<Request> for RequestPdu {
    open spec fn obeys_from_spec() -> bool {
        true
    }

    open spec fn from_spec(req: Request) -> RequestPdu {
        RequestPdu(req)
    }
}

impl From<RequestPdu> for Request {
    fn from(pdu: RequestPdu) -> (req: Request) {
        pdu.0
    }
}

impl vstd::std_specs::convert::FromSpecImpl<RequestPdu> for Request {
    open spec fn obeys_from_spec() -> bool {
        true
    }

    open spec fn from_spec(pdu: RequestPdu) -> Request {
        pdu.0
    }
}

impl From<Response> for ResponsePdu {
    fn from(rsp: Response) -> (pdu: ResponsePdu) {
        ResponsePdu(Ok(rsp))
    }
}

impl vstd::std_specs::convert::FromSpecImpl<Response> for ResponsePdu {
    open spec fn obeys_from_spec() -> bool {
        true
    }

    open spec fn from_spec(rsp: Response) -> ResponsePdu {
        ResponsePdu(Ok(rsp))
    }
}

impl From<ExceptionResponse> for ResponsePdu {
    fn from(rsp: ExceptionResponse) -> (pdu: ResponsePdu) {
        ResponsePdu(Err(rsp))
    }
}

impl vstd::std_specs::convert::FromSpecImpl<ExceptionResponse> for ResponsePdu {
    open spec fn obeys_from_spec() -> bool {
        true
    }

    open spec fn from_spec(rsp: ExceptionResponse) -> ResponsePdu {
        ResponsePdu(Err(rsp))
    }
}

impl From<ResponsePdu> for Result<Response, ExceptionResponse> {
    fn from(pdu: ResponsePdu) -> (rsp: Result<Response, ExceptionResponse>) {
        pdu.0
    }
}

impl vstd::std_specs::convert::FromSpecImpl<ResponsePdu> for Result<Response, ExceptionResponse> {
    open spec fn obeys_from_spec() -> bool {
        true
    }

    open spec fn from_spec(pdu: ResponsePdu) -> Result<Response, ExceptionResponse> {
        pdu.0
    }
}

/// Every request is the content of exactly one payload: turning it into a
/// payload and back gives the request again, and so for a payload.
pub proof fn lemma_request_pdu_round_trip(req: Request, pdu: RequestPdu)
    ensures
        <Request as vstd::std_specs::convert::FromSpec<RequestPdu>>::from_spec(
            <RequestPdu as vstd::std_specs::convert::FromSpec<Request>>::from_spec(req),
        ) == req,
        <RequestPdu as vstd::std_specs::convert::FromSpec<Request>>::from_spec(
            <Request as vstd::std_specs::convert::FromSpec<RequestPdu>>::from_spec(pdu),
        ) == pdu,
{
}

} // verus!
