//! The service adapter of a Modbus TCP server and the server's configuration.

use crate::codec::{fn_code, req_to_fn_code};
use crate::frame::tcp::{Header, RequestAdu, ResponseAdu};
use crate::frame::{
    Exception, ExceptionResponse, FunctionCode, MbError, Request, Response, ResponsePdu,
};
use crate::net::SocketAddr;
use vstd::prelude::*;

verus! {

/// What is written back for a request with header `hdr` and function code
/// `function` once the service has come to `outcome`.
///
/// An answer and a protocol exception both give a response frame with the
/// header of the request; the exception is labelled with the function code of
/// the request. A fatal error gives no frame: what the service reported is
/// handed on as it is.
pub open spec fn reply<E>(
    hdr: Header,
    function: FunctionCode,
    outcome: Result<Response, MbError<E>>,
) -> Result<ResponseAdu, E> {
    match outcome {
        Ok(rsp) => Ok(ResponseAdu { hdr, pdu: ResponsePdu(Ok(rsp)) }),
        Err(MbError::Exception(exception)) => Ok(
            ResponseAdu { hdr, pdu: ResponsePdu(Err(ExceptionResponse { function, exception })) },
        ),
        Err(MbError::Fatal(e)) => Err(e),
    }
}

/// What the adapter makes of the request frame `adu` when the service comes
/// to `outcome` for the request in it.
pub open spec fn handle<E>(adu: RequestAdu, outcome: Result<Response, MbError<E>>) -> Result<
    ResponseAdu,
    E,
> {
    reply(adu.hdr, fn_code(adu.pdu.0), outcome)
}

/// A request that has been handed to the service and waits for its outcome.
///
/// It keeps what the response needs of the request frame: the header, and the
/// function code of the request, taken before the service saw the request.
#[derive(Debug)]
pub struct Exchange {
    hdr: Header,
    function: FunctionCode,
}

impl Exchange {
    /// The header of the request frame.
    pub closed spec fn header(self) -> Header {
        self.hdr
    }

    /// The function code of the request.
    pub closed spec fn function_code(self) -> FunctionCode {
        self.function
    }

    /// Takes a request frame apart: the request for the service, and what is
    /// kept for the response. The disconnect hint is dropped.
    pub fn open(adu: RequestAdu) -> (r: (Exchange, Request))
        ensures
            r.0.header() == adu.hdr,
            r.0.function_code() == fn_code(adu.pdu.0),
            r.1 == adu.pdu.0,
    {
        let RequestAdu { hdr, pdu, disconnect: _ } = adu;
        let req = Request::from(pdu);
        let function = req_to_fn_code(&req);
        (Exchange { hdr, function }, req)
    }

    /// The header that the response will carry.
    pub fn hdr(&self) -> (hdr: Header)
        ensures
            hdr == self.header(),
    {
        self.hdr
    }

    /// The function code that an exception response will carry.
    pub fn function(&self) -> (function: FunctionCode)
        ensures
            function == self.function_code(),
    {
        self.function
    }

    /// Closes the exchange with the outcome of the service.
    pub fn respond<E>(self, outcome: Result<Response, MbError<E>>) -> (r: Result<ResponseAdu, E>)
        ensures
            r == reply(self.header(), self.function_code(), outcome),
            r matches Ok(rsp) ==> rsp.hdr == self.header(),
            r is Err <==> outcome matches Err(MbError::Fatal(_)),
    {
        match outcome {
            Ok(rsp) => Ok(ResponseAdu { hdr: self.hdr, pdu: ResponsePdu::from(rsp) }),
            Err(MbError::Exception(exception)) => {
                let rsp = ExceptionResponse { function: self.function, exception };
                Ok(ResponseAdu { hdr: self.hdr, pdu: ResponsePdu::from(rsp) })
            },
            Err(MbError::Fatal(e)) => Err(e),
        }
    }
}

/// Adapts a service on requests and responses to one on frames.
pub struct ServiceWrapper<S> {
    service: S,
}

impl<S> ServiceWrapper<S> {
    /// The service that answers the requests.
    pub closed spec fn inner(self) -> S {
        self.service
    }

    /// Wraps `service`.
    pub fn new(service: S) -> (wrapper: Self)
        ensures
            wrapper.inner() == service,
    {
        Self { service }
    }

    /// Wraps the service that a factory made for a new connection. Where the
    /// factory failed there is no service to wrap, and its error is handed on.
    pub fn for_connection<E>(made: Result<S, E>) -> (r: Result<Self, E>)
        ensures
            match made {
                Ok(service) => r matches Ok(wrapper) && wrapper.inner() == service,
                Err(e) => r == Err::<Self, E>(e),
            },
    {
        match made {
            Ok(service) => Ok(Self::new(service)),
            Err(e) => Err(e),
        }
    }

    /// The wrapped service.
    pub fn service(&self) -> (service: &S)
        ensures
            *service == self.inner(),
    {
        &self.service
    }

    /// Answers a request frame with a service that answers at once.
    ///
    /// The service is called once, with the request of the frame, and the
    /// frame that comes back is what `handle` makes of its outcome.
    pub fn call<E>(&self, adu: RequestAdu) -> (r: Result<ResponseAdu, E>) where
        S: Fn(Request) -> Result<Response, MbError<E>>,

        requires
            call_requires(self.inner(), (adu.pdu.0,)),
        ensures
            exists|outcome: Result<Response, MbError<E>>|
                #[trigger] call_ensures(self.inner(), (adu.pdu.0,), outcome) && r == handle(
                    adu,
                    outcome,
                ),
            r matches Ok(rsp) ==> rsp.hdr == adu.hdr,
    {
        let (exchange, req) = Exchange::open(adu);
        let outcome = (self.service)(req);
        exchange.respond(outcome)
    }
}

/// A response frame carries the header of the request frame that it answers,
/// whether it holds an answer or an exception.
pub proof fn lemma_header_echo<E>(adu: RequestAdu, outcome: Result<Response, MbError<E>>)
    ensures
        handle(adu, outcome) matches Ok(rsp) ==> rsp.hdr == adu.hdr,
{
}

/// A failure of the service ends in one of two ways and no other: an
/// exception is answered with a frame that holds an exception response, and
/// a fatal error comes back as it went in.
pub proof fn lemma_failure_classified<E>(adu: RequestAdu, fault: MbError<E>)
    ensures
        match fault {
            MbError::Exception(_) => handle(adu, Err::<Response, MbError<E>>(fault)) matches Ok(rsp)
                && rsp.pdu.0 is Err,
            MbError::Fatal(e) => handle(adu, Err::<Response, MbError<E>>(fault)) == Err::<
                ResponseAdu,
                E,
            >(e),
        },
{
}

/// The exception response for a request that the service refused names the
/// function code of that request and the exception that the service raised.
pub proof fn lemma_exception_names_request<E>(adu: RequestAdu, exception: Exception)
    ensures
        handle(adu, Err::<Response, MbError<E>>(MbError::Exception(exception))) == Ok::<
            ResponseAdu,
            E,
        >(
            ResponseAdu {
                hdr: adu.hdr,
                pdu: ResponsePdu(
                    Err(ExceptionResponse { function: fn_code(adu.pdu.0), exception }),
                ),
            },
        ),
{
}

/// No frame is written for a request that ended in a fatal error, and a
/// frame is written for every other.
pub proof fn lemma_fatal_gives_no_frame<E>(adu: RequestAdu, outcome: Result<Response, MbError<E>>)
    ensures
        handle(adu, outcome) is Err <==> outcome matches Err(MbError::Fatal(_)),
{
}

/// An answer of the service is written back as it is, under the header of
/// the request.
pub proof fn lemma_answer_passed_on<E>(adu: RequestAdu, rsp: Response)
    ensures
        handle(adu, Ok::<Response, MbError<E>>(rsp)) == Ok::<ResponseAdu, E>(
            ResponseAdu { hdr: adu.hdr, pdu: ResponsePdu(Ok(rsp)) },
        ),
{
}

/// The disconnect hint of a request frame has no part in the response.
pub proof fn lemma_disconnect_hint_ignored<E>(
    adu: RequestAdu,
    disconnect: bool,
    outcome: Result<Response, MbError<E>>,
)
    ensures
        handle(RequestAdu { hdr: adu.hdr, pdu: adu.pdu, disconnect }, outcome) == handle(
            adu,
            outcome,
        ),
{
}

/// Where a server listens and how many threads serve its connections.
#[derive(Debug, PartialEq, Eq)]
pub struct Server {
    socket_addr: SocketAddr,
    threads: Option<usize>,
}

impl Clone for Server {
    fn clone(&self) -> (server: Self)
        ensures
            server == *self,
    {
        proof {
            use_type_invariant(self);
        }
        Self { socket_addr: self.socket_addr, threads: self.threads }
    }
}

impl Server {
    #[verifier::type_invariant]
    spec fn threads_positive(self) -> bool {
        self.threads matches Some(n) ==> n > 0
    }

    /// The address that the server binds.
    pub closed spec fn addr(self) -> SocketAddr {
        self.socket_addr
    }

    /// The number of threads that was asked for, if any was.
    pub closed spec fn thread_count(self) -> Option<usize> {
        self.threads
    }

    /// Set the address for the server (mandatory).
    pub fn new(socket_addr: SocketAddr) -> (server: Self)
        ensures
            server.addr() == socket_addr,
            server.thread_count() is None,
    {
        Self { socket_addr, threads: None }
    }

    /// Set the number of threads running simultaneous event loops (optional).
    pub fn threads(self, threads: usize) -> (server: Self)
        requires
            threads > 0,
        ensures
            server.addr() == self.addr(),
            server.thread_count() == Some(threads),
    {
        Self { socket_addr: self.socket_addr, threads: Some(threads) }
    }

    /// The address that the server binds.
    pub fn socket_addr(&self) -> (addr: SocketAddr)
        ensures
            addr == self.addr(),
    {
        self.socket_addr
    }

    /// The number of event loops to run: the number of threads that was asked
    /// for, or `default` where none was.
    pub fn event_loops(&self, default: usize) -> (n: usize)
        ensures
            n == match self.thread_count() {
                Some(threads) => threads,
                None => default,
            },
            default > 0 ==> n > 0,
    {
        proof {
            use_type_invariant(self);
        }
        match self.threads {
            Some(threads) => threads,
            None => default,
        }
    }
}

} // verus!
