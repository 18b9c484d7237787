//! Function codes of the operations.

use crate::frame::{FunctionCode, Request};
use vstd::prelude::*;

verus! {

/// The function code under which a request travels on the wire. A custom
/// request carries its own.
pub open spec fn fn_code(req: Request) -> FunctionCode {
    match req {
        Request::ReadCoils(_, _) => 0x01,
        Request::ReadDiscreteInputs(_, _) => 0x02,
        Request::ReadHoldingRegisters(_, _) => 0x03,
        Request::ReadInputRegisters(_, _) => 0x04,
        Request::WriteSingleCoil(_, _) => 0x05,
        Request::WriteSingleRegister(_, _) => 0x06,
        Request::WriteMultipleCoils(_, _) => 0x0F,
        Request::WriteMultipleRegisters(_, _) => 0x10,
        Request::ReadWriteMultipleRegisters(_, _, _, _) => 0x17,
        Request::Custom(code, _) => code,
    }
}

/// Gives the function code of a request.
pub fn req_to_fn_code(req: &Request) -> (code: FunctionCode)
    ensures
        code == fn_code(*req),
{
    match req {
        Request::ReadCoils(_, _) => 0x01,
        Request::ReadDiscreteInputs(_, _) => 0x02,
        Request::ReadHoldingRegisters(_, _) => 0x03,
        Request::ReadInputRegisters(_, _) => 0x04,
        Request::WriteSingleCoil(_, _) => 0x05,
        Request::WriteSingleRegister(_, _) => 0x06,
        Request::WriteMultipleCoils(_, _) => 0x0F,
        Request::WriteMultipleRegisters(_, _) => 0x10,
        Request::ReadWriteMultipleRegisters(_, _, _, _) => 0x17,
        Request::Custom(code, _) => *code,
    }
}

/// No two operations share a function code: requests other than custom ones
/// that travel under the same function code are of the same operation.
pub proof fn lemma_fn_code_tells_operations_apart(a: Request, b: Request)
    requires
        !(a is Custom),
        !(b is Custom),
        fn_code(a) == fn_code(b),
    ensures
        a is ReadCoils <==> b is ReadCoils,
        a is ReadDiscreteInputs <==> b is ReadDiscreteInputs,
        a is ReadHoldingRegisters <==> b is ReadHoldingRegisters,
        a is ReadInputRegisters <==> b is ReadInputRegisters,
        a is WriteSingleCoil <==> b is WriteSingleCoil,
        a is WriteSingleRegister <==> b is WriteSingleRegister,
        a is WriteMultipleCoils <==> b is WriteMultipleCoils,
        a is WriteMultipleRegisters <==> b is WriteMultipleRegisters,
        a is ReadWriteMultipleRegisters <==> b is ReadWriteMultipleRegisters,
{
}

} // verus!
