//! The vocabulary shared with the bus transport: the transfers the driver
//! asks for and the failure a transfer can end in.

use vstd::prelude::*;

verus! {

/// A transfer that the transport could not complete.
#[derive(Clone, Copy, Debug, PartialEq, Eq)]
pub enum BusError {
    /// The transport could not be bound to the device address.
    AddressBind,
    /// The device did not acknowledge the transfer.
    Nack,
    /// Any other failure of the transport.
    Io,
}

/// One bus transaction that sends a register address and then reads `len`
/// bytes, starting at that register.
#[derive(Clone, Copy, Debug, PartialEq, Eq)]
pub struct BlockRead {
    pub register: u8,
    pub len: usize,
}

/// One bus transaction that sends a register address and then writes the
/// payload, starting at that register.
#[derive(Clone, Debug, PartialEq, Eq)]
pub struct BlockWrite {
    pub register: u8,
    pub payload: Vec<u8>,
}

/// The read of the single register at `addr`.
pub fn read_register(addr: u8) -> (request: BlockRead)
    ensures
        request == (BlockRead { register: addr, len: 1 }),
{
    BlockRead { register: addr, len: 1 }
}

/// The write of `value` to the single register at `addr`.
pub fn write_register(addr: u8, value: u8) -> (request: BlockWrite)
    ensures
        request.register == addr,
        request.payload@ == seq![value],
{
    let mut payload: Vec<u8> = Vec::new();
    payload.push(value);
    BlockWrite { register: addr, payload }
}

} // verus!
