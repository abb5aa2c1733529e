//! What the sensor procedures ask for.

use crate::procedure::{Reply, Request};
use vstd::prelude::*;

verus! {

/// One thing for a sensor procedure to wait for.
///
/// A transfer is carried out as a whole: nothing else uses the bus between its
/// start and its end.
#[derive(Debug, Clone, Copy, PartialEq, Eq, Structural)]
pub enum BusRequest {
    /// Write `value` to register `reg` of the device at `address`.
    Write { address: u8, reg: u8, value: u8 },
    /// Read `len` bytes from the device at `address`, from register `reg` on.
    Read { address: u8, reg: u8, len: usize },
    /// Let `ms` milliseconds pass.
    Wait { ms: u64 },
}

impl BusRequest {
    /// The bytes that go out to the device: the register, followed on a write
    /// by the value to store there.
    pub open spec fn sends(self) -> Seq<u8> {
        match self {
            BusRequest::Write { reg, value, .. } => seq![reg, value],
            BusRequest::Read { reg, .. } => seq![reg],
            BusRequest::Wait { .. } => seq![],
        }
    }

    /// The number of bytes that come back.
    pub open spec fn receives(self) -> nat {
        match self {
            BusRequest::Read { len, .. } => len as nat,
            _ => 0,
        }
    }

    /// It is a transfer with the device at `address`.
    pub open spec fn is_transfer_with(self, address: u8) -> bool {
        match self {
            BusRequest::Write { address: a, .. } => a == address,
            BusRequest::Read { address: a, .. } => a == address,
            BusRequest::Wait { .. } => false,
        }
    }

    /// The bytes to send to the device.
    pub fn payload(&self) -> (bytes: Vec<u8>)
        ensures
            bytes@ == self.sends(),
            match *self {
                BusRequest::Write { reg, value, .. } => bytes@ == seq![reg, value],
                BusRequest::Read { reg, .. } => bytes@ == seq![reg],
                BusRequest::Wait { .. } => bytes@.len() == 0,
            },
    {
        match *self {
            BusRequest::Write { reg, value, .. } => vec![reg, value],
            BusRequest::Read { reg, .. } => vec![reg],
            BusRequest::Wait { .. } => Vec::new(),
        }
    }
}

impl Request for BusRequest {
    /// A transfer either fails or brings exactly the bytes asked for; waiting
    /// cannot fail.
    open spec fn answered_by(self, reply: Reply) -> bool {
        match reply {
            Some(bytes) => bytes.len() == self.receives(),
            None => !(self is Wait),
        }
    }
}

/// The reply to the read of a single register: the register holds `value`.
pub open spec fn reads_as(reply: Reply, value: u8) -> bool {
    reply is Some && reply.unwrap()[0] == value
}

/// A write sends the register and then the value, and brings nothing back. A
/// read sends the register and brings back the bytes asked for. Either can
/// fail. A wait sends nothing, brings nothing back and cannot fail.
pub proof fn law_bus_requests(address: u8, reg: u8, value: u8, len: usize, ms: u64, reply: Reply)
    ensures
        (BusRequest::Write { address, reg, value }).sends() == seq![reg, value],
        (BusRequest::Read { address, reg, len }).sends() == seq![reg],
        (BusRequest::Wait { ms }).sends().len() == 0,
        (BusRequest::Write { address, reg, value }).answered_by(reply) <==> (reply is Some
            ==> reply.unwrap().len() == 0),
        (BusRequest::Read { address, reg, len }).answered_by(reply) <==> (reply is Some
            ==> reply.unwrap().len() == len),
        (BusRequest::Wait { ms }).answered_by(reply) <==> reply is Some && reply.unwrap().len()
            == 0,
{
}

/// A register reads as a value if and only if its byte is that value, and so as
/// one value only.
pub proof fn law_reads_as(reply: Reply, value: u8)
    ensures
        reads_as(reply, value) <==> reply is Some && reply.unwrap()[0] == value,
{
}

} // verus!
