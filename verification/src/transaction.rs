//! The transactions that the driver asks of the bus.

use crate::register::Register;
use vstd::prelude::*;

verus! {

/// The 7-bit bus address of the sensor.
pub const I2C_ADDR: u8 = 0x52;

/// The largest number of bytes that one transaction reads.
pub const READ_MAX: usize = 3;

/// What the bus hands back for one transaction: the bytes read, or the error
/// of the bus. Of the buffer only as many leading bytes count as the
/// transaction asked for; the rest is never looked at.
pub type Reply<E> = Result<[u8; 3], E>;

/// One transaction on the bus, addressed to the sensor at [`I2C_ADDR`].
#[derive(Debug, Clone, Copy, PartialEq, Eq, Structural)]
pub enum Transaction {
    /// Write one byte to a register: the address of the register and the
    /// value go out in a single bus write.
    Write { register: Register, value: u8 },
    /// Read `len` consecutive bytes that start at a register: the address of
    /// the register goes out, then `len` bytes are read back in the same
    /// transaction.
    Read { register: Register, len: usize },
}

impl Transaction {
    /// The bytes that go out on the bus.
    pub open spec fn spec_outgoing(self) -> Seq<u8> {
        match self {
            Transaction::Write { register, value } => seq![register.addr(), value],
            Transaction::Read { register, len } => seq![register.addr()],
        }
    }

    /// The bytes that go out on the bus.
    pub fn outgoing(self) -> (bytes: Vec<u8>)
        ensures
            bytes@ == self.spec_outgoing(),
    {
        let mut bytes: Vec<u8> = Vec::new();
        match self {
            Transaction::Write { register, value } => {
                bytes.push(register.addr());
                bytes.push(value);
            },
            Transaction::Read { register, len } => {
                bytes.push(register.addr());
            },
        }
        bytes
    }

    /// The number of bytes that are read back.
    pub open spec fn spec_incoming(self) -> usize {
        match self {
            Transaction::Write { register, value } => 0,
            Transaction::Read { register, len } => len,
        }
    }

    /// The number of bytes that are read back.
    #[verifier::when_used_as_spec(spec_incoming)]
    pub fn incoming(self) -> (len: usize)
        ensures
            len == self.spec_incoming(),
    {
        match self {
            Transaction::Write { register, value } => 0,
            Transaction::Read { register, len } => len,
        }
    }
}

} // verus!
