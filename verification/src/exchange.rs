//! Operations in flight.
//!
//! A driver operation that needs the bus is handed out as a value of one of
//! the types here. Such a value names the transaction it waits for
//! (`request`), and is advanced with what the bus answered (`advance`): it
//! then either asks for a further transaction or yields the result of the
//! operation. A bus error ends the operation at once and is passed on as
//! [`Error::I2c`]; no transaction is retried and none follows a failure.

use crate::codec::{count_from_bytes, spec_count_from_bytes, with_enable, without_enable};
use crate::error::Error;
use crate::register::main_status;
use crate::register::Register;
use crate::transaction::{Reply, Transaction};
use crate::types::{MeasurementData, Status};
use vstd::prelude::*;

verus! {

/// What advancing an operation leads to.
#[derive(Debug)]
pub enum Step<S, T, E> {
    /// The operation goes on: carry out the transaction that the new state
    /// asks for, and advance that state with the answer.
    Continue(S),
    /// The operation has ended, with its result or with an error.
    Done(Result<T, Error<E>>),
}

/// Register writes that are carried out one after the other. The first
/// failure ends the sequence; the writes behind it are not attempted.
#[derive(Debug)]
pub struct WriteSequence {
    writes: Vec<Transaction>,
    next: usize,
}

impl View for WriteSequence {
    type V = Seq<Transaction>;

    /// The writes that are still to be made, in order. There is always at
    /// least one.
    closed spec fn view(&self) -> Seq<Transaction> {
        self.writes@.skip(self.next as int)
    }
}

impl WriteSequence {
    #[verifier::type_invariant]
    spec fn pending(self) -> bool {
        &&& self.next < self.writes.len()
        &&& forall|i: int| 0 <= i < self.writes.len() ==> #[trigger] self.writes[i] is Write
    }

    /// A sequence of the given writes, none of them made yet.
    pub(crate) fn new(writes: Vec<Transaction>) -> (sequence: WriteSequence)
        requires
            writes.len() > 0,
            forall|i: int| 0 <= i < writes.len() ==> #[trigger] writes[i] is Write,
        ensures
            sequence@ == writes@,
    {
        WriteSequence { writes, next: 0 }
    }

    /// The write that is due now: the first of those still to be made.
    pub fn request(&self) -> (transaction: Transaction)
        ensures
            self@.len() > 0,
            transaction == self@[0],
            transaction is Write,
    {
        proof {
            use_type_invariant(self);
        }
        self.writes[self.next]
    }

    /// Takes the answer of the bus to the write that was due. After a
    /// success the remaining writes follow, or the sequence is done if none
    /// remains; a failure ends it.
    pub fn advance<E>(self, reply: Reply<E>) -> (step: Step<WriteSequence, (), E>)
        ensures
            self@.len() > 0,
            match reply {
                Ok(_) => if self@.len() > 1 {
                    step matches Step::Continue(rest) && rest@ == self@.skip(1)
                } else {
                    step == Step::<WriteSequence, (), E>::Done(Ok(()))
                },
                Err(e) => step == Step::<WriteSequence, (), E>::Done(Err(Error::I2c(e))),
            },
    {
        proof {
            use_type_invariant(&self);
        }
        match reply {
            Ok(_) => {
                if self.next + 1 < self.writes.len() {
                    let rest = WriteSequence { writes: self.writes, next: self.next + 1 };
                    Step::Continue(rest)
                } else {
                    Step::Done(Ok(()))
                }
            },
            Err(e) => Step::Done(Err(Error::I2c(e))),
        }
    }
}

/// A change of the enable bit in MAIN_CTRL: the register is read, and the
/// byte read is written back with that one bit changed.
#[derive(Debug, Clone, Copy, PartialEq, Eq, Structural)]
pub enum ControlUpdate {
    /// Set the enable bit.
    Enable,
    /// Clear the enable bit.
    Disable,
}

impl ControlUpdate {
    /// The byte to write back for a byte read: the same byte but for the
    /// enable bit.
    pub open spec fn spec_apply(self, control: u8) -> u8 {
        match self {
            ControlUpdate::Enable => with_enable(control),
            ControlUpdate::Disable => without_enable(control),
        }
    }

    /// The byte to write back for a byte read: the same byte but for the
    /// enable bit.
    #[verifier::when_used_as_spec(spec_apply)]
    pub fn apply(self, control: u8) -> (b: u8)
        ensures
            b == self.spec_apply(control),
    {
        match self {
            ControlUpdate::Enable => with_enable(control),
            ControlUpdate::Disable => without_enable(control),
        }
    }

    /// The read of MAIN_CTRL that the update starts with.
    pub fn request(&self) -> (transaction: Transaction)
        ensures
            transaction == (Transaction::Read { register: Register::MainCtrl, len: 1 }),
    {
        Transaction::Read { register: Register::MainCtrl, len: 1 }
    }

    /// Takes the answer of the bus to the read. After a success one write
    /// follows, of the byte read with the enable bit changed; a failure ends
    /// the update with nothing written.
    pub fn advance<E>(self, reply: Reply<E>) -> (step: Step<WriteSequence, (), E>)
        ensures
            match reply {
                Ok(bytes) => step matches Step::Continue(write) && write@ == seq![
                    Transaction::Write {
                        register: Register::MainCtrl,
                        value: self.apply(bytes[0]),
                    },
                ],
                Err(e) => step == Step::<WriteSequence, (), E>::Done(Err(Error::I2c(e))),
            },
    {
        match reply {
            Ok(bytes) => {
                let mut writes: Vec<Transaction> = Vec::new();
                writes.push(
                    Transaction::Write { register: Register::MainCtrl, value: self.apply(bytes[0]) },
                );
                Step::Continue(WriteSequence::new(writes))
            },
            Err(e) => Step::Done(Err(Error::I2c(e))),
        }
    }
}

/// A channel of the sensor.
#[derive(Debug, Clone, Copy, PartialEq, Eq, Structural)]
pub enum Channel {
    /// The ambient light channel.
    Als,
    /// The clear channel.
    Clear,
}

impl Channel {
    /// The register that holds the least significant byte of the channel's
    /// count; the other two bytes follow it.
    pub open spec fn spec_data_register(self) -> Register {
        match self {
            Channel::Als => Register::Data0,
            Channel::Clear => Register::ClearData0,
        }
    }

    /// The register that holds the least significant byte of the channel's
    /// count; the other two bytes follow it.
    #[verifier::when_used_as_spec(spec_data_register)]
    pub fn data_register(self) -> (register: Register)
        ensures
            register == self.spec_data_register(),
    {
        match self {
            Channel::Als => Register::Data0,
            Channel::Clear => Register::ClearData0,
        }
    }
}

/// A read of the count of one channel.
#[derive(Debug, Clone, Copy, PartialEq, Eq, Structural)]
pub struct CountRead {
    /// The channel that is read.
    pub channel: Channel,
}

impl CountRead {
    /// The read of the channel's three data registers in one transaction.
    pub fn request(&self) -> (transaction: Transaction)
        ensures
            transaction == (Transaction::Read {
                register: self.channel.data_register(),
                len: 3,
            }),
    {
        Transaction::Read { register: self.channel.data_register(), len: 3 }
    }

    /// Takes the answer of the bus: the 20-bit count that the three bytes
    /// hold, or the error of the bus.
    pub fn advance<E>(self, reply: Reply<E>) -> (result: Result<u32, Error<E>>)
        ensures
            match reply {
                Ok(bytes) => result == Ok::<u32, Error<E>>(
                    spec_count_from_bytes(bytes[0], bytes[1], bytes[2]),
                ),
                Err(e) => result == Err::<u32, Error<E>>(Error::I2c(e)),
            },
    {
        match reply {
            Ok(bytes) => Ok(count_from_bytes(bytes)),
            Err(e) => Err(Error::I2c(e)),
        }
    }
}

/// A read of both channels: first the ALS channel, then the clear channel,
/// in two transactions. The device may take a new sample between the two.
#[derive(Debug, Clone, Copy, PartialEq, Eq, Structural)]
pub enum MeasurementRead {
    /// The ALS channel is being read.
    Als,
    /// The ALS count is in hand and the clear channel is being read.
    Clear { als: u32 },
}

impl MeasurementRead {
    /// The channel whose read is due.
    pub open spec fn spec_channel(self) -> Channel {
        match self {
            MeasurementRead::Als => Channel::Als,
            MeasurementRead::Clear { als } => Channel::Clear,
        }
    }

    /// The read that is due: the three data registers of the ALS channel,
    /// then those of the clear channel.
    pub fn request(&self) -> (transaction: Transaction)
        ensures
            transaction == (Transaction::Read {
                register: self.spec_channel().data_register(),
                len: 3,
            }),
    {
        match self {
            MeasurementRead::Als => Transaction::Read {
                register: Channel::Als.data_register(),
                len: 3,
            },
            MeasurementRead::Clear { als } => Transaction::Read {
                register: Channel::Clear.data_register(),
                len: 3,
            },
        }
    }

    /// Takes the answer of the bus to the read that was due. The ALS count
    /// is kept and the clear channel is read next; the clear count completes
    /// the measurement. A failure of either read ends the operation.
    pub fn advance<E>(self, reply: Reply<E>) -> (step: Step<
        MeasurementRead,
        MeasurementData,
        E,
    >)
        ensures
            match reply {
                Ok(bytes) => match self {
                    MeasurementRead::Als => step == Step::<
                        MeasurementRead,
                        MeasurementData,
                        E,
                    >::Continue(
                        MeasurementRead::Clear {
                            als: spec_count_from_bytes(bytes[0], bytes[1], bytes[2]),
                        },
                    ),
                    MeasurementRead::Clear { als } => step == Step::<
                        MeasurementRead,
                        MeasurementData,
                        E,
                    >::Done(
                        Ok(
                            MeasurementData {
                                als,
                                clear: spec_count_from_bytes(bytes[0], bytes[1], bytes[2]),
                            },
                        ),
                    ),
                },
                Err(e) => step == Step::<MeasurementRead, MeasurementData, E>::Done(
                    Err(Error::I2c(e)),
                ),
            },
    {
        match reply {
            Ok(bytes) => match self {
                MeasurementRead::Als => Step::Continue(
                    MeasurementRead::Clear { als: count_from_bytes(bytes) },
                ),
                MeasurementRead::Clear { als } => Step::Done(
                    Ok(MeasurementData { als, clear: count_from_bytes(bytes) }),
                ),
            },
            Err(e) => Step::Done(Err(Error::I2c(e))),
        }
    }
}

/// A flag of the status register.
#[derive(Debug, Clone, Copy, PartialEq, Eq, Structural)]
pub enum StatusFlag {
    /// The device has gone through a power-on since the last status read.
    PowerOn,
    /// The interrupt condition is met.
    Interrupt,
    /// A new measurement is ready.
    DataReady,
}

impl StatusFlag {
    /// The bit of MAIN_STATUS that holds the flag.
    pub open spec fn spec_mask(self) -> u8 {
        match self {
            StatusFlag::PowerOn => main_status::POWER_ON_STATUS,
            StatusFlag::Interrupt => main_status::INT_STATUS,
            StatusFlag::DataReady => main_status::DATA_STATUS,
        }
    }

    /// The bit of MAIN_STATUS that holds the flag.
    #[verifier::when_used_as_spec(spec_mask)]
    pub fn mask(self) -> (m: u8)
        ensures
            m == self.spec_mask(),
    {
        match self {
            StatusFlag::PowerOn => main_status::POWER_ON_STATUS,
            StatusFlag::Interrupt => main_status::INT_STATUS,
            StatusFlag::DataReady => main_status::DATA_STATUS,
        }
    }

    /// Whether a status byte has the flag set.
    pub open spec fn spec_is_set(self, status: u8) -> bool {
        status & self.mask() != 0
    }

    /// Whether a status byte has the flag set.
    #[verifier::when_used_as_spec(spec_is_set)]
    pub fn is_set(self, status: u8) -> (set: bool)
        ensures
            set == self.spec_is_set(status),
    {
        (status & self.mask()) != 0
    }
}

/// A read of the status register that yields the byte as it is.
#[derive(Debug, Clone, Copy, PartialEq, Eq, Structural)]
pub struct StatusByteRead;

impl StatusByteRead {
    /// The read of the one-byte status register.
    pub fn request(&self) -> (transaction: Transaction)
        ensures
            transaction == (Transaction::Read { register: Register::MainStatus, len: 1 }),
    {
        Transaction::Read { register: Register::MainStatus, len: 1 }
    }

    /// Takes the answer of the bus: the status byte as it was read, or the
    /// error of the bus.
    pub fn advance<E>(self, reply: Reply<E>) -> (result: Result<u8, Error<E>>)
        ensures
            match reply {
                Ok(bytes) => result == Ok::<u8, Error<E>>(bytes[0]),
                Err(e) => result == Err::<u8, Error<E>>(Error::I2c(e)),
            },
    {
        match reply {
            Ok(bytes) => Ok(bytes[0]),
            Err(e) => Err(Error::I2c(e)),
        }
    }
}

/// A read of the status register that yields all three flags.
#[derive(Debug, Clone, Copy, PartialEq, Eq, Structural)]
pub struct StatusRead;

impl StatusRead {
    /// The read of the one-byte status register.
    pub fn request(&self) -> (transaction: Transaction)
        ensures
            transaction == (Transaction::Read { register: Register::MainStatus, len: 1 }),
    {
        Transaction::Read { register: Register::MainStatus, len: 1 }
    }

    /// Takes the answer of the bus: the three flags of the status byte, or
    /// the error of the bus.
    pub fn advance<E>(self, reply: Reply<E>) -> (result: Result<Status, Error<E>>)
        ensures
            match reply {
                Ok(bytes) => result == Ok::<Status, Error<E>>(Status::from_byte(bytes[0])),
                Err(e) => result == Err::<Status, Error<E>>(Error::I2c(e)),
            },
    {
        match reply {
            Ok(bytes) => Ok(Status::from_byte(bytes[0])),
            Err(e) => Err(Error::I2c(e)),
        }
    }
}

/// A read of the status register that yields one flag.
#[derive(Debug, Clone, Copy, PartialEq, Eq, Structural)]
pub struct FlagRead {
    /// The flag that is asked for.
    pub flag: StatusFlag,
}

impl FlagRead {
    /// The read of the one-byte status register.
    pub fn request(&self) -> (transaction: Transaction)
        ensures
            transaction == (Transaction::Read { register: Register::MainStatus, len: 1 }),
    {
        Transaction::Read { register: Register::MainStatus, len: 1 }
    }

    /// Takes the answer of the bus: whether the status byte has the flag
    /// set, or the error of the bus.
    pub fn advance<E>(self, reply: Reply<E>) -> (result: Result<bool, Error<E>>)
        ensures
            match reply {
                Ok(bytes) => result == Ok::<bool, Error<E>>(self.flag.is_set(bytes[0])),
                Err(e) => result == Err::<bool, Error<E>>(Error::I2c(e)),
            },
    {
        match reply {
            Ok(bytes) => Ok(self.flag.is_set(bytes[0])),
            Err(e) => Err(Error::I2c(e)),
        }
    }
}

} // verus!
