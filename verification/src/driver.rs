//! The driver: the owner of the bus handle and of the configuration that
//! was last applied.
//!
//! The driver starts in the hands of [`Apds9306::new`] as an
//! [`Unverified`] device, becomes usable once the part ID has been read and
//! found right, and from then on hands out one operation at a time. It
//! never touches the bus itself: whoever drives it borrows the handle
//! through [`Apds9306::bus`], carries out the transaction that the
//! operation asks for, and advances the operation with the answer.

use crate::codec::{spec_threshold_bytes, threshold_bytes};
use crate::error::Error;
use crate::exchange::{
    Channel, ControlUpdate, CountRead, FlagRead, MeasurementRead, StatusByteRead, StatusFlag,
    StatusRead, WriteSequence,
};
use crate::register::main_ctrl;
use crate::register::Register;
use crate::transaction::{Reply, Transaction};
use crate::types::{Config, InterruptConfig};
use vstd::prelude::*;

verus! {

/// The variant of the device.
#[derive(Debug, Clone, Copy, PartialEq, Eq, Structural)]
pub enum Apds9306Type {
    /// APDS-9306
    Apds9306,
    /// APDS-9306-065
    Apds9306_065,
}

impl Apds9306Type {
    /// The byte that the part ID register of this variant holds.
    pub open spec fn spec_part_id(self) -> u8 {
        match self {
            Apds9306Type::Apds9306 => 0xB1,
            Apds9306Type::Apds9306_065 => 0xB3,
        }
    }

    /// The byte that the part ID register of this variant holds.
    #[verifier::when_used_as_spec(spec_part_id)]
    pub fn part_id(self) -> (id: u8)
        ensures
            id == self.spec_part_id(),
    {
        match self {
            Apds9306Type::Apds9306 => 0xB1,
            Apds9306Type::Apds9306_065 => 0xB3,
        }
    }
}

impl Config {
    /// The register writes that apply the configuration: MEAS_RATE, then
    /// GAIN.
    pub open spec fn spec_writes(self) -> Seq<Transaction> {
        seq![
            Transaction::Write { register: Register::MeasRate, value: self.meas_rate_byte() },
            Transaction::Write { register: Register::Gain, value: self.gain_byte() },
        ]
    }

    /// The register writes that apply the configuration: MEAS_RATE, then
    /// GAIN.
    pub fn writes(self) -> (writes: Vec<Transaction>)
        ensures
            writes@ == self.spec_writes(),
    {
        let mut writes: Vec<Transaction> = Vec::new();
        writes.push(
            Transaction::Write { register: Register::MeasRate, value: self.meas_rate_byte() },
        );
        writes.push(Transaction::Write { register: Register::Gain, value: self.gain_byte() });
        writes
    }
}

impl InterruptConfig {
    /// The register writes that apply the configuration, in this order:
    /// INT_CFG, INT_PERSISTENCE, the three bytes of the upper threshold
    /// and the three of the lower, each least significant byte first, and
    /// the variance threshold.
    pub open spec fn spec_writes(self) -> Seq<Transaction> {
        let upper = spec_threshold_bytes(self.upper_threshold);
        let lower = spec_threshold_bytes(self.lower_threshold);
        seq![
            Transaction::Write { register: Register::IntCfg, value: self.int_cfg_byte() },
            Transaction::Write {
                register: Register::IntPersistence,
                value: self.int_persistence_byte(),
            },
            Transaction::Write { register: Register::ThresUp0, value: upper[0] },
            Transaction::Write { register: Register::ThresUp1, value: upper[1] },
            Transaction::Write { register: Register::ThresUp2, value: upper[2] },
            Transaction::Write { register: Register::ThresLow0, value: lower[0] },
            Transaction::Write { register: Register::ThresLow1, value: lower[1] },
            Transaction::Write { register: Register::ThresLow2, value: lower[2] },
            Transaction::Write { register: Register::ThresVar, value: self.variance_byte() },
        ]
    }

    /// The register writes that apply the configuration, in this order:
    /// INT_CFG, INT_PERSISTENCE, the three bytes of the upper threshold
    /// and the three of the lower, each least significant byte first, and
    /// the variance threshold.
    pub fn writes(self) -> (writes: Vec<Transaction>)
        ensures
            writes@ == self.spec_writes(),
    {
        let upper = threshold_bytes(self.upper_threshold);
        let lower = threshold_bytes(self.lower_threshold);
        let mut writes: Vec<Transaction> = Vec::new();
        writes.push(Transaction::Write { register: Register::IntCfg, value: self.int_cfg_byte() });
        writes.push(
            Transaction::Write {
                register: Register::IntPersistence,
                value: self.int_persistence_byte(),
            },
        );
        writes.push(Transaction::Write { register: Register::ThresUp0, value: upper[0] });
        writes.push(Transaction::Write { register: Register::ThresUp1, value: upper[1] });
        writes.push(Transaction::Write { register: Register::ThresUp2, value: upper[2] });
        writes.push(Transaction::Write { register: Register::ThresLow0, value: lower[0] });
        writes.push(Transaction::Write { register: Register::ThresLow1, value: lower[1] });
        writes.push(Transaction::Write { register: Register::ThresLow2, value: lower[2] });
        writes.push(
            Transaction::Write { register: Register::ThresVar, value: self.variance_byte() },
        );
        writes
    }
}

/// The register write that resets the device: the software reset bit, and
/// nothing else, to MAIN_CTRL.
pub open spec fn spec_reset_writes() -> Seq<Transaction> {
    seq![Transaction::Write { register: Register::MainCtrl, value: main_ctrl::SW_RESET }]
}

/// APDS-9306 driver.
pub struct Apds9306<I2C> {
    /// The bus handle
    i2c: I2C,
    /// The measurement configuration that was last handed to `configure`
    config: Config,
    /// The interrupt configuration that was last handed to
    /// `configure_interrupt`
    interrupt_config: InterruptConfig,
}

/// A device whose identity has not been checked yet. It owns the bus handle
/// and offers one thing only: the check.
pub struct Unverified<I2C> {
    driver: Apds9306<I2C>,
    expected: Apds9306Type,
}

impl<I2C> Unverified<I2C> {
    /// The variant that the device is expected to be.
    pub closed spec fn expected(&self) -> Apds9306Type {
        self.expected
    }

    /// The driver that the check yields if it succeeds.
    pub closed spec fn driver(&self) -> Apds9306<I2C> {
        self.driver
    }

    /// The bus handle, to carry out the read of the part ID with. The
    /// expected variant and the configurations are not touched.
    pub fn bus(&mut self) -> (i2c: &mut I2C)
        ensures
            *i2c == old(self).driver().bus_handle(),
            final(self).driver().bus_handle() == *final(i2c),
            final(self).driver().config() == old(self).driver().config(),
            final(self).driver().interrupt_config() == old(self).driver().interrupt_config(),
            final(self).expected() == old(self).expected(),
    {
        &mut self.driver.i2c
    }

    /// The read of the one-byte part ID register that the check needs.
    pub fn request(&self) -> (transaction: Transaction)
        ensures
            transaction == (Transaction::Read { register: Register::PartId, len: 1 }),
    {
        Transaction::Read { register: Register::PartId, len: 1 }
    }

    /// Takes the answer of the bus to the read of the part ID. The driver
    /// comes out if and only if the byte read is the identity of the
    /// expected variant; any other byte gives [`Error::DeviceNotFound`],
    /// and a bus error is passed on. On failure no driver exists.
    pub fn verify_device_id<E>(self, reply: Reply<E>) -> (result: Result<Apds9306<I2C>, Error<E>>)
        ensures
            match reply {
                Ok(bytes) => if bytes[0] == self.expected().part_id() {
                    result == Ok::<Apds9306<I2C>, Error<E>>(self.driver())
                } else {
                    result == Err::<Apds9306<I2C>, Error<E>>(Error::DeviceNotFound)
                },
                Err(e) => result == Err::<Apds9306<I2C>, Error<E>>(Error::I2c(e)),
            },
    {
        match reply {
            Ok(bytes) => {
                if bytes[0] == self.expected.part_id() {
                    Ok(self.driver)
                } else {
                    Err(Error::DeviceNotFound)
                }
            },
            Err(e) => Err(Error::I2c(e)),
        }
    }
}

impl<I2C> Apds9306<I2C> {
    /// The bus handle that the driver owns.
    pub closed spec fn bus_handle(&self) -> I2C {
        self.i2c
    }

    /// The measurement configuration that the driver holds.
    pub closed spec fn config(&self) -> Config {
        self.config
    }

    /// The interrupt configuration that the driver holds.
    pub closed spec fn interrupt_config(&self) -> InterruptConfig {
        self.interrupt_config
    }

    /// A driver is its bus handle and its two configurations, and nothing
    /// more: two drivers that agree in these are the same.
    pub proof fn lemma_same_parts(a: Apds9306<I2C>, b: Apds9306<I2C>)
        requires
            a.bus_handle() == b.bus_handle(),
            a.config() == b.config(),
            a.interrupt_config() == b.interrupt_config(),
        ensures
            a == b,
    {
    }

    /// Takes the bus handle and the expected variant. What comes back holds
    /// the default configurations, none of them written to the device, and
    /// becomes a driver through [`Unverified::verify_device_id`].
    pub fn new(i2c: I2C, apds9306_type: Apds9306Type) -> (device: Unverified<I2C>)
        ensures
            device.expected() == apds9306_type,
            device.driver().bus_handle() == i2c,
            device.driver().config() == Config::spec_default(),
            device.driver().interrupt_config() == InterruptConfig::spec_default(),
    {
        Unverified {
            driver: Apds9306 {
                i2c,
                config: Config::default(),
                interrupt_config: InterruptConfig::default(),
            },
            expected: apds9306_type,
        }
    }

    /// The bus handle, to carry out a transaction with. The configurations
    /// that the driver holds are not touched.
    pub fn bus(&mut self) -> (i2c: &mut I2C)
        ensures
            *i2c == old(self).bus_handle(),
            final(self).bus_handle() == *final(i2c),
            final(self).config() == old(self).config(),
            final(self).interrupt_config() == old(self).interrupt_config(),
    {
        &mut self.i2c
    }

    /// Starts a software reset: one write of the reset bit to MAIN_CTRL.
    /// The driver keeps its configurations, and does not wait for the
    /// device to come back.
    pub fn reset(&mut self) -> (pending: WriteSequence)
        ensures
            *final(self) == *old(self),
            pending@ == spec_reset_writes(),
    {
        let mut writes: Vec<Transaction> = Vec::new();
        writes.push(Transaction::Write { register: Register::MainCtrl, value: main_ctrl::SW_RESET });
        WriteSequence::new(writes)
    }

    /// Starts enabling the sensor: MAIN_CTRL is read and written back with
    /// the enable bit set.
    pub fn enable(&mut self) -> (pending: ControlUpdate)
        ensures
            *final(self) == *old(self),
            pending == ControlUpdate::Enable,
    {
        ControlUpdate::Enable
    }

    /// Starts disabling the sensor: MAIN_CTRL is read and written back with
    /// the enable bit cleared.
    pub fn disable(&mut self) -> (pending: ControlUpdate)
        ensures
            *final(self) == *old(self),
            pending == ControlUpdate::Disable,
    {
        ControlUpdate::Disable
    }

    /// Stores the measurement configuration and starts writing it to the
    /// device: MEAS_RATE, then GAIN. The configuration is stored before
    /// anything is written, so after a failed write the driver holds the
    /// new configuration while the device may hold part of it.
    pub fn configure(&mut self, config: Config) -> (pending: WriteSequence)
        ensures
            final(self).config() == config,
            final(self).interrupt_config() == old(self).interrupt_config(),
            final(self).bus_handle() == old(self).bus_handle(),
            pending@ == config.spec_writes(),
    {
        self.config = config;
        WriteSequence::new(config.writes())
    }

    /// Stores the interrupt configuration and starts writing it to the
    /// device, in nine register writes. The configuration is stored before
    /// anything is written, so after a failed write the driver holds the
    /// new configuration while the device may hold part of it.
    pub fn configure_interrupt(&mut self, config: InterruptConfig) -> (pending: WriteSequence)
        ensures
            final(self).interrupt_config() == config,
            final(self).config() == old(self).config(),
            final(self).bus_handle() == old(self).bus_handle(),
            pending@ == config.spec_writes(),
    {
        self.interrupt_config = config;
        WriteSequence::new(config.writes())
    }

    /// Starts a read of the ALS count.
    pub fn read_data(&mut self) -> (pending: CountRead)
        ensures
            *final(self) == *old(self),
            pending == (CountRead { channel: Channel::Als }),
    {
        CountRead { channel: Channel::Als }
    }

    /// Starts a read of the clear count.
    pub fn read_clear_data(&mut self) -> (pending: CountRead)
        ensures
            *final(self) == *old(self),
            pending == (CountRead { channel: Channel::Clear }),
    {
        CountRead { channel: Channel::Clear }
    }

    /// Starts a read of both counts, the ALS count first.
    pub fn read_measurement_data(&mut self) -> (pending: MeasurementRead)
        ensures
            *final(self) == *old(self),
            pending == MeasurementRead::Als,
    {
        MeasurementRead::Als
    }

    /// Starts a read of the status byte.
    pub fn read_status(&mut self) -> (pending: StatusByteRead)
        ensures
            *final(self) == *old(self),
    {
        StatusByteRead
    }

    /// Starts a read of the status register for its three flags.
    pub fn get_status(&mut self) -> (pending: StatusRead)
        ensures
            *final(self) == *old(self),
    {
        StatusRead
    }

    /// Starts a read of the status register for the power-on flag.
    pub fn is_power_on_status(&mut self) -> (pending: FlagRead)
        ensures
            *final(self) == *old(self),
            pending == (FlagRead { flag: StatusFlag::PowerOn }),
    {
        FlagRead { flag: StatusFlag::PowerOn }
    }

    /// Starts a read of the status register for the interrupt flag.
    pub fn is_interrupt(&mut self) -> (pending: FlagRead)
        ensures
            *final(self) == *old(self),
            pending == (FlagRead { flag: StatusFlag::Interrupt }),
    {
        FlagRead { flag: StatusFlag::Interrupt }
    }

    /// Starts a read of the status register for the data-ready flag.
    pub fn is_data_ready(&mut self) -> (pending: FlagRead)
        ensures
            *final(self) == *old(self),
            pending == (FlagRead { flag: StatusFlag::DataReady }),
    {
        FlagRead { flag: StatusFlag::DataReady }
    }

    /// The measurement configuration that was last handed to `configure`,
    /// or the default if none was. The bus is not touched.
    pub fn get_config(&self) -> (config: Config)
        ensures
            config == self.config(),
    {
        self.config
    }

    /// The interrupt configuration that was last handed to
    /// `configure_interrupt`, or the default if none was. The bus is not
    /// touched.
    pub fn get_interrupt_config(&self) -> (config: InterruptConfig)
        ensures
            config == self.interrupt_config(),
    {
        self.interrupt_config
    }

    /// Gives the bus handle back and ends the driver.
    pub fn release(self) -> (i2c: I2C)
        ensures
            i2c == self.bus_handle(),
    {
        self.i2c
    }
}

} // verus!
