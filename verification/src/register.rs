//! Register addresses of the sensor.

use vstd::prelude::*;

pub mod int_cfg;
pub mod int_persistence;
pub mod main_ctrl;
pub mod main_status;

verus! {

/// The registers of the sensor that the driver reads or writes.
#[derive(Debug, Clone, Copy, PartialEq, Eq, Structural)]
pub enum Register {
    /// Main control register
    MainCtrl,
    /// Measurement rate and resolution register
    MeasRate,
    /// Gain register
    Gain,
    /// Part ID register
    PartId,
    /// Main status register
    MainStatus,
    /// Clear channel data, least significant byte
    ClearData0,
    /// Clear channel data, middle byte
    ClearData1,
    /// Clear channel data, most significant byte
    ClearData2,
    /// ALS channel data, least significant byte
    Data0,
    /// ALS channel data, middle byte
    Data1,
    /// ALS channel data, most significant byte
    Data2,
    /// Interrupt configuration register
    IntCfg,
    /// Interrupt persistence register
    IntPersistence,
    /// Upper threshold, least significant byte
    ThresUp0,
    /// Upper threshold, middle byte
    ThresUp1,
    /// Upper threshold, most significant byte
    ThresUp2,
    /// Lower threshold, least significant byte
    ThresLow0,
    /// Lower threshold, middle byte
    ThresLow1,
    /// Lower threshold, most significant byte
    ThresLow2,
    /// Variance threshold register
    ThresVar,
}

impl Register {
    /// The one-byte address of the register on the device.
    pub open spec fn spec_addr(self) -> u8 {
        match self {
            Register::MainCtrl => 0x00,
            Register::MeasRate => 0x04,
            Register::Gain => 0x05,
            Register::PartId => 0x06,
            Register::MainStatus => 0x07,
            Register::ClearData0 => 0x0A,
            Register::ClearData1 => 0x0B,
            Register::ClearData2 => 0x0C,
            Register::Data0 => 0x0D,
            Register::Data1 => 0x0E,
            Register::Data2 => 0x0F,
            Register::IntCfg => 0x19,
            Register::IntPersistence => 0x1A,
            Register::ThresUp0 => 0x21,
            Register::ThresUp1 => 0x22,
            Register::ThresUp2 => 0x23,
            Register::ThresLow0 => 0x24,
            Register::ThresLow1 => 0x25,
            Register::ThresLow2 => 0x26,
            Register::ThresVar => 0x27,
        }
    }

    /// The one-byte address of the register on the device.
    #[verifier::when_used_as_spec(spec_addr)]
    pub fn addr(self) -> (a: u8)
        ensures
            a == self.spec_addr(),
    {
        match self {
            Register::MainCtrl => 0x00,
            Register::MeasRate => 0x04,
            Register::Gain => 0x05,
            Register::PartId => 0x06,
            Register::MainStatus => 0x07,
            Register::ClearData0 => 0x0A,
            Register::ClearData1 => 0x0B,
            Register::ClearData2 => 0x0C,
            Register::Data0 => 0x0D,
            Register::Data1 => 0x0E,
            Register::Data2 => 0x0F,
            Register::IntCfg => 0x19,
            Register::IntPersistence => 0x1A,
            Register::ThresUp0 => 0x21,
            Register::ThresUp1 => 0x22,
            Register::ThresUp2 => 0x23,
            Register::ThresLow0 => 0x24,
            Register::ThresLow1 => 0x25,
            Register::ThresLow2 => 0x26,
            Register::ThresVar => 0x27,
        }
    }

    /// The register at a given address, if the driver knows one there.
    pub open spec fn spec_at(addr: u8) -> Option<Register> {
        if addr == 0x00 {
            Some(Register::MainCtrl)
        } else if addr == 0x04 {
            Some(Register::MeasRate)
        } else if addr == 0x05 {
            Some(Register::Gain)
        } else if addr == 0x06 {
            Some(Register::PartId)
        } else if addr == 0x07 {
            Some(Register::MainStatus)
        } else if addr == 0x0A {
            Some(Register::ClearData0)
        } else if addr == 0x0B {
            Some(Register::ClearData1)
        } else if addr == 0x0C {
            Some(Register::ClearData2)
        } else if addr == 0x0D {
            Some(Register::Data0)
        } else if addr == 0x0E {
            Some(Register::Data1)
        } else if addr == 0x0F {
            Some(Register::Data2)
        } else if addr == 0x19 {
            Some(Register::IntCfg)
        } else if addr == 0x1A {
            Some(Register::IntPersistence)
        } else if addr == 0x21 {
            Some(Register::ThresUp0)
        } else if addr == 0x22 {
            Some(Register::ThresUp1)
        } else if addr == 0x23 {
            Some(Register::ThresUp2)
        } else if addr == 0x24 {
            Some(Register::ThresLow0)
        } else if addr == 0x25 {
            Some(Register::ThresLow1)
        } else if addr == 0x26 {
            Some(Register::ThresLow2)
        } else if addr == 0x27 {
            Some(Register::ThresVar)
        } else {
            None
        }
    }

    /// The register at a given address, if the driver knows one there.
    #[verifier::when_used_as_spec(spec_at)]
    pub fn at(addr: u8) -> (r: Option<Register>)
        ensures
            r == Register::spec_at(addr),
    {
        if addr == 0x00 {
            Some(Register::MainCtrl)
        } else if addr == 0x04 {
            Some(Register::MeasRate)
        } else if addr == 0x05 {
            Some(Register::Gain)
        } else if addr == 0x06 {
            Some(Register::PartId)
        } else if addr == 0x07 {
            Some(Register::MainStatus)
        } else if addr == 0x0A {
            Some(Register::ClearData0)
        } else if addr == 0x0B {
            Some(Register::ClearData1)
        } else if addr == 0x0C {
            Some(Register::ClearData2)
        } else if addr == 0x0D {
            Some(Register::Data0)
        } else if addr == 0x0E {
            Some(Register::Data1)
        } else if addr == 0x0F {
            Some(Register::Data2)
        } else if addr == 0x19 {
            Some(Register::IntCfg)
        } else if addr == 0x1A {
            Some(Register::IntPersistence)
        } else if addr == 0x21 {
            Some(Register::ThresUp0)
        } else if addr == 0x22 {
            Some(Register::ThresUp1)
        } else if addr == 0x23 {
            Some(Register::ThresUp2)
        } else if addr == 0x24 {
            Some(Register::ThresLow0)
        } else if addr == 0x25 {
            Some(Register::ThresLow1)
        } else if addr == 0x26 {
            Some(Register::ThresLow2)
        } else if addr == 0x27 {
            Some(Register::ThresVar)
        } else {
            None
        }
    }

    /// Every register is found again at its own address: no two registers
    /// share an address, and none lies above `0x27`.
    pub proof fn lemma_addr_round_trip(self)
        ensures
            Register::spec_at(self.spec_addr()) == Some(self),
            self.spec_addr() <= 0x27,
    {
    }

    /// An address that holds a register is that register's address.
    pub proof fn lemma_at_round_trip(addr: u8)
        ensures
            Register::spec_at(addr) matches Some(r) ==> r.spec_addr() == addr,
    {
    }
}

} // verus!
