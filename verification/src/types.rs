//! Configuration values, status and measurement data.
//!
//! Every setting with a fixed set of choices is an enum with an exhaustive
//! mapping to and from the numeric code that the device uses for it, so no
//! integer outside that set can stand for a setting.

use vstd::prelude::*;

verus! {

/// Resolution of a conversion, and with it the conversion time.
#[derive(Debug, Clone, Copy, PartialEq, Eq, Structural)]
pub enum Resolution {
    /// 20-bit resolution, 400 ms conversion time
    Bits20,
    /// 19-bit resolution, 200 ms conversion time
    Bits19,
    /// 18-bit resolution, 100 ms conversion time (default)
    Bits18,
    /// 17-bit resolution, 50 ms conversion time
    Bits17,
    /// 16-bit resolution, 25 ms conversion time
    Bits16,
    /// 13-bit resolution, 3.125 ms conversion time
    Bits13,
}

impl Resolution {
    /// The code that the device uses for this setting.
    pub open spec fn spec_code(self) -> u8 {
        match self {
            Resolution::Bits20 => 0,
            Resolution::Bits19 => 1,
            Resolution::Bits18 => 2,
            Resolution::Bits17 => 3,
            Resolution::Bits16 => 4,
            Resolution::Bits13 => 5,
        }
    }

    /// The code that the device uses for this setting.
    #[verifier::when_used_as_spec(spec_code)]
    pub fn code(self) -> (c: u8)
        ensures
            c == self.spec_code(),
    {
        match self {
            Resolution::Bits20 => 0,
            Resolution::Bits19 => 1,
            Resolution::Bits18 => 2,
            Resolution::Bits17 => 3,
            Resolution::Bits16 => 4,
            Resolution::Bits13 => 5,
        }
    }

    /// The setting that a code stands for; `None` for a code that the device
    /// does not define.
    pub open spec fn spec_from_code(code: u8) -> Option<Resolution> {
        if code == 0 {
            Some(Resolution::Bits20)
        } else if code == 1 {
            Some(Resolution::Bits19)
        } else if code == 2 {
            Some(Resolution::Bits18)
        } else if code == 3 {
            Some(Resolution::Bits17)
        } else if code == 4 {
            Some(Resolution::Bits16)
        } else if code == 5 {
            Some(Resolution::Bits13)
        } else {
            None
        }
    }

    /// The setting that a code stands for; `None` for a code that the device
    /// does not define.
    #[verifier::when_used_as_spec(spec_from_code)]
    pub fn from_code(code: u8) -> (r: Option<Resolution>)
        ensures
            r == Resolution::spec_from_code(code),
    {
        if code == 0 {
            Some(Resolution::Bits20)
        } else if code == 1 {
            Some(Resolution::Bits19)
        } else if code == 2 {
            Some(Resolution::Bits18)
        } else if code == 3 {
            Some(Resolution::Bits17)
        } else if code == 4 {
            Some(Resolution::Bits16)
        } else if code == 5 {
            Some(Resolution::Bits13)
        } else {
            None
        }
    }
}

impl Default for Resolution {
    fn default() -> (r: Resolution)
        ensures
            r == Resolution::Bits18,
    {
        Resolution::Bits18
    }
}

/// Interval between two measurements.
#[derive(Debug, Clone, Copy, PartialEq, Eq, Structural)]
pub enum MeasurementRate {
    /// 25 ms measurement rate
    Ms25,
    /// 50 ms measurement rate
    Ms50,
    /// 100 ms measurement rate (default)
    Ms100,
    /// 200 ms measurement rate
    Ms200,
    /// 500 ms measurement rate
    Ms500,
    /// 1000 ms measurement rate
    Ms1000,
    /// 2000 ms measurement rate
    Ms2000,
}

impl MeasurementRate {
    /// The code that the device uses for this setting.
    pub open spec fn spec_code(self) -> u8 {
        match self {
            MeasurementRate::Ms25 => 0,
            MeasurementRate::Ms50 => 1,
            MeasurementRate::Ms100 => 2,
            MeasurementRate::Ms200 => 3,
            MeasurementRate::Ms500 => 4,
            MeasurementRate::Ms1000 => 5,
            MeasurementRate::Ms2000 => 6,
        }
    }

    /// The code that the device uses for this setting.
    #[verifier::when_used_as_spec(spec_code)]
    pub fn code(self) -> (c: u8)
        ensures
            c == self.spec_code(),
    {
        match self {
            MeasurementRate::Ms25 => 0,
            MeasurementRate::Ms50 => 1,
            MeasurementRate::Ms100 => 2,
            MeasurementRate::Ms200 => 3,
            MeasurementRate::Ms500 => 4,
            MeasurementRate::Ms1000 => 5,
            MeasurementRate::Ms2000 => 6,
        }
    }

    /// The setting that a code stands for; `None` for a code that the device
    /// does not define.
    pub open spec fn spec_from_code(code: u8) -> Option<MeasurementRate> {
        if code == 0 {
            Some(MeasurementRate::Ms25)
        } else if code == 1 {
            Some(MeasurementRate::Ms50)
        } else if code == 2 {
            Some(MeasurementRate::Ms100)
        } else if code == 3 {
            Some(MeasurementRate::Ms200)
        } else if code == 4 {
            Some(MeasurementRate::Ms500)
        } else if code == 5 {
            Some(MeasurementRate::Ms1000)
        } else if code == 6 {
            Some(MeasurementRate::Ms2000)
        } else {
            None
        }
    }

    /// The setting that a code stands for; `None` for a code that the device
    /// does not define.
    #[verifier::when_used_as_spec(spec_from_code)]
    pub fn from_code(code: u8) -> (r: Option<MeasurementRate>)
        ensures
            r == MeasurementRate::spec_from_code(code),
    {
        if code == 0 {
            Some(MeasurementRate::Ms25)
        } else if code == 1 {
            Some(MeasurementRate::Ms50)
        } else if code == 2 {
            Some(MeasurementRate::Ms100)
        } else if code == 3 {
            Some(MeasurementRate::Ms200)
        } else if code == 4 {
            Some(MeasurementRate::Ms500)
        } else if code == 5 {
            Some(MeasurementRate::Ms1000)
        } else if code == 6 {
            Some(MeasurementRate::Ms2000)
        } else {
            None
        }
    }
}

impl Default for MeasurementRate {
    fn default() -> (r: MeasurementRate)
        ensures
            r == MeasurementRate::Ms100,
    {
        MeasurementRate::Ms100
    }
}

/// Analog gain of the sensor.
#[derive(Debug, Clone, Copy, PartialEq, Eq, Structural)]
pub enum Gain {
    /// Gain 1
    Gain1,
    /// Gain 3 (default)
    Gain3,
    /// Gain 6
    Gain6,
    /// Gain 9
    Gain9,
    /// Gain 18
    Gain18,
}

impl Gain {
    /// The code that the device uses for this setting.
    pub open spec fn spec_code(self) -> u8 {
        match self {
            Gain::Gain1 => 0,
            Gain::Gain3 => 1,
            Gain::Gain6 => 2,
            Gain::Gain9 => 3,
            Gain::Gain18 => 4,
        }
    }

    /// The code that the device uses for this setting.
    #[verifier::when_used_as_spec(spec_code)]
    pub fn code(self) -> (c: u8)
        ensures
            c == self.spec_code(),
    {
        match self {
            Gain::Gain1 => 0,
            Gain::Gain3 => 1,
            Gain::Gain6 => 2,
            Gain::Gain9 => 3,
            Gain::Gain18 => 4,
        }
    }

    /// The setting that a code stands for; `None` for a code that the device
    /// does not define.
    pub open spec fn spec_from_code(code: u8) -> Option<Gain> {
        if code == 0 {
            Some(Gain::Gain1)
        } else if code == 1 {
            Some(Gain::Gain3)
        } else if code == 2 {
            Some(Gain::Gain6)
        } else if code == 3 {
            Some(Gain::Gain9)
        } else if code == 4 {
            Some(Gain::Gain18)
        } else {
            None
        }
    }

    /// The setting that a code stands for; `None` for a code that the device
    /// does not define.
    #[verifier::when_used_as_spec(spec_from_code)]
    pub fn from_code(code: u8) -> (r: Option<Gain>)
        ensures
            r == Gain::spec_from_code(code),
    {
        if code == 0 {
            Some(Gain::Gain1)
        } else if code == 1 {
            Some(Gain::Gain3)
        } else if code == 2 {
            Some(Gain::Gain6)
        } else if code == 3 {
            Some(Gain::Gain9)
        } else if code == 4 {
            Some(Gain::Gain18)
        } else {
            None
        }
    }
}

impl Default for Gain {
    fn default() -> (r: Gain)
        ensures
            r == Gain::Gain3,
    {
        Gain::Gain3
    }
}

/// Channel that the interrupt logic watches.
#[derive(Debug, Clone, Copy, PartialEq, Eq, Structural)]
pub enum InterruptSource {
    /// Clear channel
    ClearChannel,
    /// ALS channel (default)
    AlsChannel,
}

impl InterruptSource {
    /// The code that the device uses for this setting.
    pub open spec fn spec_code(self) -> u8 {
        match self {
            InterruptSource::ClearChannel => 0,
            InterruptSource::AlsChannel => 1,
        }
    }

    /// The code that the device uses for this setting.
    #[verifier::when_used_as_spec(spec_code)]
    pub fn code(self) -> (c: u8)
        ensures
            c == self.spec_code(),
    {
        match self {
            InterruptSource::ClearChannel => 0,
            InterruptSource::AlsChannel => 1,
        }
    }

    /// The setting that a code stands for; `None` for a code that the device
    /// does not define.
    pub open spec fn spec_from_code(code: u8) -> Option<InterruptSource> {
        if code == 0 {
            Some(InterruptSource::ClearChannel)
        } else if code == 1 {
            Some(InterruptSource::AlsChannel)
        } else {
            None
        }
    }

    /// The setting that a code stands for; `None` for a code that the device
    /// does not define.
    #[verifier::when_used_as_spec(spec_from_code)]
    pub fn from_code(code: u8) -> (r: Option<InterruptSource>)
        ensures
            r == InterruptSource::spec_from_code(code),
    {
        if code == 0 {
            Some(InterruptSource::ClearChannel)
        } else if code == 1 {
            Some(InterruptSource::AlsChannel)
        } else {
            None
        }
    }
}

impl Default for InterruptSource {
    fn default() -> (r: InterruptSource)
        ensures
            r == InterruptSource::AlsChannel,
    {
        InterruptSource::AlsChannel
    }
}

/// Condition that raises the interrupt.
#[derive(Debug, Clone, Copy, PartialEq, Eq, Structural)]
pub enum InterruptMode {
    /// Threshold interrupt mode (default)
    Threshold,
    /// Variation interrupt mode
    Variation,
}

impl InterruptMode {
    /// The code that the device uses for this setting.
    pub open spec fn spec_code(self) -> u8 {
        match self {
            InterruptMode::Threshold => 0,
            InterruptMode::Variation => 1,
        }
    }

    /// The code that the device uses for this setting.
    #[verifier::when_used_as_spec(spec_code)]
    pub fn code(self) -> (c: u8)
        ensures
            c == self.spec_code(),
    {
        match self {
            InterruptMode::Threshold => 0,
            InterruptMode::Variation => 1,
        }
    }

    /// The setting that a code stands for; `None` for a code that the device
    /// does not define.
    pub open spec fn spec_from_code(code: u8) -> Option<InterruptMode> {
        if code == 0 {
            Some(InterruptMode::Threshold)
        } else if code == 1 {
            Some(InterruptMode::Variation)
        } else {
            None
        }
    }

    /// The setting that a code stands for; `None` for a code that the device
    /// does not define.
    #[verifier::when_used_as_spec(spec_from_code)]
    pub fn from_code(code: u8) -> (r: Option<InterruptMode>)
        ensures
            r == InterruptMode::spec_from_code(code),
    {
        if code == 0 {
            Some(InterruptMode::Threshold)
        } else if code == 1 {
            Some(InterruptMode::Variation)
        } else {
            None
        }
    }
}

impl Default for InterruptMode {
    fn default() -> (r: InterruptMode)
        ensures
            r == InterruptMode::Threshold,
    {
        InterruptMode::Threshold
    }
}

/// Change between two successive results that raises the interrupt in
/// variation mode: `8 * 2^code` counts.
#[derive(Debug, Clone, Copy, PartialEq, Eq, Structural)]
pub enum VarianceThreshold {
    /// Result varies by 8 counts compared to previous result (default)
    Counts8,
    /// Result varies by 16 counts compared to previous result
    Counts16,
    /// Result varies by 32 counts compared to previous result
    Counts32,
    /// Result varies by 64 counts compared to previous result
    Counts64,
    /// Result varies by 128 counts compared to previous result
    Counts128,
    /// Result varies by 256 counts compared to previous result
    Counts256,
    /// Result varies by 512 counts compared to previous result
    Counts512,
    /// Result varies by 1024 counts compared to previous result
    Counts1024,
}

impl VarianceThreshold {
    /// The code that the device uses for this setting.
    pub open spec fn spec_code(self) -> u8 {
        match self {
            VarianceThreshold::Counts8 => 0,
            VarianceThreshold::Counts16 => 1,
            VarianceThreshold::Counts32 => 2,
            VarianceThreshold::Counts64 => 3,
            VarianceThreshold::Counts128 => 4,
            VarianceThreshold::Counts256 => 5,
            VarianceThreshold::Counts512 => 6,
            VarianceThreshold::Counts1024 => 7,
        }
    }

    /// The code that the device uses for this setting.
    #[verifier::when_used_as_spec(spec_code)]
    pub fn code(self) -> (c: u8)
        ensures
            c == self.spec_code(),
    {
        match self {
            VarianceThreshold::Counts8 => 0,
            VarianceThreshold::Counts16 => 1,
            VarianceThreshold::Counts32 => 2,
            VarianceThreshold::Counts64 => 3,
            VarianceThreshold::Counts128 => 4,
            VarianceThreshold::Counts256 => 5,
            VarianceThreshold::Counts512 => 6,
            VarianceThreshold::Counts1024 => 7,
        }
    }

    /// The setting that a code stands for; `None` for a code that the device
    /// does not define.
    pub open spec fn spec_from_code(code: u8) -> Option<VarianceThreshold> {
        if code == 0 {
            Some(VarianceThreshold::Counts8)
        } else if code == 1 {
            Some(VarianceThreshold::Counts16)
        } else if code == 2 {
            Some(VarianceThreshold::Counts32)
        } else if code == 3 {
            Some(VarianceThreshold::Counts64)
        } else if code == 4 {
            Some(VarianceThreshold::Counts128)
        } else if code == 5 {
            Some(VarianceThreshold::Counts256)
        } else if code == 6 {
            Some(VarianceThreshold::Counts512)
        } else if code == 7 {
            Some(VarianceThreshold::Counts1024)
        } else {
            None
        }
    }

    /// The setting that a code stands for; `None` for a code that the device
    /// does not define.
    #[verifier::when_used_as_spec(spec_from_code)]
    pub fn from_code(code: u8) -> (r: Option<VarianceThreshold>)
        ensures
            r == VarianceThreshold::spec_from_code(code),
    {
        if code == 0 {
            Some(VarianceThreshold::Counts8)
        } else if code == 1 {
            Some(VarianceThreshold::Counts16)
        } else if code == 2 {
            Some(VarianceThreshold::Counts32)
        } else if code == 3 {
            Some(VarianceThreshold::Counts64)
        } else if code == 4 {
            Some(VarianceThreshold::Counts128)
        } else if code == 5 {
            Some(VarianceThreshold::Counts256)
        } else if code == 6 {
            Some(VarianceThreshold::Counts512)
        } else if code == 7 {
            Some(VarianceThreshold::Counts1024)
        } else {
            None
        }
    }
}

impl Default for VarianceThreshold {
    fn default() -> (r: VarianceThreshold)
        ensures
            r == VarianceThreshold::Counts8,
    {
        VarianceThreshold::Counts8
    }
}

/// Configuration of the measurement.
#[derive(Debug, Clone, Copy, PartialEq, Eq, Structural)]
pub struct Config {
    /// Resolution
    pub resolution: Resolution,
    /// Measurement rate
    pub measurement_rate: MeasurementRate,
    /// Gain
    pub gain: Gain,
}

impl Config {
    /// The configuration that a new driver holds: 18 bits, 100 ms, gain 3.
    pub open spec fn spec_default() -> Config {
        Config {
            resolution: Resolution::Bits18,
            measurement_rate: MeasurementRate::Ms100,
            gain: Gain::Gain3,
        }
    }
}

impl Default for Config {
    fn default() -> (r: Config)
        ensures
            r == Config::spec_default(),
    {
        Config {
            resolution: Resolution::default(),
            measurement_rate: MeasurementRate::default(),
            gain: Gain::default(),
        }
    }
}

/// Configuration of the interrupt.
#[derive(Debug, Clone, Copy, PartialEq, Eq, Structural)]
pub struct InterruptConfig {
    /// Interrupt source
    pub source: InterruptSource,
    /// Interrupt mode
    pub mode: InterruptMode,
    /// Interrupt enabled
    pub enabled: bool,
    /// Number of consecutive measurements outside the thresholds before the
    /// interrupt is raised (0 to 15; a larger number counts as 15)
    pub persistence: u8,
    /// Upper threshold (20 bits; higher bits are dropped)
    pub upper_threshold: u32,
    /// Lower threshold (20 bits; higher bits are dropped)
    pub lower_threshold: u32,
    /// Variance threshold for variation mode
    pub variance_threshold: VarianceThreshold,
}

impl InterruptConfig {
    /// The configuration that a new driver holds: ALS channel, threshold
    /// mode, disabled, no persistence, and thresholds that no 20-bit result
    /// can cross.
    pub open spec fn spec_default() -> InterruptConfig {
        InterruptConfig {
            source: InterruptSource::AlsChannel,
            mode: InterruptMode::Threshold,
            enabled: false,
            persistence: 0,
            upper_threshold: 0x0FFFFF,
            lower_threshold: 0,
            variance_threshold: VarianceThreshold::Counts8,
        }
    }
}

impl Default for InterruptConfig {
    fn default() -> (r: InterruptConfig)
        ensures
            r == InterruptConfig::spec_default(),
    {
        InterruptConfig {
            source: InterruptSource::default(),
            mode: InterruptMode::default(),
            enabled: false,
            persistence: 0,
            upper_threshold: 0x0FFFFF,
            lower_threshold: 0,
            variance_threshold: VarianceThreshold::default(),
        }
    }
}

/// The flags of the status register at one read.
#[derive(Debug, Clone, Copy, PartialEq, Eq, Structural)]
pub struct Status {
    /// Power-on status
    pub power_on: bool,
    /// Interrupt status
    pub interrupt: bool,
    /// Data ready status
    pub data_ready: bool,
}

/// The raw counts of both channels.
#[derive(Debug, Clone, Copy, PartialEq, Eq, Structural)]
pub struct MeasurementData {
    /// ALS channel count (20 bits)
    pub als: u32,
    /// Clear channel count (20 bits)
    pub clear: u32,
}

} // verus!
