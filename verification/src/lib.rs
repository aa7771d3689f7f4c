//! Driver core for the APDS-9306 and APDS-9306-065 digital ambient light
//! sensors.
//!
//! The crate holds everything the driver decides: the register map, the
//! encoding of every configuration value into register bytes, the decoding of
//! measurements and status, and the order of the bus transactions that make up
//! each operation. It performs no input or output itself. An operation is
//! handed out as a value that names the next bus transaction and is advanced
//! with what the bus answered, so the same verified logic serves any
//! transport, blocking or asynchronous.
//!
//! ## Example
//!
//! Enabling the sensor over a bus that offers a function `perform`, which
//! carries out one [`Transaction`] and returns its [`Reply`]:
//!
//! ```rust,ignore
//! let update = sensor.enable();
//! let reply = perform(sensor.bus(), update.request());
//! let mut step = update.advance(reply);
//! let result = loop {
//!     match step {
//!         Step::Continue(write) => {
//!             let reply = perform(sensor.bus(), write.request());
//!             step = write.advance(reply);
//!         }
//!         Step::Done(result) => break result,
//!     }
//! };
//! ```

pub mod codec;
pub mod driver;
pub mod error;
pub mod exchange;
pub mod laws;
pub mod register;
pub mod text;
pub mod transaction;
pub mod types;

pub use driver::{Apds9306, Apds9306Type, Unverified};
pub use error::Error;
pub use exchange::{
    Channel, ControlUpdate, CountRead, FlagRead, MeasurementRead, StatusByteRead, StatusFlag,
    StatusRead, Step, WriteSequence,
};
pub use register::Register;
pub use transaction::{Reply, Transaction, I2C_ADDR};
pub use types::{
    Config, Gain, InterruptConfig, InterruptMode, InterruptSource, MeasurementData,
    MeasurementRate, Resolution, Status, VarianceThreshold,
};
