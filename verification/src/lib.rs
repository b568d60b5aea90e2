//! A driver for the HMC5883L three-axis magnetometer on a two-wire bus.
//!
//! The driver is a typed view of the device's register map. `registers`
//! names the registers, `codec` packs settings into register bytes and
//! takes them out again, `settings` lists the settings, `measurement`
//! turns data register bytes into samples, `bus` is the bus that the
//! caller brings, `protocol` says what each operation does on the bus,
//! `device` is the handle that carries the operations out, and `publish`
//! is a cell for handing the handle from the code that makes it to the
//! code that uses it.

pub mod bus;
pub mod codec;
pub mod device;
pub mod measurement;
pub mod protocol;
pub mod publish;
pub mod registers;
pub mod settings;

pub use bus::I2cBus;
pub use codec::{DecodeError, Setting};
pub use device::Hmc5883l;
pub use protocol::Error;
pub use registers::{Axes, Registers, IIC_ADDR};
pub use settings::{AveragedSamples, Gain, MeasurementModes, OperationModes, OutputRates};
