//! Verified core of a driver for the TCA9548A and PCA9548A I2C switches.
//!
//! Both chips fan one upstream I2C bus out to eight downstream channels.
//! A single control register decides which channels are connected: bit 0
//! stands for channel 0 and so on up to bit 7 for channel 7. Writing one
//! byte to the chip sets the register, reading one byte from it returns the
//! register. The chip answers at `0b111_0000`, or at one of the seven
//! addresses above it when its address pins A2, A1 and A0 are strapped.
//!
//! The crate decides and proves what goes over the bus; it leaves the bus
//! itself to its caller:
//!
//! - [`SlaveAddr::addr`] computes the address of the chip from its pins.
//! - [`Xca9548a`] owns the bus handle and the address. Each of its
//!   operations starts by taking the driver, so that a second one cannot
//!   start before the first has ended, and hands back the transaction to
//!   run together with the bus handle to run it on.
//! - [`Xca9548a::finish`] and [`Xca9548a::finish_channel_status`] take the
//!   outcome of the transaction, set the driver free again and say what the
//!   caller is told: the bus error, if there was one, inside
//!   [`Error::I2C`].
//!
//! Every function has a contract that fixes its result, and the laws that
//! tie the functions together are proved beside them.

pub mod address;
pub mod device;
pub mod error;
pub mod transaction;

pub use address::SlaveAddr;
pub use address::DEVICE_BASE_ADDRESS;
pub use device::DeviceState;
pub use device::Step;
pub use device::Xca9548a;
pub use error::Error;
pub use transaction::ReadTransaction;
pub use transaction::WriteReadTransaction;
pub use transaction::WriteTransaction;
