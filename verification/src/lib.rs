//! Driver for a single-chip temperature sensor on a two-wire
//! register-oriented bus.
//!
//! The driver models the chip's register map, the fixed-point temperature
//! wire format, and the bus transaction each operation issues. The bus
//! itself is abstracted by the [`bus::I2cBus`] trait, whose contract logs
//! every transaction; each driver operation states exactly which
//! transactions it performs and which bytes travel on the wire.
#![allow(non_camel_case_types)]

pub mod bus;
pub mod driver;
pub mod registers;
pub mod sim;
pub mod temperature;

pub use driver::ds1621;
pub use driver::Error;
pub use driver::MODE;
pub use registers::ADDR_DEFAULT;
pub use temperature::Temperature;
