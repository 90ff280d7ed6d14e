//! Board support for the L031K6-Nucleo: pin handles whose mode is tracked in
//! their contracts, register images for the GPIO banks, the power/flash/clock
//! bring-up plan, and the binding of pins to the serial port and the I2C bus.
//!
//! The library computes register contents and the order in which they are to
//! be written; the firmware around it performs the writes.

mod bits;
pub mod device;
pub mod gpio;
pub mod clock;
pub mod rcc;
pub mod periph;
pub mod board;

pub use board::{bring_up, init, Board, Pins};
