//! Protocol core for HD44780 character displays driven through a GPIO
//! expander on a two-wire bus.
//!
//! The controller speaks a 4-bit parallel protocol: every byte crosses the
//! bus as two enable-pulsed nibble frames with datasheet-mandated delays in
//! between, and the expander variant decides how logical pins map onto frame
//! bits and whether each frame needs a register-address prefix. All of that
//! is decided here, as verified logic: each operation updates the driver's
//! software-held controller state and returns the exact sequence of bus
//! writes and suspensions to perform. An unverified shell owns the bus
//! handle and the delay primitive and replays the actions in order.

pub mod action;
pub mod bitmap;
pub mod config;
pub mod driver;

pub use action::{BusAction, BusStep};
pub use bitmap::{BitMap, DataPlacement, NibbleHalf, NibbleStrategy, OutputState};
pub use config::{AddressingMode, Config, TimingProfile};
pub use driver::LcdI2c;
