//! Drivers for the serial-bus (SPI) and timer/counter peripherals of an
//! STM32F7-family microcontroller.
//!
//! The crate is organised leaf-first:
//!
//! - [`time`] holds the frequency newtype shared by every driver.
//! - [`rcc`] models the clock-tree snapshot ([`rcc::Clocks`]) and the shared
//!   reset-and-clock-control register block ([`rcc::Rcc`]).
//! - [`divider`] is the pure arithmetic that turns a requested frequency into
//!   the divisor / prescaler / reload fields the hardware consumes.
//! - [`nonblocking`] holds the tri-state result every polled operation
//!   returns.
//! - [`spi`] binds a capability-checked pin set to one serial-bus controller
//!   and drives non-blocking byte transfer over it.
//! - [`timer`] drives the general-purpose timers and the core system tick as
//!   periodic count-down timers.
//!
//! Every register block is an owned handle with named bitfields: a driver has
//! exclusive ownership of its block for its whole lifetime, every write goes
//! through the owning driver, and `release`/`free` hand the block back.

pub mod divider;
pub mod nonblocking;
pub mod rcc;
pub mod spi;
pub mod time;
pub mod timer;
