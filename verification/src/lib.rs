//! Driver core for a CAN / CAN-FD controller peripheral.
//!
//! The crate holds the parts of the driver that decide and compute: bit-timing
//! validation and calculation, the configuration builder, the controller's
//! mode state machine, the split transmit and receive handles, and the frame
//! codec. Everything here is plain data in, plain data out; register access,
//! interrupts and task scheduling belong to the program that embeds the core.

pub mod clock;
pub mod config;
pub mod controller;
pub mod frame;
pub mod mode;
mod sealed;
pub mod task;
pub mod timing;
pub mod transceiver;
