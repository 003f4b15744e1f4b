//! Hardware peripheral control layer for JH71xx systems-on-chip.
//!
//! The heart of the crate is the two-wire bus master transaction engine in
//! [`i2c`]: it turns a sequence of read/write operations addressed to a remote
//! device into correctly ordered register writes, FIFO-occupancy-aware
//! chunking, restart/stop bit placement, and recovery from a stuck bus.
//!
//! The engine never touches raw hardware addresses. All register access goes
//! through the [`i2c::peripheral::I2cPeripheral`] capability, and all waiting
//! goes through the [`delay::DelayUs`] capability; both are supplied by the
//! caller at construction time. Every register write the engine performs is
//! recorded in the specification-level log of the capability, and the
//! contracts of the engine's methods state exactly which writes each call
//! appends to that log.

pub mod delay;
pub mod i2c;
pub mod uart;
