//! A verified model of a Linux-style I2C/SMBus channel: per-message quirk
//! flags and their native bit representation, the channel's cached capability
//! bitset, the bounded multi-message batch-transfer engine, and the
//! capability-aware block-transfer emulation layer.
//!
//! The library holds the protocol logic only. The ioctls that carry a
//! prepared batch to the hardware, and the device handles they run on, live
//! outside it; the library prepares descriptors for them and reconciles the
//! lengths they report.

pub mod capability;
pub mod channel;
pub mod flags;
pub mod message;
pub mod transfer;
