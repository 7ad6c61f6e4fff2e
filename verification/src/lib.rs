//! Clock synchronisation for a USB keyboard.
//!
//! The keyboard takes the time as one 64-byte command on its serial port.
//! This crate holds everything about that exchange that can be decided
//! without touching the port: the checksum, the layout of the command, the
//! timestamp it carries, which of the host's ports is the keyboard, and the
//! order of the steps of one exchange.

pub mod checksum;
pub mod clock;
pub mod error;
pub mod locator;
pub mod packet;
pub mod session;
