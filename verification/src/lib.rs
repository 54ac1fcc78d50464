//! Driver for a sub-GHz FSK/OOK radio transceiver that is controlled through
//! a register-mapped serial bus.
//!
//! The crate models the chip's register map, the modem configuration catalog,
//! the sync-word, transmit-power and frequency encoders, and the operating
//! mode state machine. Hardware access goes through small capability traits
//! (a byte transport, a reset line, a delay source) that the host supplies;
//! a scripted in-memory transport ships with the crate for testing.

pub mod frame;
pub mod mock;
pub mod read_write;
pub mod registers;
pub mod rfm69;
pub mod settings;
