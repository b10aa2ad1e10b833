//! Adapters that let one blocking, block-oriented SPI bus primitive serve
//! several interface styles: block read / write / transfer, a one-byte
//! polling full-duplex interface, and ordered multi-step device transactions.
//!
//! Chip-select handling is deliberately absent: every adapter here assumes the
//! select line is already managed by whoever owns the bus.

pub mod bus;
pub mod device;
pub mod error;
pub mod primitive;
