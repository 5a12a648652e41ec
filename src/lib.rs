//! Register bridge between a serial peripheral and a host controller.
//!
//! The wire protocol is a small addressed-register protocol: a request names
//! the peer address, a read/write bit and a register; a read is answered by the
//! register's raw value in big-endian order.
pub mod error;
pub mod frame;
pub mod registers;
pub mod client;
pub mod queue;
pub mod ingest;
pub mod sampling;
pub mod input;
