//! Decoder for the radio packets of the IKEA Sparsnas energy monitor.
//!
//! The monitor's transmitter sits on an electricity meter and counts the
//! blinks of its pulse light. It masks each payload with a five-byte
//! keystream derived from its serial number and closes the packet with a
//! 16-bit checksum. This crate checks such packets, takes the mask off and
//! reads the fields; every function carries a contract that Verus proves.
//!
//! <https://github.com/kodarn/Sparsnas> describes the protocol at length.
//!
//! - [`decoder`]: the decoder, its errors, and what decoding means.
//! - [`wire`]: the layout of a packet and the keystream.
//! - [`ikeacrc`]: the checksum.
//! - [`packet`]: the reading that a packet carries, and the power it tells.
//! - [`guarantees`]: what holds of every decoder and every packet.

pub mod decoder;
pub mod guarantees;
pub mod ikeacrc;
pub mod packet;
pub mod wire;

pub use decoder::{SparsnasDecodeError, SparsnasDecoder};
pub use packet::SparsnasPacket;
