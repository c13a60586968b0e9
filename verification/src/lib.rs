//! A fixed-framing binary packet for a point-to-point byte channel.
//!
//! A frame is a two-byte sync marker, a command byte, a length byte, up to 255
//! payload bytes and a CRC-16/MODBUS checksum, multi-byte fields low byte
//! first. [`Packet`] builds, serializes, parses and validates such frames;
//! every function states its result over the byte sequence of the frame.

pub mod checksum;
pub mod guarantees;
pub mod packet;

pub use crate::packet::{Packet, PacketError};
