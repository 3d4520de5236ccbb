//! Robus: a lightweight messaging bus for embedded sensor and actuator
//! modules sharing one half-duplex serial line.
//!
//! Each physical node runs a [`Core`] that multiplexes one or more logical
//! modules onto the wire. The crate covers the node-local protocol engine:
//! the framed message model (bit-packed header, payload, CRC), the
//! byte-by-byte receive accumulator with timeout-driven resynchronization,
//! the module registry and dispatch rules, and the transmit path with its
//! TX-lock and half-duplex direction control. The hardware surface (UART,
//! direction pins, timer) is abstracted behind the [`Peripherals`] trait.

use vstd::prelude::*;

pub mod command;
pub mod deque;
pub mod error;
pub mod header;
pub mod mod_type;
pub mod module;
pub mod msg;
pub mod recv_buf;
pub mod registry;
pub mod robus_core;

pub use command::Command;
pub use command::ProtocolCommand;
pub use deque::Deque;
pub use error::ParsingError;
pub use header::Header;
pub use header::TargetMode;
pub use mod_type::ModuleType;
pub use module::Module;
pub use msg::crc;
pub use msg::Message;
pub use recv_buf::RecvBuf;
pub use registry::Registry;
pub use robus_core::init;
pub use robus_core::Core;
pub use robus_core::Peripherals;

verus! {

/// Protocol revision carried in the low nibble of the first header byte.
pub const PROTOCOL_VERSION: u8 = 0;

/// Number of bytes in a packed header.
pub const HEADER_SIZE: usize = 6;

/// Number of trailing CRC bytes in a frame.
pub const CRC_SIZE: usize = 2;

/// Largest payload a header can announce.
pub const MAX_DATA_SIZE: usize = 256;

/// Largest frame: header, maximal payload, CRC.
pub const MAX_MESSAGE_SIZE: usize = HEADER_SIZE + MAX_DATA_SIZE + CRC_SIZE;

/// Largest value of the 12-bit module ids `target` and `source`.
pub const MAX_ID_VAL: u16 = 0x0FFF;

/// `target` value used by broadcast frames.
pub const BROADCAST_TARGET: u16 = 0x0FFF;

/// Longest accepted module alias, in bytes.
pub const MAX_ALIAS_SIZE: usize = 15;

} // verus!
