//! Errors raised while framing or parsing bus traffic.
//!
//! All wire-level errors are recovered locally: the receive accumulator
//! flushes and resynchronizes on the next idle window, and no error ever
//! reaches a module callback.

use vstd::prelude::*;

verus! {

/// Why a header, frame, or module construction was rejected.
#[derive(Clone, Copy, Debug, PartialEq, Eq, Structural)]
pub enum ParsingError {
    /// The command byte names no declared `Command`.
    InvalidCommand(u8),
    /// Computed and received CRC disagree (computed first).
    InvalidCrc(u16, u16),
    /// The frame is too short for the payload its header announces.
    InvalidDataSize(usize),
    /// A header was expected but the slice is not `HEADER_SIZE` bytes.
    InvalidHeaderSize(usize),
    /// The protocol nibble is newer than `PROTOCOL_VERSION`.
    InvalidProtocol(u8),
    /// The target-mode nibble names no declared `TargetMode`.
    InvalidTargetMode(u8),
    /// A module alias longer than `MAX_ALIAS_SIZE` bytes.
    AliasTooLong(usize),
}

impl ParsingError {
    /// Short human-readable description of the error.
    pub fn description(&self) -> (r: &'static str)
        ensures
            r@ == self.description_spec(),
    {
        match self {
            ParsingError::InvalidCommand(_) => "invalid command",
            ParsingError::InvalidCrc(_, _) => "invalid crc",
            ParsingError::InvalidDataSize(_) => "invalid data size",
            ParsingError::InvalidHeaderSize(_) => "invalid header size",
            ParsingError::InvalidProtocol(_) => "invalid protocol",
            ParsingError::InvalidTargetMode(_) => "invalid target mode",
            ParsingError::AliasTooLong(_) => "alias too long",
        }
    }

    /// The description returned for each variant.
    pub open spec fn description_spec(self) -> Seq<char> {
        match self {
            ParsingError::InvalidCommand(_) => "invalid command"@,
            ParsingError::InvalidCrc(_, _) => "invalid crc"@,
            ParsingError::InvalidDataSize(_) => "invalid data size"@,
            ParsingError::InvalidHeaderSize(_) => "invalid header size"@,
            ParsingError::InvalidProtocol(_) => "invalid protocol"@,
            ParsingError::InvalidTargetMode(_) => "invalid target mode"@,
            ParsingError::AliasTooLong(_) => "alias too long"@,
        }
    }
}

} // verus!
