//! The 6-byte bit-packed frame header.
//!
//! Layout, one row per byte, bits 7..0:
//!
//! | byte | content |
//! |-----:|---------|
//! | 0 | low nibble of `target`, then the protocol version |
//! | 1 | high 8 bits of `target` (12 bits in total) |
//! | 2 | low nibble of `source`, then the target mode |
//! | 3 | high 8 bits of `source` (12 bits in total) |
//! | 4 | command |
//! | 5 | payload size in bytes |

use vstd::prelude::*;

use crate::command::Command;
use crate::error::ParsingError;
use crate::HEADER_SIZE;
use crate::MAX_DATA_SIZE;
use crate::MAX_ID_VAL;
use crate::PROTOCOL_VERSION;

verus! {

/// How the `target` field of a header is interpreted.
#[derive(Clone, Copy, Debug, PartialEq, Eq, Structural)]
pub enum TargetMode {
    /// One module, by id.
    Id,
    /// One module, by id, with an acknowledgment expected back.
    IdAck,
    /// Every module of one type.
    Type,
    /// Every module.
    Broadcast,
    /// A pre-registered group of modules.
    Multicast,
}

impl TargetMode {
    /// Wire value of this target mode.
    pub open spec fn code_spec(self) -> u8 {
        match self {
            TargetMode::Id => 0,
            TargetMode::IdAck => 1,
            TargetMode::Type => 2,
            TargetMode::Broadcast => 3,
            TargetMode::Multicast => 4,
        }
    }

    /// Target mode decoded from a wire value, if the value names one.
    pub open spec fn from_code_spec(b: u8) -> Option<TargetMode> {
        if b == 0 {
            Some(TargetMode::Id)
        } else if b == 1 {
            Some(TargetMode::IdAck)
        } else if b == 2 {
            Some(TargetMode::Type)
        } else if b == 3 {
            Some(TargetMode::Broadcast)
        } else if b == 4 {
            Some(TargetMode::Multicast)
        } else {
            None
        }
    }

    /// Wire value of this target mode.
    pub fn code(&self) -> (r: u8)
        ensures
            r == self.code_spec(),
    {
        match self {
            TargetMode::Id => 0,
            TargetMode::IdAck => 1,
            TargetMode::Type => 2,
            TargetMode::Broadcast => 3,
            TargetMode::Multicast => 4,
        }
    }

    /// Target mode decoded from a wire value, if the value names one.
    pub fn from_code(b: u8) -> (r: Option<TargetMode>)
        ensures
            r == TargetMode::from_code_spec(b),
    {
        if b == 0 {
            Some(TargetMode::Id)
        } else if b == 1 {
            Some(TargetMode::IdAck)
        } else if b == 2 {
            Some(TargetMode::Type)
        } else if b == 3 {
            Some(TargetMode::Broadcast)
        } else if b == 4 {
            Some(TargetMode::Multicast)
        } else {
            None
        }
    }

    /// Decoding a target mode's wire value gives the mode back.
    pub proof fn lemma_code_round_trip(m: TargetMode)
        ensures
            TargetMode::from_code_spec(m.code_spec()) == Some(m),
    {
    }
}

/// Byte holding the low nibble of a 12-bit id in its high bits and a
/// 4-bit code in its low bits.
pub open spec fn pack_nibble_byte(id: u16, code: u8) -> u8 {
    (((id & 0x000F) << 4) as u8) | (code & 0x0F)
}

/// Byte holding the high 8 bits of a 12-bit id.
pub open spec fn pack_high_byte(id: u16) -> u8 {
    (id >> 4) as u8
}

/// The 4-bit code stored in the low bits of a nibble byte.
pub open spec fn unpack_code(b: u8) -> u8 {
    b & 0x0F
}

/// The 12-bit id split over a nibble byte and a high byte.
pub open spec fn unpack_id(lo: u8, hi: u8) -> u16 {
    (((lo & 0xF0) >> 4) as u16) | ((hi as u16) << 4)
}

/// The context of a frame: who sends it, to whom, and what for.
#[derive(Clone, Copy, Debug, PartialEq, Eq, Structural)]
pub struct Header {
    /// Protocol revision; frames of a newer revision are rejected.
    pub protocol: u8,
    /// 12-bit id of the addressed module, type, or group.
    pub target: u16,
    /// How `target` is interpreted.
    pub target_mode: TargetMode,
    /// 12-bit id of the sending module, stamped at send time.
    pub source: u16,
    /// Purpose of the message.
    pub command: Command,
    /// Number of payload bytes that follow the header.
    pub data_size: usize,
}

impl Header {
    /// Fields a header must satisfy to be packed losslessly: ids fit in
    /// 12 bits, the protocol nibble is current, and the payload size fits
    /// in the single size byte.
    pub open spec fn valid(self) -> bool {
        &&& self.protocol <= PROTOCOL_VERSION
        &&& self.target <= MAX_ID_VAL
        &&& self.source <= MAX_ID_VAL
        &&& self.data_size < MAX_DATA_SIZE
    }

    /// The packed wire form of this header.
    pub open spec fn bytes_spec(self) -> Seq<u8> {
        seq![
            pack_nibble_byte(self.target, self.protocol),
            pack_high_byte(self.target),
            pack_nibble_byte(self.source, self.target_mode.code_spec()),
            pack_high_byte(self.source),
            self.command.code_spec(),
            (self.data_size as u8),
        ]
    }

    /// The header parsed from a packed wire form, or the reason the bytes
    /// are rejected: wrong length, out-of-range payload size, unknown
    /// protocol revision, target mode, or command.
    pub open spec fn parse_spec(s: Seq<u8>) -> Result<Header, ParsingError> {
        if s.len() != HEADER_SIZE {
            Err(ParsingError::InvalidHeaderSize(s.len() as usize))
        } else {
            let protocol = unpack_code(s[0]);
            let target = unpack_id(s[0], s[1]);
            let mode_bits = unpack_code(s[2]);
            let source = unpack_id(s[2], s[3]);
            let data_size = s[5] as usize;
            if data_size > MAX_DATA_SIZE {
                Err(ParsingError::InvalidDataSize(data_size))
            } else if protocol > PROTOCOL_VERSION {
                Err(ParsingError::InvalidProtocol(protocol))
            } else {
                match TargetMode::from_code_spec(mode_bits) {
                    None => Err(ParsingError::InvalidTargetMode(mode_bits)),
                    Some(target_mode) => match Command::from_code_spec(s[4]) {
                        None => Err(ParsingError::InvalidCommand(s[4])),
                        Some(command) => Ok(
                            Header { protocol, target, target_mode, source, command, data_size },
                        ),
                    },
                }
            }
        }
    }

    /// Packs the fields into the 6-byte wire form.
    pub fn to_bytes(&self) -> (r: [u8; 6])
        requires
            self.target <= MAX_ID_VAL,
            self.data_size <= MAX_DATA_SIZE,
        ensures
            r@ == self.bytes_spec(),
    {
        let mut unmap: [u8; 6] = [0; 6];
        let target_low: u8 = ((self.target & 0x000F) << 4) as u8;
        let source_low: u8 = ((self.source & 0x000F) << 4) as u8;
        unmap[0] = target_low | (self.protocol & 0x0F);
        unmap[1] = (self.target >> 4) as u8;
        unmap[2] = source_low | (self.target_mode.code() & 0x0F);
        unmap[3] = (self.source >> 4) as u8;
        unmap[4] = self.command.code();
        unmap[5] = self.data_size as u8;
        proof {
            assert(unmap@ =~= self.bytes_spec());
        }
        unmap
    }

    /// Unpacks a header from a 6-byte slice, validating every field.
    pub fn from_bytes(bytes: &[u8]) -> (r: Result<Header, ParsingError>)
        ensures
            r == Header::parse_spec(bytes@),
    {
        if bytes.len() != HEADER_SIZE {
            return Err(ParsingError::InvalidHeaderSize(bytes.len()));
        }
        let b0 = bytes[0];
        let b1 = bytes[1];
        let b2 = bytes[2];
        let b3 = bytes[3];
        let protocol = b0 & 0x0F;
        let target = (((b0 & 0xF0) >> 4) as u16) | ((b1 as u16) << 4);
        let mode_bits = b2 & 0x0F;
        let source = (((b2 & 0xF0) >> 4) as u16) | ((b3 as u16) << 4);
        let data_size = bytes[5] as usize;
        if data_size > MAX_DATA_SIZE {
            Err(ParsingError::InvalidDataSize(data_size))
        } else if protocol > PROTOCOL_VERSION {
            Err(ParsingError::InvalidProtocol(protocol))
        } else {
            match TargetMode::from_code(mode_bits) {
                None => Err(ParsingError::InvalidTargetMode(mode_bits)),
                Some(target_mode) => match Command::from_code(bytes[4]) {
                    None => Err(ParsingError::InvalidCommand(bytes[4])),
                    Some(command) => Ok(
                        Header { protocol, target, target_mode, source, command, data_size },
                    ),
                },
            }
        }
    }

    /// Packing a valid header and parsing the bytes back gives the same
    /// header: no field is lost on the wire.
    pub proof fn lemma_round_trip(h: Header)
        requires
            h.valid(),
        ensures
            Header::parse_spec(h.bytes_spec()) == Ok::<Header, ParsingError>(h),
    {
        let t = h.target;
        let src = h.source;
        let p = h.protocol;
        let mc = h.target_mode.code_spec();
        let ds = h.data_size;
        assert(mc <= 4);
        assert(unpack_code(pack_nibble_byte(t, p)) == p) by (bit_vector)
            requires
                p <= 15,
        ;
        assert(unpack_id(pack_nibble_byte(t, p), pack_high_byte(t)) == t) by (bit_vector)
            requires
                t <= 0x0FFF,
        ;
        assert(unpack_code(pack_nibble_byte(src, mc)) == mc) by (bit_vector)
            requires
                mc <= 15,
        ;
        assert(unpack_id(pack_nibble_byte(src, mc), pack_high_byte(src)) == src) by (bit_vector)
            requires
                src <= 0x0FFF,
        ;
        assert((ds as u8) as usize == ds) by (bit_vector)
            requires
                ds < 256,
        ;
        TargetMode::lemma_code_round_trip(h.target_mode);
        Command::lemma_code_round_trip(h.command);
    }
}

} // verus!
