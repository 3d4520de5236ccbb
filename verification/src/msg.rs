//! Framed messages: header, payload, and trailing CRC.
//!
//! A frame on the wire is `HEADER_SIZE` header bytes, `data_size` payload
//! bytes, and a 2-byte little-endian CRC computed over header and payload.

use vstd::prelude::*;
use vstd::slice::slice_subrange;
use vstd::slice::slice_to_vec;

use crate::command::Command;
use crate::error::ParsingError;
use crate::header::Header;
use crate::header::TargetMode;
use crate::BROADCAST_TARGET;
use crate::CRC_SIZE;
use crate::HEADER_SIZE;
use crate::MAX_DATA_SIZE;
use crate::MAX_ID_VAL;
use crate::PROTOCOL_VERSION;

verus! {

/// The CRC register updated with one input byte.
///
/// 16-bit register; for each byte `b`: `x = (crc >> 8) ^ b`, `x ^= x >> 4`,
/// then `crc = (crc << 8) ^ (x << 12) ^ (x << 5) ^ x`, keeping the low
/// 16 bits. This exact sequence is on the wire and must not change.
pub open spec fn crc_step(value: u16, byte: u8) -> u16 {
    let x = ((value >> 8) as u8) ^ byte;
    let x = x ^ (x >> 4);
    let shifted = ((value << 8) as u32);
    let folded = shifted ^ ((x as u32) << 12) ^ ((x as u32) << 5) ^ (x as u32);
    folded as u16
}

/// The CRC of a byte sequence: the register starts at 0xFFFF and folds
/// every byte in order with `crc_step`.
pub open spec fn crc_of(s: Seq<u8>) -> u16
    decreases s.len(),
{
    if s.len() == 0 {
        0xFFFF
    } else {
        crc_step(crc_of(s.drop_last()), s.last())
    }
}

/// Folds one byte into the CRC register.
pub(crate) fn update_crc(value: u16, byte: u8) -> (r: u16)
    ensures
        r == crc_step(value, byte),
{
    let x: u8 = ((value >> 8) as u8) ^ byte;
    let x: u8 = x ^ (x >> 4);
    let shifted: u32 = (value << 8) as u32;
    let folded: u32 = shifted ^ ((x as u32) << 12) ^ ((x as u32) << 5) ^ (x as u32);
    folded as u16
}

/// CRC of a byte slice, as transmitted after header and payload.
pub fn crc(bytes: &[u8]) -> (r: u16)
    ensures
        r == crc_of(bytes@),
{
    let mut value: u16 = 0xFFFF;
    let mut i: usize = 0;
    while i < bytes.len()
        invariant
            0 <= i <= bytes@.len(),
            value == crc_of(bytes@.subrange(0, i as int)),
        decreases bytes@.len() - i,
    {
        value = update_crc(value, bytes[i]);
        i = i + 1;
        proof {
            let prefix = bytes@.subrange(0, i as int);
            assert(prefix.drop_last() =~= bytes@.subrange(0, i as int - 1));
        }
    }
    proof {
        assert(bytes@.subrange(0, bytes@.len() as int) =~= bytes@);
    }
    value
}

/// A framed unit on the wire: a header plus an owned payload.
#[derive(Clone, Debug)]
pub struct Message {
    /// The message context, letting the bus interpret the data field.
    pub header: Header,
    /// The payload carried by the message.
    pub data: Vec<u8>,
}

/// True when two byte vectors hold the same bytes.
fn bytes_equal(a: &Vec<u8>, b: &Vec<u8>) -> (r: bool)
    ensures
        r == (a@ == b@),
{
    if a.len() != b.len() {
        proof {
            assert(a@.len() != b@.len());
        }
        return false;
    }
    let mut i: usize = 0;
    while i < a.len()
        invariant
            0 <= i <= a@.len(),
            a@.len() == b@.len(),
            forall|j: int| 0 <= j < i ==> a@[j] == b@[j],
        decreases a@.len() - i,
    {
        if a[i] != b[i] {
            return false;
        }
        i = i + 1;
    }
    proof {
        assert(a@ =~= b@);
    }
    true
}

impl PartialEq for Message {
    fn eq(&self, other: &Message) -> (r: bool) {
        self.header == other.header && bytes_equal(&self.data, &other.data)
    }
}

impl vstd::std_specs::cmp::PartialEqSpecImpl for Message {
    open spec fn obeys_eq_spec() -> bool {
        true
    }

    open spec fn eq_spec(&self, other: &Message) -> bool {
        self.header == other.header && self.data@ == other.data@
    }
}

/// Appends every byte of `src` to `dst`.
fn push_bytes(dst: &mut Vec<u8>, src: &[u8])
    ensures
        final(dst)@ == old(dst)@ + src@,
{
    let mut i: usize = 0;
    while i < src.len()
        invariant
            0 <= i <= src@.len(),
            dst@ == old(dst)@ + src@.subrange(0, i as int),
        decreases src@.len() - i,
    {
        dst.push(src[i]);
        i = i + 1;
        proof {
            assert(old(dst)@ + src@.subrange(0, i as int) =~= (old(dst)@ + src@.subrange(
                0,
                i as int - 1,
            )).push(src@[i - 1]));
        }
    }
    proof {
        assert(src@.subrange(0, src@.len() as int) =~= src@);
    }
}

impl Message {
    /// A message whose header announces exactly its payload and whose
    /// fields fit the wire format.
    pub open spec fn valid(self) -> bool {
        &&& self.header.valid()
        &&& self.header.data_size == self.data@.len()
    }

    /// The wire form of this message: packed header, payload, then the
    /// little-endian CRC of everything before it.
    pub open spec fn bytes_spec(self) -> Seq<u8> {
        let prefix = self.header.bytes_spec() + self.data@;
        let c = crc_of(prefix);
        prefix + seq![(c as u8), ((c >> 8) as u8)]
    }

    /// The header and payload parsed from a wire frame, or the reason the
    /// frame is rejected. The CRC compared against the trailing bytes is
    /// the caller's `trust_crc` when supplied (an accumulator hands in the
    /// register it folded while receiving), else it is recomputed here.
    /// Bytes beyond the announced frame length are ignored.
    pub open spec fn parse_spec(s: Seq<u8>, trust_crc: Option<u16>) -> Result<
        (Header, Seq<u8>),
        ParsingError,
    > {
        if s.len() < HEADER_SIZE {
            Err(ParsingError::InvalidHeaderSize(s.len() as usize))
        } else {
            match Header::parse_spec(s.subrange(0, HEADER_SIZE as int)) {
                Err(e) => Err(e),
                Ok(h) => {
                    let total = HEADER_SIZE + h.data_size;
                    if s.len() < total + CRC_SIZE {
                        Err(ParsingError::InvalidDataSize(h.data_size))
                    } else {
                        let data = s.subrange(HEADER_SIZE as int, total as int);
                        let wire = (s[total as int] as u16) | ((s[total as int + 1] as u16) << 8);
                        let calc = match trust_crc {
                            Some(c) => c,
                            None => crc_of(s.subrange(0, total as int)),
                        };
                        if calc == wire {
                            Ok((h, data))
                        } else {
                            Err(ParsingError::InvalidCrc(calc, wire))
                        }
                    }
                },
            }
        }
    }

    /// A message with the given fields, `source` 0, and a copy of `data`.
    fn new(target: u16, target_mode: TargetMode, command: Command, data: &Vec<u8>) -> (m: Message)
        ensures
            m.header == (Header {
                protocol: PROTOCOL_VERSION,
                target,
                target_mode,
                source: 0,
                command,
                data_size: data@.len() as usize,
            }),
            m.data@ == data@,
    {
        Message {
            header: Header {
                protocol: PROTOCOL_VERSION,
                target,
                target_mode,
                source: 0,
                command,
                data_size: data.len(),
            },
            data: slice_to_vec(data.as_slice()),
        }
    }

    /// A `TargetMode::Id` message addressed to one module.
    pub fn id(target: u16, command: Command, data: &Vec<u8>) -> (m: Message)
        ensures
            m.header == (Header {
                protocol: PROTOCOL_VERSION,
                target,
                target_mode: TargetMode::Id,
                source: 0,
                command,
                data_size: data@.len() as usize,
            }),
            m.data@ == data@,
    {
        Message::new(target, TargetMode::Id, command, data)
    }

    /// A `TargetMode::IdAck` message addressed to one module, asking an
    /// acknowledgment back. Dispatch treats it like an id-addressed
    /// message; the acknowledgment frame itself is still an open part
    /// of the protocol and is not emitted.
    pub fn id_ack(target: u16, command: Command, data: &Vec<u8>) -> (m: Message)
        ensures
            m.header == (Header {
                protocol: PROTOCOL_VERSION,
                target,
                target_mode: TargetMode::IdAck,
                source: 0,
                command,
                data_size: data@.len() as usize,
            }),
            m.data@ == data@,
    {
        Message::new(target, TargetMode::IdAck, command, data)
    }

    /// A `TargetMode::Type` message addressed to all modules of one type.
    pub fn type_msg(target: u16, command: Command, data: &Vec<u8>) -> (m: Message)
        ensures
            m.header == (Header {
                protocol: PROTOCOL_VERSION,
                target,
                target_mode: TargetMode::Type,
                source: 0,
                command,
                data_size: data@.len() as usize,
            }),
            m.data@ == data@,
    {
        Message::new(target, TargetMode::Type, command, data)
    }

    /// A `TargetMode::Broadcast` message addressed to every module.
    pub fn broadcast(command: Command, data: &Vec<u8>) -> (m: Message)
        ensures
            m.header == (Header {
                protocol: PROTOCOL_VERSION,
                target: BROADCAST_TARGET,
                target_mode: TargetMode::Broadcast,
                source: 0,
                command,
                data_size: data@.len() as usize,
            }),
            m.data@ == data@,
    {
        Message::new(BROADCAST_TARGET, TargetMode::Broadcast, command, data)
    }

    /// A `TargetMode::Multicast` message addressed to a group of modules.
    pub fn multicast(target: u16, command: Command, data: &Vec<u8>) -> (m: Message)
        ensures
            m.header == (Header {
                protocol: PROTOCOL_VERSION,
                target,
                target_mode: TargetMode::Multicast,
                source: 0,
                command,
                data_size: data@.len() as usize,
            }),
            m.data@ == data@,
    {
        Message::new(target, TargetMode::Multicast, command, data)
    }

    /// Parses a message from raw frame bytes, validating the header and
    /// the CRC as `parse_spec` describes.
    pub fn from_bytes(bytes: &[u8], trust_crc: Option<u16>) -> (r: Result<Message, ParsingError>)
        ensures
            r matches Ok(m) ==> Message::parse_spec(bytes@, trust_crc) == Ok::<
                (Header, Seq<u8>),
                ParsingError,
            >((m.header, m.data@)),
            r matches Err(e) ==> Message::parse_spec(bytes@, trust_crc) == Err::<
                (Header, Seq<u8>),
                ParsingError,
            >(e),
    {
        if bytes.len() < HEADER_SIZE {
            return Err(ParsingError::InvalidHeaderSize(bytes.len()));
        }
        let head = slice_subrange(bytes, 0, HEADER_SIZE);
        match Header::from_bytes(head) {
            Err(e) => Err(e),
            Ok(h) => {
                let total = HEADER_SIZE + h.data_size;
                if bytes.len() < total + CRC_SIZE {
                    return Err(ParsingError::InvalidDataSize(h.data_size));
                }
                let data = slice_to_vec(slice_subrange(bytes, HEADER_SIZE, total));
                let wire = (bytes[total] as u16) | ((bytes[total + 1] as u16) << 8);
                let calc = match trust_crc {
                    Some(c) => c,
                    None => crc(slice_subrange(bytes, 0, total)),
                };
                if calc == wire {
                    Ok(Message { header: h, data })
                } else {
                    Err(ParsingError::InvalidCrc(calc, wire))
                }
            },
        }
    }

    /// Serializes the message: packed header, payload, then the CRC of
    /// both, low byte first.
    pub fn to_bytes(&self) -> (r: Vec<u8>)
        requires
            self.header.target <= MAX_ID_VAL,
            self.header.data_size <= MAX_DATA_SIZE,
        ensures
            r@ == self.bytes_spec(),
    {
        let head = self.header.to_bytes();
        let mut unmap: Vec<u8> = Vec::new();
        push_bytes(&mut unmap, head.as_slice());
        push_bytes(&mut unmap, self.data.as_slice());
        proof {
            assert(Seq::<u8>::empty() + self.header.bytes_spec() + self.data@
                =~= self.header.bytes_spec() + self.data@);
        }
        let c = crc(unmap.as_slice());
        unmap.push(c as u8);
        unmap.push((c >> 8) as u8);
        proof {
            let prefix = self.header.bytes_spec() + self.data@;
            assert(unmap@ =~= prefix + seq![(crc_of(prefix) as u8), ((crc_of(prefix) >> 8) as u8)]);
        }
        unmap
    }

    /// Parsing a frame whose trailing CRC was folded into `trust_crc`
    /// succeeds: what the accumulator hands over decodes to the message
    /// that was encoded.
    pub proof fn lemma_parse_encoded(m: Message, trust_crc: Option<u16>)
        requires
            m.valid(),
            trust_crc matches Some(c) ==> c == crc_of(m.header.bytes_spec() + m.data@),
        ensures
            Message::parse_spec(m.bytes_spec(), trust_crc) == Ok::<(Header, Seq<u8>), ParsingError>(
                (m.header, m.data@),
            ),
    {
        let s = m.bytes_spec();
        let hb = m.header.bytes_spec();
        let prefix = hb + m.data@;
        let c = crc_of(prefix);
        let ds = m.header.data_size as int;
        assert(hb.len() == 6);
        assert(s.len() == 6 + ds + 2);
        assert(s.subrange(0, HEADER_SIZE as int) =~= hb);
        Header::lemma_round_trip(m.header);
        assert(s.subrange(HEADER_SIZE as int, 6 + ds) =~= m.data@);
        assert(s.subrange(0, 6 + ds) =~= prefix);
        assert(s[6 + ds] == (c as u8));
        assert(s[6 + ds + 1] == ((c >> 8) as u8));
        assert((((c as u8) as u16) | ((((c >> 8) as u8) as u16) << 8)) == c) by (bit_vector);
    }

    /// Round trip: every valid message decodes, from its own wire bytes
    /// and with no trusted CRC, back to itself, `source` included.
    pub proof fn lemma_round_trip(m: Message)
        requires
            m.valid(),
        ensures
            Message::parse_spec(m.bytes_spec(), None) == Ok::<(Header, Seq<u8>), ParsingError>(
                (m.header, m.data@),
            ),
    {
        Message::lemma_parse_encoded(m, None);
    }
}

} // verus!
