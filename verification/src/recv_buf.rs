//! The reception byte-accumulator.
//!
//! Bytes arrive one at a time from the UART interrupt. The accumulator
//! buffers them, learns the frame length from the header as soon as its
//! sixth byte is in, folds every non-CRC byte into an incremental CRC
//! register, and hands a complete, valid frame out as a `Message`. A bad
//! header or a timeout flushes the buffer, so the parser never stalls
//! waiting for a byte that will never come.

use vstd::prelude::*;

use crate::header::Header;
use crate::msg::crc_of;
use crate::msg::crc_step;
use crate::msg::update_crc;
use crate::msg::Message;
use crate::CRC_SIZE;
use crate::HEADER_SIZE;

verus! {

/// Mathematical state of the accumulator: the bytes buffered so far, the
/// frame length currently expected, and the CRC register.
#[verifier::ext_equal]
pub struct RecvView {
    /// Bytes received since the last flush.
    pub bytes: Seq<u8>,
    /// Total frame length expected: header and CRC until the header is
    /// in, then header, payload, and CRC.
    pub to_read: int,
    /// CRC register, seeded 0xFFFF and folded over header and payload.
    pub crc: u16,
}

/// The state right after a flush: nothing buffered, a bare frame
/// expected, the CRC register reseeded.
pub open spec fn acc_fresh() -> RecvView {
    RecvView { bytes: Seq::empty(), to_read: (HEADER_SIZE + CRC_SIZE) as int, crc: 0xFFFF }
}

/// Flushing discards any partial frame and returns to the fresh state.
pub open spec fn acc_flush(s: RecvView) -> RecvView {
    acc_fresh()
}

/// States the accumulator can actually reach: the expected frame length
/// covers header and CRC plus at most a maximal payload, and stays at its
/// initial value until a full header is in.
pub open spec fn acc_wf(s: RecvView) -> bool {
    &&& HEADER_SIZE + CRC_SIZE <= s.to_read <= HEADER_SIZE + CRC_SIZE + 255
    &&& s.bytes.len() < HEADER_SIZE ==> s.to_read == HEADER_SIZE + CRC_SIZE
}

/// One received byte folded into the accumulator state.
///
/// The byte is buffered; when it completes the header, the header is
/// parsed to learn the frame length, and a rejected header flushes
/// everything buffered. The byte is folded into the CRC register unless
/// it stands where the frame's own CRC bytes go. Note the order: the
/// byte that completed a rejected header is folded into the freshly
/// reseeded register, so the frame right after an invalid header fails
/// its CRC check and is dropped; reception then resynchronizes through
/// that flush.
pub open spec fn acc_push(s: RecvView, byte: u8) -> RecvView {
    let grown = RecvView { bytes: s.bytes.push(byte), to_read: s.to_read, crc: s.crc };
    let sized = if grown.bytes.len() == HEADER_SIZE {
        match Header::parse_spec(grown.bytes) {
            Ok(h) => RecvView {
                bytes: grown.bytes,
                to_read: grown.to_read + h.data_size,
                crc: grown.crc,
            },
            Err(_) => acc_fresh(),
        }
    } else {
        grown
    };
    if sized.bytes.len() <= sized.to_read - 2 {
        RecvView { bytes: sized.bytes, to_read: sized.to_read, crc: crc_step(sized.crc, byte) }
    } else {
        sized
    }
}

/// True when as many bytes are buffered as the current frame expects.
pub open spec fn acc_complete(s: RecvView) -> bool {
    s.bytes.len() == s.to_read
}

/// The message taken from a complete buffer, if its frame parses with
/// the incrementally folded CRC; an incomplete buffer yields nothing.
pub open spec fn acc_get(s: RecvView) -> Option<(Header, Seq<u8>)> {
    if acc_complete(s) {
        match Message::parse_spec(s.bytes, Some(s.crc)) {
            Ok(p) => Some(p),
            Err(_) => None,
        }
    } else {
        None
    }
}

/// State after asking for a message: a complete buffer is flushed whether
/// or not its frame parsed; an incomplete one is kept.
pub open spec fn acc_after_get(s: RecvView) -> RecvView {
    if acc_complete(s) {
        acc_fresh()
    } else {
        s
    }
}

/// A whole byte sequence folded into the accumulator, in order.
pub open spec fn acc_feed(s: RecvView, input: Seq<u8>) -> RecvView
    decreases input.len(),
{
    if input.len() == 0 {
        s
    } else {
        acc_push(acc_feed(s, input.drop_last()), input.last())
    }
}

/// The reception accumulator: a byte buffer, the expected frame length,
/// and the incremental CRC register.
#[derive(Debug)]
pub struct RecvBuf {
    buf: Vec<u8>,
    to_read: usize,
    crc: u16,
}

impl View for RecvBuf {
    type V = RecvView;

    closed spec fn view(&self) -> RecvView {
        RecvView { bytes: self.buf@, to_read: self.to_read as int, crc: self.crc }
    }
}

impl RecvBuf {
    /// An empty accumulator, ready for the first byte of a frame.
    pub fn new() -> (r: RecvBuf)
        ensures
            r@ == acc_fresh(),
            acc_wf(r@),
    {
        let r = RecvBuf { buf: Vec::new(), to_read: HEADER_SIZE + CRC_SIZE, crc: 0xFFFF };
        proof {
            assert(r@ =~= acc_fresh());
        }
        r
    }

    /// Buffers one received byte, as `acc_push` describes.
    pub fn push(&mut self, byte: u8)
        requires
            acc_wf(old(self)@),
        ensures
            final(self)@ == acc_push(old(self)@, byte),
            acc_wf(final(self)@),
    {
        self.buf.push(byte);
        if self.buf.len() == HEADER_SIZE {
            match Header::from_bytes(self.buf.as_slice()) {
                Ok(h) => {
                    self.to_read = self.to_read + h.data_size;
                },
                Err(_) => {
                    self.flush();
                },
            }
        }
        if self.buf.len() <= self.to_read - 2 {
            self.crc = update_crc(self.crc, byte);
        }
        proof {
            assert(self@ =~= acc_push(old(self)@, byte));
        }
    }

    /// Discards everything buffered and reseeds the CRC register.
    pub fn flush(&mut self)
        ensures
            final(self)@ == acc_flush(old(self)@),
            acc_wf(final(self)@),
    {
        self.buf.clear();
        self.to_read = HEADER_SIZE + CRC_SIZE;
        self.crc = 0xFFFF;
        proof {
            assert(self@ =~= acc_fresh());
        }
    }

    /// Takes the completed frame as a message, if there is one and it
    /// parses; a complete frame, valid or not, flushes the buffer, so a
    /// corrupt frame is silently dropped and reception resynchronizes.
    pub fn get_message(&mut self) -> (r: Option<Message>)
        requires
            acc_wf(old(self)@),
        ensures
            final(self)@ == acc_after_get(old(self)@),
            acc_wf(final(self)@),
            (r is Some) == (acc_get(old(self)@) is Some),
            r matches Some(m) ==> acc_get(old(self)@) == Some((m.header, m.data@)),
    {
        if self.buf.len() == self.to_read {
            let msg = Message::from_bytes(self.buf.as_slice(), Some(self.crc));
            self.flush();
            match msg {
                Ok(m) => Some(m),
                Err(_) => None,
            }
        } else {
            None
        }
    }
}

/// Idempotent flush: once the accumulator is flushed, asking for a
/// message yields nothing, whatever state it was in before.
pub proof fn lemma_flush_then_empty(s: RecvView)
    ensures
        acc_get(acc_flush(s)) is None,
{
}

/// Taking a message drains the accumulator: right after any ask,
/// complete or not, a second ask yields nothing.
pub proof fn lemma_get_drains(s: RecvView)
    ensures
        acc_get(acc_after_get(s)) is None,
{
}

/// After the first `k` wire bytes of a valid message, the accumulator
/// holds exactly those bytes, expects the right frame length, and its
/// CRC register covers the non-CRC bytes seen so far.
proof fn lemma_feed_frame_prefix(m: Message, k: int)
    requires
        m.valid(),
        0 <= k <= m.bytes_spec().len(),
    ensures
        ({
            let wire = m.bytes_spec();
            let ds = m.header.data_size as int;
            let s = acc_feed(acc_fresh(), wire.subrange(0, k));
            &&& s.bytes == wire.subrange(0, k)
            &&& s.to_read == if k < HEADER_SIZE {
                (HEADER_SIZE + CRC_SIZE) as int
            } else {
                HEADER_SIZE + CRC_SIZE + ds
            }
            &&& s.crc == crc_of(
                wire.subrange(0, if k <= HEADER_SIZE + ds { k } else { HEADER_SIZE + ds }),
            )
        }),
    decreases k,
{
    let wire = m.bytes_spec();
    let ds = m.header.data_size as int;
    let hb = m.header.bytes_spec();
    assert(hb.len() == 6);
    assert(wire.len() == 6 + ds + 2);
    if k == 0 {
        assert(wire.subrange(0, 0) =~= Seq::<u8>::empty());
        assert(acc_feed(acc_fresh(), wire.subrange(0, 0)) == acc_fresh());
    } else {
        lemma_feed_frame_prefix(m, k - 1);
        let prev = acc_feed(acc_fresh(), wire.subrange(0, k - 1));
        let cur = wire.subrange(0, k);
        assert(cur.drop_last() =~= wire.subrange(0, k - 1));
        assert(cur.last() == wire[k - 1]);
        assert(acc_feed(acc_fresh(), cur) == acc_push(prev, wire[k - 1]));
        let s = acc_push(prev, wire[k - 1]);
        assert(prev.bytes.push(wire[k - 1]) =~= cur);
        if k == HEADER_SIZE {
            assert(cur =~= hb);
            Header::lemma_round_trip(m.header);
            assert(Header::parse_spec(cur) == Ok::<Header, crate::error::ParsingError>(m.header));
            assert(s.to_read == HEADER_SIZE + CRC_SIZE + ds);
        }
        if k <= HEADER_SIZE + ds {
            assert(s.crc == crc_step(prev.crc, wire[k - 1]));
            let folded = wire.subrange(0, k);
            assert(folded.drop_last() =~= wire.subrange(0, k - 1));
            assert(s.crc == crc_of(folded));
        }
    }
}

/// Feeding a fresh accumulator the wire bytes of a valid message
/// completes a frame that yields exactly that message.
pub proof fn lemma_feed_frame(m: Message)
    requires
        m.valid(),
    ensures
        acc_get(acc_feed(acc_fresh(), m.bytes_spec())) == Some((m.header, m.data@)),
{
    let wire = m.bytes_spec();
    let ds = m.header.data_size as int;
    let total = wire.len() as int;
    lemma_feed_frame_prefix(m, total);
    let s = acc_feed(acc_fresh(), wire.subrange(0, total));
    assert(wire.subrange(0, total) =~= wire);
    assert(s.bytes == wire);
    assert(s.to_read == HEADER_SIZE + CRC_SIZE + ds);
    assert(acc_complete(s));
    let prefix = m.header.bytes_spec() + m.data@;
    assert(wire.subrange(0, HEADER_SIZE + ds) =~= prefix);
    assert(s.crc == crc_of(prefix));
    Message::lemma_parse_encoded(m, Some(s.crc));
}

/// Timeout recovery: whatever partial or corrupt bytes the accumulator
/// holds, once the inter-frame timeout flushes it, the next complete
/// valid frame is delivered unaltered.
pub proof fn lemma_timeout_recovery(s: RecvView, m: Message)
    requires
        m.valid(),
    ensures
        acc_get(acc_feed(acc_flush(s), m.bytes_spec())) == Some((m.header, m.data@)),
{
    lemma_feed_frame(m);
}

} // verus!
