//! Framing of control messages on a byte stream.
//!
//! A frame is a 4-byte big-endian header word, an optional 4-byte
//! big-endian transaction word, the message identifier in UTF-8, and the
//! body. The header word holds the body length in bits 0-19, the identifier
//! length in bits 20-25 and the transaction flag in bit 26; bits 27-31 are
//! zero. The transaction word holds the transaction id in bits 0-30 and the
//! "complete" flag in bit 31.
use crate::error::DecodeError;
use vstd::prelude::*;
use vstd::slice::{slice_subrange, slice_to_vec};
use vstd::utf8::*;

verus! {

broadcast use vstd::utf8::group_utf8_lib;

/// Length of the header word.
pub const HEADER_LEN: usize = 4;

/// Length of the transaction word.
pub const TXN_LEN: usize = 4;

/// Largest body that a frame can carry.
pub const MAX_BODY_LEN: usize = 0xF_FFFF;

/// Largest message identifier, in bytes, that a frame can carry.
pub const MAX_MESSAGE_ID_LEN: usize = 0x3F;

/// Largest transaction id.
pub const MAX_TXN_ID: u32 = 0x7FFF_FFFF;

/// Transaction tag of a message: a per-connection counter and a flag that
/// the remote sets on the last reply of a transaction.
#[derive(Clone, Copy, Debug, PartialEq, Eq, Structural)]
pub struct SrvTxn {
    pub id: u32,
    pub complete: bool,
}

impl SrvTxn {
    /// The first transaction of a connection: id 0, not complete.
    pub fn new() -> (r: SrvTxn)
        ensures
            r == (SrvTxn { id: 0, complete: false }),
    {
        SrvTxn { id: 0, complete: false }
    }

    /// Steps to the next transaction id, wrapping after `MAX_TXN_ID`.
    pub fn increment(&mut self)
        ensures
            final(self).id == next_txn_id(old(self).id),
            final(self).complete == false,
    {
        if self.id >= MAX_TXN_ID {
            self.id = 0;
        } else {
            self.id = self.id + 1;
        }
        self.complete = false;
    }
}

/// The transaction id that follows `id`.
pub open spec fn next_txn_id(id: u32) -> u32 {
    if id >= MAX_TXN_ID {
        0
    } else {
        (id + 1) as u32
    }
}

/// One control message: a kind identifier, an optional transaction tag and
/// a body encoded by the message catalog.
#[derive(Debug)]
pub struct SrvMessage {
    pub message_id: String,
    pub transaction: Option<SrvTxn>,
    pub body: Vec<u8>,
}

/// What a message is, as a mathematical value.
pub struct MessageView {
    pub message_id: Seq<char>,
    pub transaction: Option<SrvTxn>,
    pub body: Seq<u8>,
}

impl View for SrvMessage {
    type V = MessageView;

    open spec fn view(&self) -> MessageView {
        MessageView {
            message_id: self.message_id@,
            transaction: self.transaction,
            body: self.body@,
        }
    }
}

impl MessageView {
    /// The message fits in a frame.
    pub open spec fn valid(self) -> bool {
        &&& 1 <= encode_utf8(self.message_id).len() <= MAX_MESSAGE_ID_LEN
        &&& self.body.len() <= MAX_BODY_LEN
        &&& (self.transaction matches Some(t) ==> t.id <= MAX_TXN_ID)
    }
}

/// The four bytes of `v`, most significant first.
pub open spec fn be_bytes(v: u32) -> Seq<u8> {
    seq![
        ((v >> 24u32) & 0xffu32) as u8,
        ((v >> 16u32) & 0xffu32) as u8,
        ((v >> 8u32) & 0xffu32) as u8,
        (v & 0xffu32) as u8,
    ]
}

/// The word held big-endian in the first four bytes of `b`.
pub open spec fn be_word(b: Seq<u8>) -> u32 {
    ((b[0] as u32) << 24u32) | ((b[1] as u32) << 16u32) | ((b[2] as u32) << 8u32) | (b[3] as u32)
}

/// The header word of a frame.
pub open spec fn header_word(body_len: u32, id_len: u32, has_txn: bool) -> u32 {
    body_len | (id_len << 20u32) | ((if has_txn { 1u32 } else { 0u32 }) << 26u32)
}

pub open spec fn header_body_len(h: u32) -> u32 {
    h & 0xF_FFFFu32
}

pub open spec fn header_id_len(h: u32) -> u32 {
    (h >> 20u32) & 0x3Fu32
}

pub open spec fn header_has_txn(h: u32) -> bool {
    (h >> 26u32) & 1u32 == 1u32
}

pub open spec fn header_reserved(h: u32) -> u32 {
    h >> 27u32
}

/// The transaction word of a frame.
pub open spec fn txn_word(t: SrvTxn) -> u32 {
    t.id | ((if t.complete { 1u32 } else { 0u32 }) << 31u32)
}

/// The transaction tag that a transaction word holds.
pub open spec fn txn_of_word(w: u32) -> SrvTxn {
    SrvTxn { id: w & 0x7FFF_FFFFu32, complete: (w >> 31u32) == 1u32 }
}

/// The frame that carries `m`.
pub open spec fn frame_of(m: MessageView) -> Seq<u8> {
    let id = encode_utf8(m.message_id);
    let txn = match m.transaction {
        Some(t) => be_bytes(txn_word(t)),
        None => Seq::empty(),
    };
    be_bytes(header_word(m.body.len() as u32, id.len() as u32, m.transaction is Some)) + txn + id
        + m.body
}

/// What the start of a byte stream holds.
pub enum FrameParse {
    /// The bytes are a proper prefix of a frame: more must arrive.
    Incomplete,
    /// The bytes cannot start a frame.
    Malformed(DecodeError),
    /// A frame carrying the message, and its length.
    Complete(MessageView, int),
}

/// The frame at the start of `b`.
pub open spec fn parse_frame(b: Seq<u8>) -> FrameParse {
    if b.len() < HEADER_LEN {
        FrameParse::Incomplete
    } else {
        let h = be_word(b);
        if header_reserved(h) != 0 {
            FrameParse::Malformed(DecodeError::ReservedBits)
        } else if header_id_len(h) == 0 {
            FrameParse::Malformed(DecodeError::EmptyMessageId)
        } else {
            let has_txn = header_has_txn(h);
            let id_start: int = if has_txn { 8 } else { 4 };
            let id_end = id_start + header_id_len(h);
            let total = id_end + header_body_len(h);
            if b.len() < total {
                FrameParse::Incomplete
            } else {
                let id = b.subrange(id_start, id_end);
                if !valid_utf8(id) {
                    FrameParse::Malformed(DecodeError::InvalidMessageId)
                } else {
                    FrameParse::Complete(
                        MessageView {
                            message_id: decode_utf8(id),
                            transaction: if has_txn {
                                Some(txn_of_word(be_word(b.subrange(4, 8))))
                            } else {
                                None
                            },
                            body: b.subrange(id_end, total),
                        },
                        total,
                    )
                }
            }
        }
    }
}

proof fn lemma_be_round_trip(v: u32)
    ensures
        be_word(be_bytes(v)) == v,
{
    let b0 = ((v >> 24u32) & 0xffu32) as u8;
    let b1 = ((v >> 16u32) & 0xffu32) as u8;
    let b2 = ((v >> 8u32) & 0xffu32) as u8;
    let b3 = (v & 0xffu32) as u8;
    assert(((b0 as u32) << 24u32) | ((b1 as u32) << 16u32) | ((b2 as u32) << 8u32) | (b3 as u32)
        == v) by (bit_vector)
        requires
            b0 == ((v >> 24u32) & 0xffu32) as u8,
            b1 == ((v >> 16u32) & 0xffu32) as u8,
            b2 == ((v >> 8u32) & 0xffu32) as u8,
            b3 == (v & 0xffu32) as u8,
    ;
}

proof fn lemma_header_fields(body_len: u32, id_len: u32, has_txn: bool)
    requires
        body_len <= 0xF_FFFF,
        id_len <= 0x3F,
    ensures
        header_body_len(header_word(body_len, id_len, has_txn)) == body_len,
        header_id_len(header_word(body_len, id_len, has_txn)) == id_len,
        header_has_txn(header_word(body_len, id_len, has_txn)) == has_txn,
        header_reserved(header_word(body_len, id_len, has_txn)) == 0,
{
    let t: u32 = if has_txn { 1u32 } else { 0u32 };
    assert({
        let h = body_len | (id_len << 20u32) | (t << 26u32);
        &&& h & 0xF_FFFFu32 == body_len
        &&& (h >> 20u32) & 0x3Fu32 == id_len
        &&& (h >> 26u32) & 1u32 == t
        &&& h >> 27u32 == 0
    }) by (bit_vector)
        requires
            body_len <= 0xF_FFFFu32,
            id_len <= 0x3Fu32,
            t <= 1u32,
    ;
}

proof fn lemma_txn_fields(t: SrvTxn)
    requires
        t.id <= MAX_TXN_ID,
    ensures
        txn_of_word(txn_word(t)) == t,
{
    let c: u32 = if t.complete { 1u32 } else { 0u32 };
    let id = t.id;
    assert({
        let w = id | (c << 31u32);
        &&& w & 0x7FFF_FFFFu32 == id
        &&& (w >> 31u32) == c
    }) by (bit_vector)
        requires
            id <= 0x7FFF_FFFFu32,
            c <= 1u32,
    ;
}

proof fn lemma_word_prefix(b: Seq<u8>, v: u32)
    requires
        b.len() >= 4,
        b.take(4) == be_bytes(v),
    ensures
        be_word(b) == v,
{
    lemma_be_round_trip(v);
    assert(b[0] == be_bytes(v)[0] && b[1] == be_bytes(v)[1]);
    assert(b[2] == be_bytes(v)[2] && b[3] == be_bytes(v)[3]);
}

/// The start of the stream `frame_of(m) + rest`, the first `fed` bytes of it.
proof fn lemma_frame_header(m: MessageView, rest: Seq<u8>, fed: int)
    requires
        m.valid(),
        HEADER_LEN <= fed <= frame_of(m).len() + rest.len(),
    ensures
        ({
            let b = (frame_of(m) + rest).take(fed);
            let h = be_word(b);
            &&& header_reserved(h) == 0
            &&& header_id_len(h) == encode_utf8(m.message_id).len()
            &&& header_body_len(h) == m.body.len()
            &&& header_has_txn(h) == (m.transaction is Some)
        }),
{
    let id = encode_utf8(m.message_id);
    let hw = header_word(m.body.len() as u32, id.len() as u32, m.transaction is Some);
    let b = (frame_of(m) + rest).take(fed);
    assert(b.take(4) =~= be_bytes(hw));
    lemma_word_prefix(b, hw);
    lemma_header_fields(m.body.len() as u32, id.len() as u32, m.transaction is Some);
}

/// Decoding a frame gives back the message it was made from, whatever
/// bytes follow it on the stream.
pub proof fn lemma_frame_round_trip(m: MessageView, rest: Seq<u8>)
    requires
        m.valid(),
    ensures
        parse_frame(frame_of(m) + rest) == FrameParse::Complete(m, frame_of(m).len() as int),
{
    let f = frame_of(m);
    let b = f + rest;
    let id = encode_utf8(m.message_id);
    lemma_frame_header(m, rest, b.len() as int);
    assert(b.take(b.len() as int) =~= b);
    let txn = match m.transaction {
        Some(t) => be_bytes(txn_word(t)),
        None => Seq::<u8>::empty(),
    };
    let id_start: int = if m.transaction is Some { 8 } else { 4 };
    assert(f =~= be_bytes(header_word(m.body.len() as u32, id.len() as u32, m.transaction is Some))
        + txn + id + m.body);
    assert(b.subrange(id_start, id_start + id.len()) =~= id);
    assert(b.subrange(id_start + id.len(), id_start + id.len() + m.body.len()) =~= m.body);
    encode_utf8_valid_utf8(m.message_id);
    encode_utf8_decode_utf8(m.message_id);
    if let Some(t) = m.transaction {
        assert(b.subrange(4, 8) =~= be_bytes(txn_word(t)));
        assert(b.subrange(4, 8).take(4) =~= be_bytes(txn_word(t)));
        lemma_word_prefix(b.subrange(4, 8), txn_word(t));
        lemma_txn_fields(t);
    }
    assert(f.len() == id_start + id.len() + m.body.len());
}

/// Any proper prefix of a frame asks for more bytes.
pub proof fn lemma_frame_prefix_incomplete(m: MessageView, fed: int)
    requires
        m.valid(),
        0 <= fed < frame_of(m).len(),
    ensures
        parse_frame(frame_of(m).take(fed)) == FrameParse::Incomplete,
{
    if fed >= HEADER_LEN {
        let f = frame_of(m);
        let id = encode_utf8(m.message_id);
        lemma_frame_header(m, Seq::empty(), fed);
        assert(f + Seq::<u8>::empty() =~= f);
        let txn = match m.transaction {
            Some(t) => be_bytes(txn_word(t)),
            None => Seq::<u8>::empty(),
        };
        assert(f =~= be_bytes(header_word(m.body.len() as u32, id.len() as u32, m.transaction is Some))
            + txn + id + m.body);
    }
}

/// However the bytes of a stream that starts with the frame of `m` are cut
/// into chunks, a decoder that has seen the first `fed` of them finds
/// nothing yet while `fed` is short of the frame, and exactly `m`, with the
/// frame's length, from then on.
pub proof fn lemma_decode_any_split(m: MessageView, rest: Seq<u8>, fed: int)
    requires
        m.valid(),
        0 <= fed <= frame_of(m).len() + rest.len(),
    ensures
        fed < frame_of(m).len() ==> parse_frame((frame_of(m) + rest).take(fed))
            == FrameParse::Incomplete,
        fed >= frame_of(m).len() ==> parse_frame((frame_of(m) + rest).take(fed))
            == FrameParse::Complete(m, frame_of(m).len() as int),
{
    let f = frame_of(m);
    if fed < f.len() {
        assert((f + rest).take(fed) =~= f.take(fed));
        lemma_frame_prefix_incomplete(m, fed);
    } else {
        let r = rest.take(fed - f.len());
        assert((f + rest).take(fed) =~= f + r);
        lemma_frame_round_trip(m, r);
    }
}

/// Relies on `String::from_utf8`: it accepts exactly the well-formed UTF-8
/// byte strings and keeps the characters they encode.
#[verifier::external_body]
fn string_from_utf8(bytes: Vec<u8>) -> (r: Option<String>)
    ensures
        r is Some <==> valid_utf8(bytes@),
        r matches Some(s) ==> s@ == decode_utf8(bytes@),
{
    String::from_utf8(bytes).ok()
}

fn push_word(dst: &mut Vec<u8>, v: u32)
    ensures
        final(dst)@ == old(dst)@ + be_bytes(v),
{
    dst.push(((v >> 24u32) & 0xffu32) as u8);
    dst.push(((v >> 16u32) & 0xffu32) as u8);
    dst.push(((v >> 8u32) & 0xffu32) as u8);
    dst.push((v & 0xffu32) as u8);
    assert(final(dst)@ =~= old(dst)@ + be_bytes(v));
}

fn push_bytes(dst: &mut Vec<u8>, src: &[u8])
    ensures
        final(dst)@ == old(dst)@ + src@,
{
    let ghost start = dst@;
    let mut i: usize = 0;
    while i < src.len()
        invariant
            i <= src@.len(),
            dst@ == start + src@.take(i as int),
        decreases src@.len() - i,
    {
        dst.push(src[i]);
        i = i + 1;
        assert(dst@ =~= start + src@.take(i as int));
    }
    assert(src@.take(i as int) =~= src@);
}

fn read_word(src: &[u8], at: usize) -> (r: u32)
    requires
        at + 4 <= src@.len(),
    ensures
        r == be_word(src@.subrange(at as int, at + 4)),
{
    ((src[at] as u32) << 24u32) | ((src[at + 1] as u32) << 16u32) | ((src[at + 2] as u32) << 8u32)
        | (src[at + 3] as u32)
}

impl SrvMessage {
    /// Whether the message fits in a frame.
    pub fn is_valid(&self) -> (r: bool)
        ensures
            r == self@.valid(),
    {
        let id_len = self.message_id.as_str().as_bytes().len();
        let txn_ok = match self.transaction {
            Some(t) => t.id <= MAX_TXN_ID,
            None => true,
        };
        1 <= id_len && id_len <= MAX_MESSAGE_ID_LEN && self.body.len() <= MAX_BODY_LEN && txn_ok
    }
}

/// Appends the frame of `msg` to `dst`.
pub fn encode(msg: &SrvMessage, dst: &mut Vec<u8>)
    requires
        msg@.valid(),
    ensures
        final(dst)@ == old(dst)@ + frame_of(msg@),
{
    let id = msg.message_id.as_str().as_bytes();
    let id_len = id.len() as u32;
    let body_len = msg.body.len() as u32;
    let flag: u32 = if msg.transaction.is_some() {
        1
    } else {
        0
    };
    let ghost start = dst@;
    push_word(dst, body_len | (id_len << 20u32) | (flag << 26u32));
    let ghost txn_bytes = match msg.transaction {
        Some(t) => be_bytes(txn_word(t)),
        None => Seq::<u8>::empty(),
    };
    match msg.transaction {
        Some(t) => {
            let c: u32 = if t.complete {
                1
            } else {
                0
            };
            push_word(dst, t.id | (c << 31u32));
        },
        None => {
            assert(dst@ =~= dst@ + txn_bytes);
        },
    }
    push_bytes(dst, id);
    push_bytes(dst, msg.body.as_slice());
    assert(dst@ =~= start + frame_of(msg@));
}

/// Reads the frame at the start of `src`: `Ok(None)` while the bytes are a
/// proper prefix of a frame, the message and the frame's length once the
/// whole frame is there, and the reason when the bytes cannot start a frame.
pub fn decode(src: &[u8]) -> (r: Result<Option<(SrvMessage, usize)>, DecodeError>)
    ensures
        match parse_frame(src@) {
            FrameParse::Incomplete => r == Ok::<Option<(SrvMessage, usize)>, DecodeError>(None),
            FrameParse::Malformed(e) => r == Err::<Option<(SrvMessage, usize)>, DecodeError>(e),
            FrameParse::Complete(m, n) => r matches Ok(Some((msg, k))) && msg@ == m && k == n,
        },
{
    if src.len() < HEADER_LEN {
        return Ok(None);
    }
    let h = read_word(src, 0);
    assert(be_word(src@.subrange(0, 4)) == be_word(src@));
    if h >> 27u32 != 0 {
        return Err(DecodeError::ReservedBits);
    }
    let id_len = ((h >> 20u32) & 0x3Fu32) as usize;
    if id_len == 0 {
        return Err(DecodeError::EmptyMessageId);
    }
    assert((h >> 20u32) & 0x3Fu32 <= 0x3F) by (bit_vector);
    assert(h & 0xF_FFFFu32 <= 0xF_FFFF) by (bit_vector);
    let body_len = (h & 0xF_FFFFu32) as usize;
    let has_txn = (h >> 26u32) & 1u32 == 1u32;
    let id_start: usize = if has_txn {
        8
    } else {
        4
    };
    let id_end = id_start + id_len;
    let total = id_end + body_len;
    if src.len() < total {
        return Ok(None);
    }
    let id_bytes = slice_to_vec(slice_subrange(src, id_start, id_end));
    let message_id = match string_from_utf8(id_bytes) {
        Some(s) => s,
        None => {
            return Err(DecodeError::InvalidMessageId);
        },
    };
    let transaction = if has_txn {
        let w = read_word(src, 4);
        Some(SrvTxn { id: w & 0x7FFF_FFFFu32, complete: (w >> 31u32) == 1u32 })
    } else {
        None
    };
    let body = slice_to_vec(slice_subrange(src, id_end, total));
    Ok(Some((SrvMessage { message_id, transaction, body }, total)))
}

/// Decoder state of one connection: the bytes received and not yet taken
/// as a whole frame.
pub struct SrvCodec {
    buf: Vec<u8>,
}

impl SrvCodec {
    /// The bytes received and not yet decoded.
    pub closed spec fn pending(&self) -> Seq<u8> {
        self.buf@
    }

    pub fn new() -> (r: SrvCodec)
        ensures
            r.pending() == Seq::<u8>::empty(),
    {
        SrvCodec { buf: Vec::new() }
    }

    /// Takes in the next bytes of the stream, whatever their number.
    pub fn feed(&mut self, chunk: &[u8])
        ensures
            final(self).pending() == old(self).pending() + chunk@,
    {
        push_bytes(&mut self.buf, chunk);
    }

    /// Whether the stream may end here: only where no part of a frame is
    /// pending. A stream that ends inside a frame is truncated.
    pub fn end_of_stream(&self) -> (r: Result<(), DecodeError>)
        ensures
            self.pending().len() == 0 ==> r is Ok,
            self.pending().len() > 0 ==> r == Err::<(), DecodeError>(DecodeError::Truncated),
    {
        if self.buf.len() == 0 {
            Ok(())
        } else {
            Err(DecodeError::Truncated)
        }
    }

    /// Takes the next whole message off the pending bytes. Incomplete
    /// frames stay pending; a malformed one is reported and left in place.
    pub fn next_message(&mut self) -> (r: Result<Option<SrvMessage>, DecodeError>)
        ensures
            match parse_frame(old(self).pending()) {
                FrameParse::Incomplete => r == Ok::<Option<SrvMessage>, DecodeError>(None)
                    && final(self).pending() == old(self).pending(),
                FrameParse::Malformed(e) => r == Err::<Option<SrvMessage>, DecodeError>(e)
                    && final(self).pending() == old(self).pending(),
                FrameParse::Complete(m, n) => r matches Ok(Some(msg)) && msg@ == m
                    && final(self).pending() == old(self).pending().skip(n),
            },
    {
        match decode(self.buf.as_slice()) {
            Ok(Some((msg, n))) => {
                let rest = self.buf.split_off(n);
                self.buf = rest;
                Ok(Some(msg))
            },
            Ok(None) => Ok(None),
            Err(e) => Err(e),
        }
    }
}

} // verus!
