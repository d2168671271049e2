//! Length-delimited framing of the control channel.
//!
//! Each frame is a 4-byte big-endian payload length followed by the payload.
//! [`Socket`] holds the framing state of one connection without doing any
//! I/O itself: the bytes that the transport delivers are handed to it, and the
//! bytes that it produces are written by its owner.

use vstd::prelude::*;

verus! {

/// The largest payload that a frame may carry (the codec's default limit).
pub const MAX_FRAME_LEN: usize = 8 * 1024 * 1024;

/// The four big-endian bytes of `n`.
pub open spec fn be32(n: u32) -> Seq<u8> {
    seq![(n >> 24u32) as u8, (n >> 16u32) as u8, (n >> 8u32) as u8, n as u8]
}

/// The number that four big-endian bytes spell.
pub open spec fn read_be32(b0: u8, b1: u8, b2: u8, b3: u8) -> u32 {
    ((b0 as u32) << 24u32) | ((b1 as u32) << 16u32) | ((b2 as u32) << 8u32) | (b3 as u32)
}

/// The payload length announced by the head of `buf` (which holds at least
/// four bytes).
pub open spec fn announced_len(buf: Seq<u8>) -> nat {
    read_be32(buf[0], buf[1], buf[2], buf[3]) as nat
}

/// The bytes of the frame that carries `payload`.
pub open spec fn frame_bytes(payload: Seq<u8>) -> Seq<u8> {
    be32(payload.len() as u32) + payload
}

/// What the front of a receive buffer holds.
pub enum FrameScan {
    /// Not yet a whole frame.
    Incomplete,
    /// A head that announces more than [`MAX_FRAME_LEN`] bytes.
    TooLong,
    /// A whole frame, with this payload; it takes `4 + payload.len()` bytes.
    Complete(Seq<u8>),
}

pub open spec fn scan(buf: Seq<u8>) -> FrameScan {
    if buf.len() < 4 {
        FrameScan::Incomplete
    } else if announced_len(buf) > MAX_FRAME_LEN {
        FrameScan::TooLong
    } else if buf.len() < 4 + announced_len(buf) {
        FrameScan::Incomplete
    } else {
        FrameScan::Complete(buf.subrange(4, 4 + announced_len(buf) as int))
    }
}

/// The codec's error type, carried opaque.
#[verifier::external_type_specification]
#[verifier::external_body]
pub struct ExIoError(std::io::Error);

/// Relies on `Encoder<&[u8]>::encode` of tokio_util's `LengthDelimitedCodec`
/// with its default settings: it refuses a payload over 8 MiB, and otherwise
/// appends the length as four big-endian bytes and then the payload.
#[verifier::external_body]
fn codec_encode(payload: &[u8]) -> (r: Result<Vec<u8>, std::io::Error>)
    ensures
        match r {
            Ok(bytes) => payload@.len() <= MAX_FRAME_LEN && bytes@ == frame_bytes(payload@),
            Err(_) => payload@.len() > MAX_FRAME_LEN,
        },
{
    let mut dst = tokio_util::bytes::BytesMut::new();
    let mut codec = tokio_util::codec::LengthDelimitedCodec::new();
    tokio_util::codec::Encoder::<&[u8]>::encode(&mut codec, payload, &mut dst).map(|()| dst.to_vec())
}

/// Relies on `Decoder::decode` of a fresh tokio_util `LengthDelimitedCodec`
/// with its default settings: under four bytes it waits; a head announcing
/// over 8 MiB is an error; it waits until the announced payload is there and
/// then returns it.
#[verifier::external_body]
fn codec_decode(buf: &[u8]) -> (r: Result<Option<Vec<u8>>, std::io::Error>)
    ensures
        match r {
            Ok(Some(payload)) => scan(buf@) == FrameScan::Complete(payload@),
            Ok(None) => scan(buf@) is Incomplete,
            Err(_) => scan(buf@) is TooLong,
        },
{
    let mut src = tokio_util::bytes::BytesMut::from(buf);
    let mut codec = tokio_util::codec::LengthDelimitedCodec::new();
    tokio_util::codec::Decoder::decode(&mut codec, &mut src).map(|f| f.map(|b| b.to_vec()))
}

/// Why a channel cannot go on.
#[derive(Debug, Clone, Copy, PartialEq, Eq, Structural)]
pub enum FrameError {
    /// A frame announces (or a payload has) more than [`MAX_FRAME_LEN`] bytes.
    TooLong,
    /// The stream ended inside a frame.
    Truncated,
}

/// What [`Socket::try_read`] found.
#[derive(Debug, PartialEq)]
pub enum Incoming {
    /// The payload of the next whole frame.
    Frame(Vec<u8>),
    /// No whole frame yet: more bytes are needed from the transport.
    NeedMore,
    /// The stream ended cleanly, between frames.
    Ended,
}

/// The framing state of one duplex connection.
#[derive(Debug)]
pub struct Socket {
    buffer: Vec<u8>,
    ended: bool,
}

/// The bytes that go on the wire for `payload`, or `TooLong`.
pub fn encode_frame(payload: &[u8]) -> (r: Result<Vec<u8>, FrameError>)
    ensures
        payload@.len() <= MAX_FRAME_LEN ==> (r matches Ok(bytes) && bytes@ == frame_bytes(payload@)),
        payload@.len() > MAX_FRAME_LEN ==> r == Err::<Vec<u8>, FrameError>(FrameError::TooLong),
{
    match codec_encode(payload) {
        Ok(bytes) => Ok(bytes),
        Err(_) => Err(FrameError::TooLong),
    }
}

impl Socket {
    /// Received bytes that no frame has taken yet.
    pub closed spec fn pending(&self) -> Seq<u8> {
        self.buffer@
    }

    /// Whether the transport has reported the end of the stream.
    pub closed spec fn ended(&self) -> bool {
        self.ended
    }

    pub fn new() -> (r: Socket)
        ensures
            r.pending() == Seq::<u8>::empty(),
            !r.ended(),
    {
        Socket { buffer: Vec::new(), ended: false }
    }

    /// Takes bytes that the transport delivered, in whatever pieces it chose.
    pub fn receive(&mut self, chunk: Vec<u8>)
        ensures
            final(self).pending() == old(self).pending() + chunk@,
            final(self).ended() == old(self).ended(),
    {
        let mut chunk = chunk;
        self.buffer.append(&mut chunk);
    }

    /// Notes that the transport reached the end of the stream.
    pub fn end(&mut self)
        ensures
            final(self).pending() == old(self).pending(),
            final(self).ended(),
    {
        self.ended = true;
    }

    /// Takes the next whole frame, if the received bytes hold one.
    pub fn try_read(&mut self) -> (r: Result<Incoming, FrameError>)
        ensures
            final(self).ended() == old(self).ended(),
            match scan(old(self).pending()) {
                FrameScan::Complete(payload) => {
                    &&& r matches Ok(Incoming::Frame(f)) && f@ == payload
                    &&& final(self).pending() == old(self).pending().skip(4 + payload.len() as int)
                },
                FrameScan::TooLong => {
                    &&& r == Err::<Incoming, FrameError>(FrameError::TooLong)
                    &&& final(self).pending() == old(self).pending()
                },
                FrameScan::Incomplete => {
                    &&& final(self).pending() == old(self).pending()
                    &&& !old(self).ended() ==> r == Ok::<Incoming, FrameError>(Incoming::NeedMore)
                    &&& old(self).ended() && old(self).pending().len() == 0
                        ==> r == Ok::<Incoming, FrameError>(Incoming::Ended)
                    &&& old(self).ended() && old(self).pending().len() > 0
                        ==> r == Err::<Incoming, FrameError>(FrameError::Truncated)
                },
            },
    {
        match codec_decode(self.buffer.as_slice()) {
            Ok(Some(payload)) => {
                let used = 4 + payload.len();
                self.buffer = self.buffer.split_off(used);
                Ok(Incoming::Frame(payload))
            },
            Ok(None) => {
                if !self.ended {
                    Ok(Incoming::NeedMore)
                } else if self.buffer.len() == 0 {
                    Ok(Incoming::Ended)
                } else {
                    Err(FrameError::Truncated)
                }
            },
            Err(_) => Err(FrameError::TooLong),
        }
    }

    /// The bytes to write to the transport for `payload`.
    pub fn send(&self, payload: &[u8]) -> (r: Result<Vec<u8>, FrameError>)
        ensures
            payload@.len() <= MAX_FRAME_LEN ==> (r matches Ok(bytes) && bytes@ == frame_bytes(payload@)),
            payload@.len() > MAX_FRAME_LEN ==> r == Err::<Vec<u8>, FrameError>(FrameError::TooLong),
    {
        encode_frame(payload)
    }
}

proof fn lemma_be32_round_trip(n: u32)
    ensures
        read_be32((n >> 24u32) as u8, (n >> 16u32) as u8, (n >> 8u32) as u8, n as u8) == n,
{
    assert(((((n >> 24u32) as u8) as u32) << 24u32) | ((((n >> 16u32) as u8) as u32) << 16u32)
        | ((((n >> 8u32) as u8) as u32) << 8u32) | ((n as u8) as u32) == n) by (bit_vector);
}

/// Any buffer that starts with the frame of `payload` announces its length.
proof fn lemma_frame_head(payload: Seq<u8>, buf: Seq<u8>)
    requires
        payload.len() <= MAX_FRAME_LEN,
        buf.len() >= 4,
        buf.subrange(0, 4) == be32(payload.len() as u32),
    ensures
        announced_len(buf) == payload.len(),
{
    let n = payload.len() as u32;
    assert(buf[0] == buf.subrange(0, 4)[0]);
    assert(buf[1] == buf.subrange(0, 4)[1]);
    assert(buf[2] == buf.subrange(0, 4)[2]);
    assert(buf[3] == buf.subrange(0, 4)[3]);
    lemma_be32_round_trip(n);
}

/// Framing round trip: the frame of a payload, followed by anything at all
/// (the next frames), scans as that payload, and the frame takes exactly its
/// own bytes.
pub proof fn lemma_frame_round_trip(payload: Seq<u8>, rest: Seq<u8>)
    requires
        payload.len() <= MAX_FRAME_LEN,
    ensures
        scan(frame_bytes(payload) + rest) == FrameScan::Complete(payload),
        (frame_bytes(payload) + rest).skip(4 + payload.len() as int) == rest,
{
    let buf = frame_bytes(payload) + rest;
    assert(buf.subrange(0, 4) =~= be32(payload.len() as u32));
    lemma_frame_head(payload, buf);
    assert(buf.subrange(4, 4 + payload.len() as int) =~= payload);
    assert(buf.skip(4 + payload.len() as int) =~= rest);
}

/// A proper prefix of a frame is never mistaken for a whole one.
pub proof fn lemma_frame_prefix(payload: Seq<u8>, m: int)
    requires
        payload.len() <= MAX_FRAME_LEN,
        0 <= m < frame_bytes(payload).len(),
    ensures
        scan(frame_bytes(payload).take(m)) is Incomplete,
{
    let buf = frame_bytes(payload).take(m);
    if m >= 4 {
        assert(buf.subrange(0, 4) =~= be32(payload.len() as u32));
        lemma_frame_head(payload, buf);
    }
}

/// Partial-read resilience: however the bytes of one frame are cut into
/// chunks, the bytes received after any number of chunks scan as incomplete
/// until the whole frame is there, and then as the payload.
pub proof fn lemma_chunked_delivery(payload: Seq<u8>, chunks: Seq<Seq<u8>>)
    requires
        payload.len() <= MAX_FRAME_LEN,
        chunks.flatten() == frame_bytes(payload),
    ensures
        forall|k: int|
            0 <= k <= chunks.len() ==> {
                let got = #[trigger] chunks.take(k).flatten();
                if got.len() < frame_bytes(payload).len() {
                    scan(got) is Incomplete
                } else {
                    scan(got) == FrameScan::Complete(payload)
                }
            },
{
    let whole = frame_bytes(payload);
    assert forall|k: int| 0 <= k <= chunks.len() implies {
        let got = #[trigger] chunks.take(k).flatten();
        if got.len() < whole.len() {
            scan(got) is Incomplete
        } else {
            scan(got) == FrameScan::Complete(payload)
        }
    } by {
        lemma_flatten_take_prefix(chunks, k);
        let got = chunks.take(k).flatten();
        if got.len() < whole.len() {
            assert(got =~= whole.take(got.len() as int));
            lemma_frame_prefix(payload, got.len() as int);
        } else {
            assert(got =~= whole + Seq::<u8>::empty());
            lemma_frame_round_trip(payload, Seq::<u8>::empty());
        }
    }
}

/// The chunks delivered so far spell a prefix of all the chunks.
proof fn lemma_flatten_take_prefix(chunks: Seq<Seq<u8>>, k: int)
    requires
        0 <= k <= chunks.len(),
    ensures
        chunks.take(k).flatten().len() <= chunks.flatten().len(),
        chunks.take(k).flatten() == chunks.flatten().take(chunks.take(k).flatten().len() as int),
    decreases chunks.len() - k,
{
    if k == chunks.len() {
        assert(chunks.take(k) =~= chunks);
        assert(chunks.flatten().take(chunks.flatten().len() as int) =~= chunks.flatten());
    } else {
        lemma_flatten_take_prefix(chunks, k + 1);
        assert(chunks.take(k + 1) =~= chunks.take(k).push(chunks[k]));
        chunks.take(k).lemma_flatten_push(chunks[k]);
        let short = chunks.take(k).flatten();
        let long = chunks.take(k + 1).flatten();
        assert(long == short + chunks[k]);
        assert(short =~= long.take(short.len() as int));
        assert(chunks.flatten().take(short.len() as int) =~= chunks.flatten().take(
            long.len() as int,
        ).take(short.len() as int));
    }
}

} // verus!
