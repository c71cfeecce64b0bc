//! Length-prefixed framing: each message is a four-byte big-endian length
//! followed by that many payload bytes, at most `MAX_FRAME_LEN` of them.

use bytes::BytesMut;
use tokio_util::codec::{Decoder, Encoder, LengthDelimitedCodec};
use vstd::prelude::*;

verus! {

/// std's `io::Error`, the error type of tokio_util's codec; only told apart from success.
#[verifier::external_type_specification]
#[verifier::external_body]
pub struct ExIoError(std::io::Error);

/// The largest payload a frame may carry: 100 MiB.
pub const MAX_FRAME_LEN: usize = 104857600;

/// The four bytes that encode `n` in big-endian order.
pub open spec fn be32(n: u32) -> Seq<u8> {
    seq![
        #[verifier::truncate] ((n >> 24u32) as u8),
        #[verifier::truncate] ((n >> 16u32) as u8),
        #[verifier::truncate] ((n >> 8u32) as u8),
        #[verifier::truncate] (n as u8),
    ]
}

/// The length that the first four bytes of `b` declare, read big-endian.
pub open spec fn declared_len(b: Seq<u8>) -> nat
    recommends
        b.len() >= 4,
{
    (b[0] as nat) * 16777216 + (b[1] as nat) * 65536 + (b[2] as nat) * 256 + (b[3] as nat)
}

/// `b` holds a whole header that declares more than `max` payload bytes.
pub open spec fn header_over(b: Seq<u8>, max: nat) -> bool {
    b.len() >= 4 && declared_len(b) > max
}

/// `b` holds less than one whole frame whose header is within `max`.
pub open spec fn frame_incomplete(b: Seq<u8>, max: nat) -> bool {
    b.len() < 4 || (declared_len(b) <= max && b.len() < 4 + declared_len(b))
}

/// The payload of the frame at the start of `b`.
pub open spec fn first_payload(b: Seq<u8>) -> Seq<u8> {
    b.subrange(4, 4 + declared_len(b) as int)
}

/// What is left of `b` after the frame at its start.
pub open spec fn after_first(b: Seq<u8>) -> Seq<u8> {
    b.subrange(4 + declared_len(b) as int, b.len() as int)
}

/// The frame that carries `payload`.
pub open spec fn frame_of(payload: Seq<u8>) -> Seq<u8> {
    be32(payload.len() as u32) + payload
}

/// Relies on tokio_util's `LengthDelimitedCodec::encode` for a codec built with
/// `max_frame_length(max)` and the default layout (a four-byte big-endian
/// length, no offset, no adjustment): a payload longer than `max` is refused,
/// any other is written as its length followed by its bytes.
#[verifier::external_body]
fn codec_encode(payload: &[u8], max: usize) -> (r: Result<Vec<u8>, std::io::Error>)
    requires
        max <= u32::MAX,
    ensures
        r is Ok <==> payload@.len() <= max,
        r matches Ok(f) ==> f@ == frame_of(payload@),
{
    let mut codec = LengthDelimitedCodec::builder().max_frame_length(max).new_codec();
    let mut dst = BytesMut::new();
    match codec.encode(payload, &mut dst) {
        Ok(()) => Ok(dst.to_vec()),
        Err(e) => Err(e),
    }
}

/// Relies on tokio_util's `LengthDelimitedCodec::decode` for a fresh codec built
/// with `max_frame_length(max)` and the default layout: with fewer than four
/// bytes it asks for more; a declared length over `max` is an error before any
/// payload byte is looked at; with fewer payload bytes than declared it asks for
/// more; otherwise it returns the declared number of bytes after the header.
#[verifier::external_body]
fn codec_decode(buf: &[u8], max: usize) -> (r: Result<Option<Vec<u8>>, std::io::Error>)
    requires
        max <= u32::MAX,
    ensures
        r is Err <==> header_over(buf@, max as nat),
        r matches Ok(None) <==> frame_incomplete(buf@, max as nat),
        r matches Ok(Some(p)) ==> p@ == first_payload(buf@),
{
    let mut codec = LengthDelimitedCodec::builder().max_frame_length(max).new_codec();
    let mut src = BytesMut::from(buf);
    match codec.decode(&mut src) {
        Ok(Some(payload)) => Ok(Some(payload.to_vec())),
        Ok(None) => Ok(None),
        Err(e) => Err(e),
    }
}

/// Why a frame could not be written or read.
#[derive(Debug, Clone, Copy, PartialEq, Eq, Structural)]
pub enum FrameError {
    /// The payload, or the length a header declares, is over `MAX_FRAME_LEN`.
    TooLarge,
}

/// Builds the frame that carries `payload`.
pub fn encode_frame(payload: &[u8]) -> (r: Result<Vec<u8>, FrameError>)
    ensures
        r is Ok <==> payload@.len() <= MAX_FRAME_LEN,
        r matches Ok(f) ==> f@ == frame_of(payload@),
        r matches Err(e) ==> e == FrameError::TooLarge,
{
    match codec_encode(payload, MAX_FRAME_LEN) {
        Ok(f) => Ok(f),
        Err(_) => Err(FrameError::TooLarge),
    }
}

/// The length that the first four bytes of `b` declare.
fn header_value(b: &Vec<u8>) -> (r: u64)
    requires
        b@.len() >= 4,
    ensures
        r as nat == declared_len(b@),
{
    (b[0] as u64) * 16777216 + (b[1] as u64) * 65536 + (b[2] as u64) * 256 + (b[3] as u64)
}

/// The bytes received so far that no frame has been taken from yet.
pub struct FrameReader {
    buf: Vec<u8>,
}

impl View for FrameReader {
    type V = Seq<u8>;

    closed spec fn view(&self) -> Seq<u8> {
        self.buf@
    }
}

impl FrameReader {
    /// A reader that holds no bytes.
    pub fn new() -> (r: FrameReader)
        ensures
            r@ == Seq::<u8>::empty(),
    {
        FrameReader { buf: Vec::new() }
    }

    /// Appends bytes that arrived from the transport.
    pub fn push(&mut self, bytes: &[u8])
        ensures
            final(self)@ == old(self)@ + bytes@,
    {
        let mut i: usize = 0;
        while i < bytes.len()
            invariant
                i <= bytes@.len(),
                self@ == old(self)@ + bytes@.subrange(0, i as int),
            decreases bytes@.len() - i,
        {
            self.buf.push(bytes[i]);
            i = i + 1;
            assert(bytes@.subrange(0, i as int) == bytes@.subrange(0, i - 1) + seq![bytes@[i - 1]]);
        }
        assert(bytes@.subrange(0, i as int) == bytes@);
    }

    /// Whether no byte is held.
    pub fn is_empty(&self) -> (r: bool)
        ensures
            r <==> self@.len() == 0,
    {
        self.buf.len() == 0
    }

    /// Takes the frame at the start of the held bytes, if a whole one is there.
    /// A header that declares more than `MAX_FRAME_LEN` bytes is refused as soon
    /// as its four bytes are in, before any payload is read.
    pub fn next_frame(&mut self) -> (r: Result<Option<Vec<u8>>, FrameError>)
        ensures
            r is Err <==> header_over(old(self)@, MAX_FRAME_LEN as nat),
            r matches Err(e) ==> e == FrameError::TooLarge,
            r matches Ok(None) <==> frame_incomplete(old(self)@, MAX_FRAME_LEN as nat),
            r matches Ok(Some(p)) ==> p@ == first_payload(old(self)@),
            r matches Ok(Some(_)) ==> final(self)@ == after_first(old(self)@),
            !(r matches Ok(Some(_))) ==> final(self)@ == old(self)@,
    {
        let len = self.buf.len();
        if len < 4 {
            return Ok(None);
        }
        let declared = header_value(&self.buf);
        let end: usize = if declared > MAX_FRAME_LEN as u64 {
            4
        } else if (len as u64) < 4 + declared {
            return Ok(None);
        } else {
            4 + declared as usize
        };
        // Only the frame itself, or the oversized header, goes to the codec.
        let head = vstd::slice::slice_subrange(self.buf.as_slice(), 0, end);
        assert(declared_len(head@) == declared_len(self@));
        match codec_decode(head, MAX_FRAME_LEN) {
            Err(_) => Err(FrameError::TooLarge),
            Ok(None) => Ok(None),
            Ok(Some(p)) => {
                assert(first_payload(head@) == first_payload(self@));
                let rest = self.buf.split_off(end);
                self.buf = rest;
                Ok(Some(p))
            },
        }
    }
}

proof fn lemma_be32_value(n: u32)
    ensures
        declared_len(be32(n)) == n as nat,
{
    assert((#[verifier::truncate] ((n >> 24u32) as u8)) as u64 * 16777216u64 + (
    #[verifier::truncate] ((n >> 16u32) as u8)) as u64 * 65536u64 + (#[verifier::truncate] ((n
        >> 8u32) as u8)) as u64 * 256u64 + (#[verifier::truncate] (n as u8)) as u64 == n as u64)
        by (bit_vector);
}

/// A frame built for a payload within the limit reads back as exactly that
/// payload, whatever bytes follow it on the stream.
pub proof fn lemma_frame_round_trip(payload: Seq<u8>, rest: Seq<u8>)
    requires
        payload.len() <= MAX_FRAME_LEN,
    ensures
        !header_over(frame_of(payload) + rest, MAX_FRAME_LEN as nat),
        !frame_incomplete(frame_of(payload) + rest, MAX_FRAME_LEN as nat),
        first_payload(frame_of(payload) + rest) == payload,
        after_first(frame_of(payload) + rest) == rest,
{
    let b = frame_of(payload) + rest;
    lemma_be32_value(payload.len() as u32);
    assert(declared_len(b) == declared_len(be32(payload.len() as u32)));
    assert(first_payload(b) == payload);
    assert(after_first(b) == rest);
}

} // verus!
