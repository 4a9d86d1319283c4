//! Length-prefixed framing of protocol messages: a frame is a 4-byte big-endian
//! payload length followed by the payload (a MessagePack-encoded message).
use bytes::BufMut;
use bytes::BytesMut;
use vstd::prelude::*;

verus! {

/// Largest payload a frame may carry (2 MiB).
pub const MAX_FRAME_SIZE: usize = 2 * 1024 * 1024;

/// Length of the frame header (a big-endian `u32` payload length).
pub const HEADER_LEN: usize = 4;

#[verifier::external_type_specification]
#[verifier::external_body]
pub struct ExBytesMut(BytesMut);

/// The bytes that a `BytesMut` buffer currently holds.
pub uninterp spec fn buffer_contents(b: BytesMut) -> Seq<u8>;

/// `BytesMut::len`: the number of bytes the buffer holds.
#[verifier::external_body]
fn buffer_len(b: &BytesMut) -> (n: usize)
    ensures
        n == buffer_contents(*b).len(),
{
    b.len()
}

/// Indexing a `BytesMut` (through its `Deref` to `[u8]`).
#[verifier::external_body]
fn buffer_byte(b: &BytesMut, i: usize) -> (v: u8)
    requires
        i < buffer_contents(*b).len(),
    ensures
        v == buffer_contents(*b)[i as int],
{
    b[i]
}

/// `BytesMut::split_to`: removes the first `at` bytes and hands them back.
#[verifier::external_body]
fn buffer_split_to(b: &mut BytesMut, at: usize) -> (front: Vec<u8>)
    requires
        at <= buffer_contents(*old(b)).len(),
    ensures
        front@ == buffer_contents(*old(b)).subrange(0, at as int),
        buffer_contents(*final(b)) == buffer_contents(*old(b)).subrange(
            at as int,
            buffer_contents(*old(b)).len() as int,
        ),
{
    b.split_to(at).to_vec()
}

/// `BytesMut::reserve`: grows the capacity; the contents stay as they are.
#[verifier::external_body]
fn buffer_reserve(b: &mut BytesMut, additional: usize)
    requires
        buffer_contents(*old(b)).len() + additional <= isize::MAX,
    ensures
        buffer_contents(*final(b)) == buffer_contents(*old(b)),
{
    b.reserve(additional)
}

/// `BufMut::put_u32` on a `BytesMut`: appends `n` in big-endian byte order.
#[verifier::external_body]
fn buffer_put_u32(b: &mut BytesMut, n: u32)
    requires
        buffer_contents(*old(b)).len() + 4 <= isize::MAX,
    ensures
        buffer_contents(*final(b)) == buffer_contents(*old(b)) + u32_be_bytes(n as int),
{
    b.put_u32(n)
}

/// `BufMut::put_slice` on a `BytesMut`: appends the bytes of `s`.
#[verifier::external_body]
fn buffer_put_slice(b: &mut BytesMut, s: &[u8])
    requires
        buffer_contents(*old(b)).len() + s@.len() <= isize::MAX,
    ensures
        buffer_contents(*final(b)) == buffer_contents(*old(b)) + s@,
{
    b.put_slice(s)
}

/// The four big-endian bytes of a number below 2^32.
pub open spec fn u32_be_bytes(n: int) -> Seq<u8> {
    seq![
        (n / 0x100_0000) as u8,
        ((n / 0x1_0000) % 0x100) as u8,
        ((n / 0x100) % 0x100) as u8,
        (n % 0x100) as u8,
    ]
}

/// The payload length a buffer's header declares (its first four bytes, big-endian).
pub open spec fn declared_len(buf: Seq<u8>) -> int {
    buf[0] * 0x100_0000 + buf[1] * 0x1_0000 + buf[2] * 0x100 + buf[3]
}

/// A whole frame: the header declaring the payload's length, then the payload.
pub open spec fn frame_bytes(payload: Seq<u8>) -> Seq<u8> {
    u32_be_bytes(payload.len() as int) + payload
}

/// The buffer does not yet hold a whole frame, and what it holds is not oversized.
pub open spec fn frame_incomplete(buf: Seq<u8>) -> bool {
    buf.len() < HEADER_LEN || (declared_len(buf) <= MAX_FRAME_SIZE && buf.len() < HEADER_LEN
        + declared_len(buf))
}

/// The buffer's header declares a payload above the limit.
pub open spec fn frame_oversized(buf: Seq<u8>) -> bool {
    buf.len() >= HEADER_LEN && declared_len(buf) > MAX_FRAME_SIZE
}

/// The buffer starts with a whole frame within the limit.
pub open spec fn frame_complete(buf: Seq<u8>) -> bool {
    buf.len() >= HEADER_LEN && declared_len(buf) <= MAX_FRAME_SIZE && buf.len() >= HEADER_LEN
        + declared_len(buf)
}

/// The payload of the frame at the start of a buffer.
pub open spec fn frame_payload(buf: Seq<u8>) -> Seq<u8> {
    buf.subrange(HEADER_LEN as int, HEADER_LEN + declared_len(buf))
}

/// What follows the frame at the start of a buffer.
pub open spec fn after_frame(buf: Seq<u8>) -> Seq<u8> {
    buf.subrange(HEADER_LEN + declared_len(buf), buf.len() as int)
}

/// Errors of the framing layer.
#[derive(Debug)]
pub enum CodecError {
    /// A frame's payload is longer than `MAX_FRAME_SIZE`; the length is given.
    FrameTooLarge(usize),
    /// The message could not be encoded to MessagePack.
    Encode(String),
    /// The payload could not be decoded from MessagePack.
    Decode(String),
    /// The transport failed.
    Io(String),
}

/// Splits a byte stream into frames and writes frames into it.
#[derive(Debug, Default, Clone, Copy)]
pub struct FrameCodec;

impl FrameCodec {
    /// Takes the next whole frame off the front of `src` and returns its payload.
    /// Returns `Ok(None)` and leaves `src` as it is while the frame is incomplete;
    /// fails, leaving `src` as it is, when the header declares more than `MAX_FRAME_SIZE`.
    pub fn decode(&mut self, src: &mut BytesMut) -> (res: Result<Option<Vec<u8>>, CodecError>)
        ensures
            ({
                let before = buffer_contents(*old(src));
                let after = buffer_contents(*final(src));
                match res {
                    Ok(None) => frame_incomplete(before) && after == before,
                    Ok(Some(payload)) => frame_complete(before) && payload@ == frame_payload(before)
                        && after == after_frame(before),
                    Err(CodecError::FrameTooLarge(n)) => frame_oversized(before) && n
                        == declared_len(before) && after == before,
                    Err(_) => false,
                }
            }),
    {
        let len = buffer_len(src);
        if len < HEADER_LEN {
            return Ok(None);
        }
        let b0 = buffer_byte(src, 0);
        let b1 = buffer_byte(src, 1);
        let b2 = buffer_byte(src, 2);
        let b3 = buffer_byte(src, 3);
        let declared: u32 = (b0 as u32) * 0x100_0000 + (b1 as u32) * 0x1_0000 + (b2 as u32) * 0x100
            + (b3 as u32);
        let frame_len = declared as usize;
        if frame_len > MAX_FRAME_SIZE {
            return Err(CodecError::FrameTooLarge(frame_len));
        }
        if len < HEADER_LEN + frame_len {
            buffer_reserve(src, HEADER_LEN + frame_len - len);
            return Ok(None);
        }
        let _ = buffer_split_to(src, HEADER_LEN);
        let data = buffer_split_to(src, frame_len);
        proof {
            let before = buffer_contents(*old(src));
            assert(data@ =~= frame_payload(before));
            assert(buffer_contents(*src) =~= after_frame(before));
        }
        Ok(Some(data))
    }

    /// Whether `dst` has room for any frame `encode` may append (its length plus the
    /// header and the largest payload fits in an `isize`).
    pub fn can_encode(dst: &BytesMut) -> (ok: bool)
        ensures
            ok == (buffer_contents(*dst).len() + HEADER_LEN + MAX_FRAME_SIZE <= isize::MAX),
    {
        let n = buffer_len(dst);
        n <= (isize::MAX as usize) - HEADER_LEN - MAX_FRAME_SIZE
    }

    /// Appends a frame carrying `payload` to `dst`; fails, leaving `dst` as it is,
    /// when the payload is longer than `MAX_FRAME_SIZE`.
    pub fn encode(&mut self, payload: &[u8], dst: &mut BytesMut) -> (res: Result<(), CodecError>)
        requires
            buffer_contents(*old(dst)).len() + HEADER_LEN + MAX_FRAME_SIZE <= isize::MAX,
        ensures
            ({
                let before = buffer_contents(*old(dst));
                let after = buffer_contents(*final(dst));
                match res {
                    Ok(()) => payload@.len() <= MAX_FRAME_SIZE && after == before + frame_bytes(
                        payload@,
                    ),
                    Err(CodecError::FrameTooLarge(n)) => payload@.len() > MAX_FRAME_SIZE && n
                        == payload@.len() && after == before,
                    Err(_) => false,
                }
            }),
    {
        let n = payload.len();
        if n > MAX_FRAME_SIZE {
            return Err(CodecError::FrameTooLarge(n));
        }
        buffer_reserve(dst, HEADER_LEN + n);
        buffer_put_u32(dst, n as u32);
        buffer_put_slice(dst, payload);
        proof {
            let before = buffer_contents(*old(dst));
            assert(buffer_contents(*dst) =~= before + frame_bytes(payload@));
        }
        Ok(())
    }
}

/// The header that `encode` writes declares exactly the length it was built from.
pub proof fn lemma_header_declares_length(n: int)
    requires
        0 <= n < 0x1_0000_0000,
    ensures
        u32_be_bytes(n).len() == HEADER_LEN,
        declared_len(u32_be_bytes(n)) == n,
{
    let b = u32_be_bytes(n);
    assert(b[0] as int == n / 0x100_0000);
    assert(b[1] as int == (n / 0x1_0000) % 0x100);
    assert(b[2] as int == (n / 0x100) % 0x100);
    assert(b[3] as int == n % 0x100);
    assert(n == (n / 0x100_0000) * 0x100_0000 + ((n / 0x1_0000) % 0x100) * 0x1_0000 + ((n / 0x100)
        % 0x100) * 0x100 + n % 0x100) by (nonlinear_arith)
        requires
            0 <= n < 0x1_0000_0000,
    ;
}

/// Round trip: a frame that `encode` writes, followed by anything, is decoded back
/// into exactly the payload it carries, and what follows it is left in the buffer.
pub proof fn lemma_frame_roundtrip(payload: Seq<u8>, rest: Seq<u8>)
    requires
        payload.len() <= MAX_FRAME_SIZE,
    ensures
        frame_complete(frame_bytes(payload) + rest),
        frame_payload(frame_bytes(payload) + rest) == payload,
        after_frame(frame_bytes(payload) + rest) == rest,
{
    lemma_header_declares_length(payload.len() as int);
    let buf = frame_bytes(payload) + rest;
    assert(buf.subrange(0, 4) =~= u32_be_bytes(payload.len() as int));
    assert(declared_len(buf) == declared_len(u32_be_bytes(payload.len() as int)));
    assert(frame_payload(buf) =~= payload);
    assert(after_frame(buf) =~= rest);
}

/// A frame cut short anywhere is reported as incomplete, never as an error.
pub proof fn lemma_partial_frame_incomplete(payload: Seq<u8>, cut: int)
    requires
        payload.len() <= MAX_FRAME_SIZE,
        0 <= cut < frame_bytes(payload).len(),
    ensures
        frame_incomplete(frame_bytes(payload).subrange(0, cut)),
{
    lemma_header_declares_length(payload.len() as int);
    let buf = frame_bytes(payload).subrange(0, cut);
    if cut >= HEADER_LEN {
        assert(declared_len(buf) == declared_len(u32_be_bytes(payload.len() as int)));
    }
}

/// A buffer whose header declares more than `MAX_FRAME_SIZE` bytes is rejected,
/// however much of the payload has arrived.
pub proof fn lemma_oversized_header_rejected(declared: int, rest: Seq<u8>)
    requires
        MAX_FRAME_SIZE < declared < 0x1_0000_0000,
    ensures
        frame_oversized(u32_be_bytes(declared) + rest),
        !frame_incomplete(u32_be_bytes(declared) + rest),
        !frame_complete(u32_be_bytes(declared) + rest),
{
    lemma_header_declares_length(declared);
    let buf = u32_be_bytes(declared) + rest;
    assert(declared_len(buf) == declared_len(u32_be_bytes(declared)));
}

} // verus!
