//! Framing of messages on the wire: a 4-byte little-endian length followed by
//! the encoded message.

use crate::error::{ErrorModel, SapientError};
use bytes::{Buf, BufMut, BytesMut};
use vstd::prelude::*;

verus! {

/// Largest payload accepted: 16 MiB. Guards against malformed length prefixes
/// allocating unbounded memory.
pub const MAX_FRAME_BYTES: usize = 16_777_216;

/// Length of the prefix.
pub const PREFIX_BYTES: usize = 4;

/// `bytes::BytesMut`, a growing byte buffer.
#[verifier::external_type_specification]
#[verifier::external_body]
pub struct ExBytesMut(BytesMut);

/// The bytes that a buffer holds.
pub uninterp spec fn buffered(buffer: BytesMut) -> Seq<u8>;

/// `BytesMut::len`: the number of bytes held.
#[verifier::external_body]
fn buffer_len(buffer: &BytesMut) -> (n: usize)
    ensures
        n == buffered(*buffer).len(),
{
    buffer.len()
}

/// `BytesMut`'s index operator: the byte at a place.
#[verifier::external_body]
fn byte_at(buffer: &BytesMut, i: usize) -> (byte: u8)
    requires
        i < buffered(*buffer).len(),
    ensures
        byte == buffered(*buffer)[i as int],
{
    buffer[i]
}

/// `BytesMut::reserve`: makes room; the bytes held stay. Running out of memory
/// is not modelled.
#[verifier::external_body]
fn reserve(buffer: &mut BytesMut, additional: usize)
    requires
        buffered(*old(buffer)).len() + additional <= isize::MAX,
    ensures
        buffered(*final(buffer)) == buffered(*old(buffer)),
{
    buffer.reserve(additional)
}

/// `BufMut::put_u32_le` on `BytesMut`: appends the number's four bytes, least
/// significant first. Running out of memory is not modelled.
#[verifier::external_body]
fn put_u32_le(buffer: &mut BytesMut, n: u32)
    requires
        buffered(*old(buffer)).len() + 4 <= isize::MAX,
    ensures
        buffered(*final(buffer)) == buffered(*old(buffer)) + le_bytes(n as nat),
{
    buffer.put_u32_le(n)
}

/// `BufMut::put_slice` on `BytesMut`: appends the bytes. Running out of memory
/// is not modelled.
#[verifier::external_body]
fn put_slice(buffer: &mut BytesMut, bytes: &[u8])
    requires
        buffered(*old(buffer)).len() + bytes@.len() <= isize::MAX,
    ensures
        buffered(*final(buffer)) == buffered(*old(buffer)) + bytes@,
{
    buffer.put_slice(bytes)
}

/// `Buf::advance` on `BytesMut`: drops bytes at the front.
#[verifier::external_body]
fn advance(buffer: &mut BytesMut, count: usize)
    requires
        count <= buffered(*old(buffer)).len(),
    ensures
        buffered(*final(buffer)) == buffered(*old(buffer)).skip(count as int),
{
    buffer.advance(count)
}

/// `BytesMut::split_to`: takes bytes off the front; they are returned, the rest
/// stays.
#[verifier::external_body]
fn split_to(buffer: &mut BytesMut, at: usize) -> (front: Vec<u8>)
    requires
        at <= buffered(*old(buffer)).len(),
    ensures
        front@ == buffered(*old(buffer)).take(at as int),
        buffered(*final(buffer)) == buffered(*old(buffer)).skip(at as int),
{
    buffer.split_to(at).to_vec()
}

/// The four bytes of a number, least significant first; of a larger number,
/// its remainder modulo 2^32.
pub open spec fn le_bytes(n: nat) -> Seq<u8> {
    seq![
        (n % 256) as u8,
        (n / 256 % 256) as u8,
        (n / 65536 % 256) as u8,
        (n / 16777216 % 256) as u8,
    ]
}

/// The number whose four bytes, least significant first, start a sequence.
pub open spec fn le_value(bytes: Seq<u8>) -> nat {
    (bytes[0] + bytes[1] * 256 + bytes[2] * 65536 + bytes[3] * 16777216) as nat
}

/// A payload as it stands on the wire.
pub open spec fn frame(payload: Seq<u8>) -> Seq<u8> {
    le_bytes(payload.len()) + payload
}

/// What a buffer that starts at a frame boundary comes to.
pub enum Framing {
    /// More bytes are needed.
    Incomplete,
    /// The prefix announces more than is accepted.
    TooLarge(nat),
    /// A whole frame, and what follows it.
    Payload(Seq<u8>, Seq<u8>),
}

/// Reads the frame at the front of a buffer.
pub open spec fn first_frame(bytes: Seq<u8>) -> Framing {
    if bytes.len() < PREFIX_BYTES {
        Framing::Incomplete
    } else if le_value(bytes) > MAX_FRAME_BYTES {
        Framing::TooLarge(le_value(bytes))
    } else if bytes.len() < PREFIX_BYTES + le_value(bytes) {
        Framing::Incomplete
    } else {
        Framing::Payload(
            bytes.subrange(4, 4 + le_value(bytes) as int),
            bytes.skip(4 + le_value(bytes) as int),
        )
    }
}

/// Codec of the length-prefix framing.
#[derive(Clone, Copy, Debug, Default)]
pub struct SapientCodec;

impl SapientCodec {
    /// Whether a frame around a payload of a length fits in the address space
    /// together with what a buffer holds.
    pub fn has_room(&self, payload_len: usize, dst: &BytesMut) -> (fits: bool)
        ensures
            fits == (buffered(*dst).len() + PREFIX_BYTES + payload_len <= isize::MAX),
    {
        let held: usize = buffer_len(dst);
        let most: usize = isize::MAX as usize;
        held <= most && PREFIX_BYTES <= most - held && payload_len <= most - held - PREFIX_BYTES
    }

    /// Appends an encoded message to a buffer as a frame.
    ///
    /// The prefix holds the length modulo 2^32. The frame must fit in the
    /// address space together with what the buffer holds.
    pub fn encode(&mut self, payload: &[u8], dst: &mut BytesMut) -> (encoded: Result<
        (),
        SapientError,
    >)
        requires
            buffered(*old(dst)).len() + PREFIX_BYTES + payload@.len() <= isize::MAX,
        ensures
            encoded is Ok,
            buffered(*final(dst)) == buffered(*old(dst)) + frame(payload@),
    {
        let len: u32 = #[verifier::truncate] (payload.len() as u32);
        proof {
            let n = payload@.len();
            let u = payload.len() as u64;
            assert((u as u32) as u64 == u % 0x1_0000_0000) by (bit_vector);
            lemma_le_truncated(n, len as nat);
        }
        reserve(dst, PREFIX_BYTES + payload.len());
        put_u32_le(dst, len);
        put_slice(dst, payload);
        assert(buffered(*dst) =~= buffered(*old(dst)) + frame(payload@));
        Ok(())
    }

    /// Takes the payload of the first whole frame off a buffer.
    ///
    /// Nothing is taken, and the buffer stays, where the frame is not whole yet
    /// or announces more than [`MAX_FRAME_BYTES`]; the latter is an error.
    pub fn decode(&mut self, src: &mut BytesMut) -> (payload: Result<
        Option<Vec<u8>>,
        SapientError,
    >)
        ensures
            match first_frame(buffered(*old(src))) {
                Framing::Incomplete => payload matches Ok(None) && buffered(*final(src))
                    == buffered(*old(src)),
                Framing::TooLarge(size) => payload matches Err(e) && e@
                    == (ErrorModel::FrameTooLarge { size, max: MAX_FRAME_BYTES as nat })
                    && buffered(*final(src)) == buffered(*old(src)),
                Framing::Payload(bytes, rest) => payload matches Ok(Some(p)) && p@ == bytes
                    && buffered(*final(src)) == rest,
            },
    {
        let held = buffer_len(src);
        if held < PREFIX_BYTES {
            reserve(src, PREFIX_BYTES);
            return Ok(None);
        }
        let b0 = byte_at(src, 0);
        let b1 = byte_at(src, 1);
        let b2 = byte_at(src, 2);
        let b3 = byte_at(src, 3);
        let len: usize = b0 as usize + b1 as usize * 256 + b2 as usize * 65536 + b3 as usize
            * 16777216;
        if len > MAX_FRAME_BYTES {
            return Err(SapientError::FrameTooLarge { size: len, max: MAX_FRAME_BYTES });
        }
        if held < PREFIX_BYTES + len {
            reserve(src, PREFIX_BYTES + len - held);
            return Ok(None);
        }
        advance(src, PREFIX_BYTES);
        let payload = split_to(src, len);
        proof {
            let bytes = buffered(*old(src));
            assert(payload@ =~= bytes.subrange(4, 4 + le_value(bytes) as int));
            assert(buffered(*src) =~= bytes.skip(4 + le_value(bytes) as int));
        }
        Ok(Some(payload))
    }
}

proof fn lemma_le_truncated(n: nat, m: nat)
    requires
        m == n % 0x1_0000_0000,
    ensures
        le_bytes(n) == le_bytes(m),
{
    assert(n % 256 == m % 256 && n / 256 % 256 == m / 256 % 256 && n / 65536 % 256 == m / 65536
        % 256 && n / 16777216 % 256 == m / 16777216 % 256) by (nonlinear_arith)
        requires
            m == n % 0x1_0000_0000,
    ;
}

/// The prefix of a payload that fits in 32 bits gives back its length.
pub proof fn lemma_le_round_trip(n: nat, rest: Seq<u8>)
    requires
        n < 0x1_0000_0000,
    ensures
        le_value(le_bytes(n) + rest) == n,
{
    let bytes = le_bytes(n) + rest;
    assert(bytes[0] == (n % 256) as u8);
    assert(bytes[1] == (n / 256 % 256) as u8);
    assert(bytes[2] == (n / 65536 % 256) as u8);
    assert(bytes[3] == (n / 16777216 % 256) as u8);
    assert(n == n % 256 + n / 256 % 256 * 256 + n / 65536 % 256 * 65536 + n / 16777216 % 256
        * 16777216) by (nonlinear_arith)
        requires
            n < 0x1_0000_0000,
    ;
}

/// Decoding gives back what was encoded, whatever follows it in the buffer: the
/// first frame of a stream that starts with the frame of an acceptable payload
/// is that payload, and exactly the frame's bytes are taken.
pub proof fn law_decode_undoes_encode(payload: Seq<u8>, rest: Seq<u8>)
    requires
        payload.len() <= MAX_FRAME_BYTES,
    ensures
        first_frame(frame(payload) + rest) == Framing::Payload(payload, rest),
{
    let bytes = frame(payload) + rest;
    lemma_le_round_trip(payload.len(), payload + rest);
    assert(bytes =~= le_bytes(payload.len()) + (payload + rest));
    assert(bytes.subrange(4, 4 + payload.len() as int) =~= payload);
    assert(bytes.skip(4 + payload.len() as int) =~= rest);
}

/// The bytes of payloads sent one after another.
pub open spec fn stream(payloads: Seq<Seq<u8>>) -> Seq<u8>
    decreases payloads.len(),
{
    if payloads.len() == 0 {
        Seq::empty()
    } else {
        frame(payloads[0]) + stream(payloads.drop_first())
    }
}

/// Payloads that are sent one after another come out one after another: the
/// first frame of the stream is the first payload, and what is left is the
/// stream of the others.
pub proof fn law_stream_keeps_order(payloads: Seq<Seq<u8>>)
    requires
        payloads.len() > 0,
        payloads[0].len() <= MAX_FRAME_BYTES,
    ensures
        first_frame(stream(payloads)) == Framing::Payload(
            payloads[0],
            stream(payloads.drop_first()),
        ),
{
    law_decode_undoes_encode(payloads[0], stream(payloads.drop_first()));
}

/// A frame that has not fully arrived yields nothing: every proper prefix of
/// the frame of an acceptable payload is incomplete.
pub proof fn law_partial_frame_is_incomplete(payload: Seq<u8>, n: int)
    requires
        payload.len() <= MAX_FRAME_BYTES,
        0 <= n < frame(payload).len(),
    ensures
        first_frame(frame(payload).take(n)) == Framing::Incomplete,
{
    let part = frame(payload).take(n);
    if n >= 4 {
        lemma_le_round_trip(payload.len(), payload.take(n - 4));
        assert(part =~= le_bytes(payload.len()) + payload.take(n - 4));
    }
}

/// A payload over the limit is refused by the receiver, as long as its length
/// fits in the prefix.
pub proof fn law_oversized_payload_is_refused(payload: Seq<u8>, rest: Seq<u8>)
    requires
        MAX_FRAME_BYTES < payload.len() < 0x1_0000_0000,
    ensures
        first_frame(frame(payload) + rest) == Framing::TooLarge(payload.len()),
{
    lemma_le_round_trip(payload.len(), payload + rest);
    assert(frame(payload) + rest =~= le_bytes(payload.len()) + (payload + rest));
}

/// A frame is the length of its payload in four bytes, the least significant
/// first, and then the payload; the limit on a payload is 16 MiB.
pub proof fn law_frame_is_length_and_payload(payload: Seq<u8>)
    requires
        payload.len() < 0x1_0000_0000,
    ensures
        frame(payload).len() == payload.len() + 4,
        frame(payload)[0] + 0x100 * frame(payload)[1] + 0x1_0000 * frame(payload)[2] + 0x100_0000
            * frame(payload)[3] == payload.len(),
        frame(payload).skip(4) == payload,
        MAX_FRAME_BYTES == 16 * 1024 * 1024,
{
    let n = payload.len();
    let bytes = frame(payload);
    assert(bytes[0] == (n % 256) as u8);
    assert(bytes[1] == (n / 256 % 256) as u8);
    assert(bytes[2] == (n / 65536 % 256) as u8);
    assert(bytes[3] == (n / 16777216 % 256) as u8);
    assert(n == n % 256 + n / 256 % 256 * 256 + n / 65536 % 256 * 65536 + n / 16777216 % 256
        * 16777216) by (nonlinear_arith)
        requires
            n < 0x1_0000_0000,
    ;
    assert(bytes.skip(4) =~= payload);
}

/// Nothing is made up: a payload that is read is a piece of the buffer right behind
/// its prefix, as long as the prefix says, and what is left is the rest.
pub proof fn law_payload_is_a_piece_of_the_buffer(bytes: Seq<u8>, payload: Seq<u8>, rest: Seq<u8>)
    requires
        first_frame(bytes) == Framing::Payload(payload, rest),
    ensures
        payload.len() <= 16 * 1024 * 1024,
        bytes == bytes.take(4) + payload + rest,
        bytes[0] + 0x100 * bytes[1] + 0x1_0000 * bytes[2] + 0x100_0000 * bytes[3] == payload.len(),
{
    assert(bytes =~= bytes.take(4) + payload + rest);
}

} // verus!
