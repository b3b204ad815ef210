//! Big-endian integer codec and byte-level helpers shared by every value type.
//!
//! SMPP serializes `u8`, `u16` and `u32` as 1, 2 and 4 big-endian bytes.
//! Each decoder is specified exactly by a total spec function over the input
//! bytes, so that round-trip laws can be stated and proved at the level of
//! byte sequences.

use vstd::prelude::*;

use crate::errors::IntegerDecodeError;

verus! {

/// The two big-endian bytes of a `u16`.
pub open spec fn u16_be_bytes(x: u16) -> Seq<u8> {
    seq![(x / 0x100) as u8, (x % 0x100) as u8]
}

/// The four big-endian bytes of a `u32`.
pub open spec fn u32_be_bytes(x: u32) -> Seq<u8> {
    seq![
        (x / 0x1000000) as u8,
        ((x / 0x10000) % 0x100) as u8,
        ((x / 0x100) % 0x100) as u8,
        (x % 0x100) as u8,
    ]
}

/// The `u16` read back from two big-endian bytes.
pub open spec fn u16_from_be(b0: u8, b1: u8) -> u16 {
    (b0 as int * 0x100 + b1 as int) as u16
}

/// The `u32` read back from four big-endian bytes.
pub open spec fn u32_from_be(b0: u8, b1: u8, b2: u8, b3: u8) -> u32 {
    (b0 as int * 0x1000000 + b1 as int * 0x10000 + b2 as int * 0x100 + b3 as int) as u32
}

/// What decoding a `u8` from `s` yields.
pub open spec fn spec_decode_u8(s: Seq<u8>) -> Result<(u8, usize), IntegerDecodeError> {
    if s.len() >= 1 {
        Ok((s[0], 1))
    } else {
        Err(IntegerDecodeError::UnexpectedEof)
    }
}

/// What decoding a big-endian `u16` from `s` yields.
pub open spec fn spec_decode_u16(s: Seq<u8>) -> Result<(u16, usize), IntegerDecodeError> {
    if s.len() >= 2 {
        Ok((u16_from_be(s[0], s[1]), 2))
    } else {
        Err(IntegerDecodeError::UnexpectedEof)
    }
}

/// What decoding a big-endian `u32` from `s` yields.
pub open spec fn spec_decode_u32(s: Seq<u8>) -> Result<(u32, usize), IntegerDecodeError> {
    if s.len() >= 4 {
        Ok((u32_from_be(s[0], s[1], s[2], s[3]), 4))
    } else {
        Err(IntegerDecodeError::UnexpectedEof)
    }
}

pub fn encode_u8_to(x: u8, dst: &mut Vec<u8>)
    ensures
        final(dst)@ == old(dst)@ + seq![x],
{
    dst.push(x);
    assert(final(dst)@ =~= old(dst)@ + seq![x]);
}

pub fn encode_u16_to(x: u16, dst: &mut Vec<u8>)
    ensures
        final(dst)@ == old(dst)@ + u16_be_bytes(x),
{
    dst.push((x / 0x100) as u8);
    dst.push((x % 0x100) as u8);
    assert(final(dst)@ =~= old(dst)@ + u16_be_bytes(x));
}

pub fn encode_u32_to(x: u32, dst: &mut Vec<u8>)
    ensures
        final(dst)@ == old(dst)@ + u32_be_bytes(x),
{
    dst.push((x / 0x1000000) as u8);
    dst.push(((x / 0x10000) % 0x100) as u8);
    dst.push(((x / 0x100) % 0x100) as u8);
    dst.push((x % 0x100) as u8);
    assert(final(dst)@ =~= old(dst)@ + u32_be_bytes(x));
}

pub fn decode_u8(src: &[u8]) -> (r: Result<(u8, usize), IntegerDecodeError>)
    ensures
        r == spec_decode_u8(src@),
{
    if src.len() >= 1 {
        Ok((src[0], 1))
    } else {
        Err(IntegerDecodeError::UnexpectedEof)
    }
}

pub fn decode_u16(src: &[u8]) -> (r: Result<(u16, usize), IntegerDecodeError>)
    ensures
        r == spec_decode_u16(src@),
{
    if src.len() >= 2 {
        let x: u16 = src[0] as u16 * 0x100 + src[1] as u16;
        Ok((x, 2))
    } else {
        Err(IntegerDecodeError::UnexpectedEof)
    }
}

pub fn decode_u32(src: &[u8]) -> (r: Result<(u32, usize), IntegerDecodeError>)
    ensures
        r == spec_decode_u32(src@),
{
    if src.len() >= 4 {
        let x: u32 = src[0] as u32 * 0x1000000 + src[1] as u32 * 0x10000 + src[2] as u32 * 0x100
            + src[3] as u32;
        Ok((x, 4))
    } else {
        Err(IntegerDecodeError::UnexpectedEof)
    }
}

/// Reading a `u8` back from its encoding, followed by anything, yields the
/// value and consumes one byte.
pub proof fn lemma_u8_round_trip(x: u8, rest: Seq<u8>)
    ensures
        spec_decode_u8(seq![x] + rest) == Ok::<(u8, usize), IntegerDecodeError>((x, 1)),
{
    assert((seq![x] + rest)[0] == x);
}

/// Reading a `u16` back from its big-endian encoding, followed by anything,
/// yields the value and consumes two bytes.
pub proof fn lemma_u16_round_trip(x: u16, rest: Seq<u8>)
    ensures
        spec_decode_u16(u16_be_bytes(x) + rest) == Ok::<(u16, usize), IntegerDecodeError>((x, 2)),
{
    let s = u16_be_bytes(x) + rest;
    assert(s[0] == (x / 0x100) as u8);
    assert(s[1] == (x % 0x100) as u8);
    assert(x / 0x100 * 0x100 + x % 0x100 == x) by (nonlinear_arith);
}

/// Reading a `u32` back from its big-endian encoding, followed by anything,
/// yields the value and consumes four bytes.
pub proof fn lemma_u32_round_trip(x: u32, rest: Seq<u8>)
    ensures
        spec_decode_u32(u32_be_bytes(x) + rest) == Ok::<(u32, usize), IntegerDecodeError>((x, 4)),
{
    let s = u32_be_bytes(x) + rest;
    assert(s[0] == (x / 0x1000000) as u8);
    assert(s[1] == ((x / 0x10000) % 0x100) as u8);
    assert(s[2] == ((x / 0x100) % 0x100) as u8);
    assert(s[3] == (x % 0x100) as u8);
    assert(x / 0x1000000 * 0x1000000 + (x / 0x10000) % 0x100 * 0x10000 + (x / 0x100) % 0x100
        * 0x100 + x % 0x100 == x) by (nonlinear_arith);
}

/// The tail of `s` from index `n` on, as the decoders consume their input.
pub open spec fn sdrop(s: Seq<u8>, n: int) -> Seq<u8> {
    s.skip(n)
}

/// Hands out the tail of a slice, for walking a buffer field by field.
pub fn slice_skip<'a>(s: &'a [u8], n: usize) -> (r: &'a [u8])
    requires
        n <= s@.len(),
    ensures
        r@ == sdrop(s@, n as int),
{
    let (_, tail) = s.split_at(n);
    assert(tail@ =~= sdrop(s@, n as int));
    tail
}

/// Appends a whole slice to a byte buffer.
pub fn push_all(dst: &mut Vec<u8>, src: &[u8])
    ensures
        final(dst)@ == old(dst)@ + src@,
{
    let mut i: usize = 0;
    while i < src.len()
        invariant
            i <= src@.len(),
            dst@ == old(dst)@ + src@.subrange(0, i as int),
        decreases src@.len() - i,
    {
        dst.push(src[i]);
        assert(old(dst)@ + src@.subrange(0, i as int) + seq![src@[i as int]] =~= old(dst)@
            + src@.subrange(0, i + 1));
        i += 1;
    }
    assert(src@.subrange(0, src@.len() as int) =~= src@);
}

/// Copies the first `n` bytes of a slice into a fresh buffer.
pub fn slice_prefix_to_vec(src: &[u8], n: usize) -> (v: Vec<u8>)
    requires
        n <= src@.len(),
    ensures
        v@ == src@.subrange(0, n as int),
{
    let mut v: Vec<u8> = Vec::new();
    let mut i: usize = 0;
    while i < n
        invariant
            i <= n <= src@.len(),
            v@ == src@.subrange(0, i as int),
        decreases n - i,
    {
        v.push(src[i]);
        assert(src@.subrange(0, i as int) + seq![src@[i as int]] =~= src@.subrange(0, i + 1));
        i += 1;
    }
    v
}

/// Appending `rest` after a sequence and skipping the sequence leaves `rest`.
pub proof fn lemma_add_then_skip(a: Seq<u8>, rest: Seq<u8>)
    ensures
        sdrop(a + rest, a.len() as int) == rest,
{
    assert(sdrop(a + rest, a.len() as int) =~= rest);
}


} // verus!
