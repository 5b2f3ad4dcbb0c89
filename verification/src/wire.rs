//! Fixed-width integers on the wire.
//!
//! Every multi-byte integer of a payload travels least significant byte
//! first. The byte layout itself is produced and read back by `bincode`; this
//! module states what that layout is and builds the readers and writers the
//! packet schemas use on top of it.

use vstd::prelude::*;
use vstd::slice::slice_subrange;
use crate::errors::DecodeError;

verus! {

/// The two bytes of `v`, low byte first.
pub open spec fn u16_le(v: u16) -> Seq<u8> {
    seq![(v % 0x100) as u8, (v / 0x100) as u8]
}

/// The four bytes of `v`, low byte first.
pub open spec fn u32_le(v: u32) -> Seq<u8> {
    seq![
        (v % 0x100) as u8,
        ((v / 0x100) % 0x100) as u8,
        ((v / 0x1_0000) % 0x100) as u8,
        (v / 0x100_0000) as u8,
    ]
}

/// The value whose low byte is `s[0]` and whose high byte is `s[1]`.
pub open spec fn u16_from_le(s: Seq<u8>) -> u16
    recommends
        s.len() >= 2,
{
    (s[0] + s[1] * 0x100) as u16
}

/// The value whose bytes, low byte first, are `s[0]` to `s[3]`.
pub open spec fn u32_from_le(s: Seq<u8>) -> u32
    recommends
        s.len() >= 4,
{
    (s[0] + s[1] * 0x100 + s[2] * 0x1_0000 + s[3] * 0x100_0000) as u32
}

/// The unsigned value with the same 32 bits as `v` in two's complement.
pub open spec fn i32_bits(v: i32) -> u32 {
    if v >= 0 {
        v as u32
    } else {
        (v + 0x1_0000_0000) as u32
    }
}

/// The signed value with the same 32 bits as `v` in two's complement.
pub open spec fn i32_from_bits(v: u32) -> i32 {
    if v < 0x8000_0000 {
        v as i32
    } else {
        (v - 0x1_0000_0000) as i32
    }
}

/// `bincode::serialize` on a `u16`. With the fixed-width little-endian
/// options that function sets, the result is the two bytes of the value, low
/// byte first; writing an integer into a fresh vector cannot fail.
#[verifier::external_body]
pub(crate) fn write_u16(v: u16) -> (r: Vec<u8>)
    ensures
        r@ == u16_le(v),
{
    match bincode::serialize(&v) {
        Ok(bytes) => bytes,
        Err(_) => Vec::new(),
    }
}

/// `bincode::serialize` on a `u32`: the four bytes of the value, low byte
/// first.
#[verifier::external_body]
pub(crate) fn write_u32(v: u32) -> (r: Vec<u8>)
    ensures
        r@ == u32_le(v),
{
    match bincode::serialize(&v) {
        Ok(bytes) => bytes,
        Err(_) => Vec::new(),
    }
}

/// `bincode::deserialize` to a `u16`. It reads the first two bytes, low byte
/// first, ignores what follows them, and fails where fewer than two are
/// there.
#[verifier::external_body]
pub(crate) fn parse_u16(bytes: &[u8]) -> (r: Option<u16>)
    ensures
        bytes@.len() >= 2 ==> r == Some(u16_from_le(bytes@)),
        bytes@.len() < 2 ==> r is None,
{
    match bincode::deserialize::<u16>(bytes) {
        Ok(v) => Some(v),
        Err(_) => None,
    }
}

/// `bincode::deserialize` to a `u32`. It reads the first four bytes, low
/// byte first, ignores what follows them, and fails where fewer than four
/// are there.
#[verifier::external_body]
pub(crate) fn parse_u32(bytes: &[u8]) -> (r: Option<u32>)
    ensures
        bytes@.len() >= 4 ==> r == Some(u32_from_le(bytes@)),
        bytes@.len() < 4 ==> r is None,
{
    match bincode::deserialize::<u32>(bytes) {
        Ok(v) => Some(v),
        Err(_) => None,
    }
}

/// Appends `src` to `dst`.
pub fn append(dst: &mut Vec<u8>, src: &[u8])
    ensures
        final(dst)@ == old(dst)@ + src@,
{
    let mut i: usize = 0;
    while i < src.len()
        invariant
            i <= src.len(),
            dst@ == old(dst)@ + src@.subrange(0, i as int),
        decreases src.len() - i,
    {
        dst.push(src[i]);
        i = i + 1;
        assert(dst@ =~= old(dst)@ + src@.subrange(0, i as int));
    }
    assert(src@.subrange(0, i as int) =~= src@);
}

/// Copies `data[from..to]` into a vector of its own.
pub fn copy_range(data: &[u8], from: usize, to: usize) -> (r: Vec<u8>)
    requires
        from <= to <= data@.len(),
    ensures
        r@ == data@.subrange(from as int, to as int),
{
    let mut out: Vec<u8> = Vec::new();
    append(&mut out, slice_subrange(data, from, to));
    assert(out@ =~= data@.subrange(from as int, to as int));
    out
}

/// Appends the two bytes of `v` to `dst`.
pub fn put_u16(dst: &mut Vec<u8>, v: u16)
    ensures
        final(dst)@ == old(dst)@ + u16_le(v),
{
    let bytes = write_u16(v);
    append(dst, bytes.as_slice());
}

/// Appends the four bytes of `v` to `dst`.
pub fn put_u32(dst: &mut Vec<u8>, v: u32)
    ensures
        final(dst)@ == old(dst)@ + u32_le(v),
{
    let bytes = write_u32(v);
    append(dst, bytes.as_slice());
}

/// Appends the four bytes of the signed `v` to `dst`.
pub fn put_i32(dst: &mut Vec<u8>, v: i32)
    ensures
        final(dst)@ == old(dst)@ + u32_le(i32_bits(v)),
{
    let bits: u32 = if v >= 0 {
        v as u32
    } else {
        ((v as i64) + 0x1_0000_0000) as u32
    };
    put_u32(dst, bits);
}

/// The byte at `at`, where there is one.
pub fn get_u8(data: &[u8], at: usize) -> (r: Result<u8, DecodeError>)
    ensures
        at < data@.len() ==> r == Ok::<u8, DecodeError>(data@[at as int]),
        at >= data@.len() ==> r == Err::<u8, DecodeError>(DecodeError::UnexpectedEnd),
{
    if at < data.len() {
        Ok(data[at])
    } else {
        Err(DecodeError::UnexpectedEnd)
    }
}

/// The 16-bit value in the two bytes from `at`, where they are there.
pub fn get_u16(data: &[u8], at: usize) -> (r: Result<u16, DecodeError>)
    ensures
        at + 2 <= data@.len() ==> r == Ok::<u16, DecodeError>(
            u16_from_le(data@.subrange(at as int, at + 2)),
        ),
        at + 2 > data@.len() ==> r == Err::<u16, DecodeError>(DecodeError::UnexpectedEnd),
{
    if at > data.len() || data.len() - at < 2 {
        return Err(DecodeError::UnexpectedEnd);
    }
    match parse_u16(slice_subrange(data, at, at + 2)) {
        Some(v) => Ok(v),
        None => Err(DecodeError::UnexpectedEnd),
    }
}

/// The 32-bit value in the four bytes from `at`, where they are there.
pub fn get_u32(data: &[u8], at: usize) -> (r: Result<u32, DecodeError>)
    ensures
        at + 4 <= data@.len() ==> r == Ok::<u32, DecodeError>(
            u32_from_le(data@.subrange(at as int, at + 4)),
        ),
        at + 4 > data@.len() ==> r == Err::<u32, DecodeError>(DecodeError::UnexpectedEnd),
{
    if at > data.len() || data.len() - at < 4 {
        return Err(DecodeError::UnexpectedEnd);
    }
    match parse_u32(slice_subrange(data, at, at + 4)) {
        Some(v) => Ok(v),
        None => Err(DecodeError::UnexpectedEnd),
    }
}

/// Reading back the bytes of a value gives the value.
pub proof fn lemma_le_value_round_trip(a: u16, b: u32, c: i32)
    ensures
        u16_le(a).len() == 2,
        u32_le(b).len() == 4,
        u16_from_le(u16_le(a)) == a,
        u32_from_le(u32_le(b)) == b,
        i32_from_bits(i32_bits(c)) == c,
{
    assert((a % 0x100) as u8 + ((a / 0x100) as u8) * 0x100 == a) by (bit_vector);
    assert((b % 0x100) as u8 + (((b / 0x100) % 0x100) as u8) * 0x100 + (((b / 0x1_0000)
        % 0x100) as u8) * 0x1_0000 + ((b / 0x100_0000) as u8) * 0x100_0000 == b)
        by (bit_vector);
}

/// Writing the value that two or four bytes hold gives back those bytes.
pub proof fn lemma_le_bytes_round_trip(s: Seq<u8>, t: Seq<u8>)
    requires
        s.len() == 2,
        t.len() == 4,
    ensures
        u16_le(u16_from_le(s)) == s,
        u32_le(u32_from_le(t)) == t,
{
    let (s0, s1) = (s[0], s[1]);
    let a = u16_from_le(s);
    assert(a == s0 + s1 * 0x100);
    assert((a % 0x100) as u8 == s0 && (a / 0x100) as u8 == s1) by (bit_vector)
        requires
            a == s0 + s1 * 0x100,
    ;
    assert(u16_le(a) =~= s);
    let (t0, t1, t2, t3) = (t[0], t[1], t[2], t[3]);
    let b = u32_from_le(t);
    assert(b == t0 + t1 * 0x100 + t2 * 0x1_0000 + t3 * 0x100_0000);
    assert((b % 0x100) as u8 == t0 && ((b / 0x100) % 0x100) as u8 == t1 && ((b / 0x1_0000)
        % 0x100) as u8 == t2 && (b / 0x100_0000) as u8 == t3) by (bit_vector)
        requires
            b == t0 + t1 * 0x100 + t2 * 0x1_0000 + t3 * 0x100_0000,
    ;
    assert(u32_le(b) =~= t);
}

} // verus!
