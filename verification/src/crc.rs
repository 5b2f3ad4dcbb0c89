//! The two checksums of the protocol.
//!
//! Both are plain shift-register CRCs: the register starts at zero, bytes
//! enter at the top, most significant bit first, and the register is the
//! result as it stands after the last byte. Frames carry the 16-bit one
//! (polynomial `0x1021`), files the 32-bit one (polynomial `0x04C11DB7`).

use vstd::prelude::*;

verus! {

/// Generator polynomial of the frame checksum.
pub const CRC16_POLY: u16 = 0x1021;

/// Generator polynomial of the file checksum.
pub const CRC32_POLY: u32 = 0x04C1_1DB7;

/// The 16-bit register after one bit has been shifted out at the top.
pub open spec fn crc16_shift(reg: u16) -> u16 {
    if reg & 0x8000 != 0 {
        (reg << 1) ^ CRC16_POLY
    } else {
        reg << 1
    }
}

/// The 16-bit register after `n` shifts.
pub open spec fn crc16_shifts(reg: u16, n: nat) -> u16
    decreases n,
{
    if n == 0 {
        reg
    } else {
        crc16_shift(crc16_shifts(reg, (n - 1) as nat))
    }
}

/// The 16-bit register after one more byte.
pub open spec fn crc16_update(reg: u16, byte: u8) -> u16 {
    crc16_shifts(reg ^ ((byte as u16) << 8), 8)
}

/// The 16-bit register after all of `data`, starting from `reg`.
pub open spec fn crc16_from(reg: u16, data: Seq<u8>) -> u16
    decreases data.len(),
{
    if data.len() == 0 {
        reg
    } else {
        crc16_update(crc16_from(reg, data.drop_last()), data.last())
    }
}

/// The frame checksum of `data`.
pub open spec fn spec_crc16(data: Seq<u8>) -> u16 {
    crc16_from(0, data)
}

/// The 32-bit register after one bit has been shifted out at the top.
pub open spec fn crc32_shift(reg: u32) -> u32 {
    if reg & 0x8000_0000 != 0 {
        (reg << 1) ^ CRC32_POLY
    } else {
        reg << 1
    }
}

/// The 32-bit register after `n` shifts.
pub open spec fn crc32_shifts(reg: u32, n: nat) -> u32
    decreases n,
{
    if n == 0 {
        reg
    } else {
        crc32_shift(crc32_shifts(reg, (n - 1) as nat))
    }
}

/// The 32-bit register after one more byte.
pub open spec fn crc32_update(reg: u32, byte: u8) -> u32 {
    crc32_shifts(reg ^ ((byte as u32) << 24), 8)
}

/// The 32-bit register after all of `data`, starting from `reg`.
pub open spec fn crc32_from(reg: u32, data: Seq<u8>) -> u32
    decreases data.len(),
{
    if data.len() == 0 {
        reg
    } else {
        crc32_update(crc32_from(reg, data.drop_last()), data.last())
    }
}

/// The file checksum of `data`.
pub open spec fn spec_crc32(data: Seq<u8>) -> u32 {
    crc32_from(0, data)
}

fn crc16_step(reg: u16, byte: u8) -> (r: u16)
    ensures
        r == crc16_update(reg, byte),
{
    let start: u16 = reg ^ ((byte as u16) << 8);
    let mut cur: u16 = start;
    let mut k: u8 = 0;
    while k < 8
        invariant
            k <= 8,
            cur == crc16_shifts(start, k as nat),
        decreases 8 - k,
    {
        if cur & 0x8000 != 0 {
            cur = (cur << 1) ^ CRC16_POLY;
        } else {
            cur = cur << 1;
        }
        k = k + 1;
    }
    cur
}

fn crc32_step(reg: u32, byte: u8) -> (r: u32)
    ensures
        r == crc32_update(reg, byte),
{
    let start: u32 = reg ^ ((byte as u32) << 24);
    let mut cur: u32 = start;
    let mut k: u8 = 0;
    while k < 8
        invariant
            k <= 8,
            cur == crc32_shifts(start, k as nat),
        decreases 8 - k,
    {
        if cur & 0x8000_0000 != 0 {
            cur = (cur << 1) ^ CRC32_POLY;
        } else {
            cur = cur << 1;
        }
        k = k + 1;
    }
    cur
}

/// Computes the frame checksum of `data`.
pub fn crc16(data: &[u8]) -> (r: u16)
    ensures
        r == spec_crc16(data@),
{
    let mut reg: u16 = 0;
    let mut i: usize = 0;
    while i < data.len()
        invariant
            i <= data.len(),
            reg == crc16_from(0, data@.subrange(0, i as int)),
        decreases data.len() - i,
    {
        assert(data@.subrange(0, i + 1).drop_last() =~= data@.subrange(0, i as int));
        reg = crc16_step(reg, data[i]);
        i = i + 1;
    }
    assert(data@.subrange(0, i as int) =~= data@);
    reg
}

/// Computes the file checksum of `data`.
pub fn crc32(data: &[u8]) -> (r: u32)
    ensures
        r == spec_crc32(data@),
{
    let mut reg: u32 = 0;
    let mut i: usize = 0;
    while i < data.len()
        invariant
            i <= data.len(),
            reg == crc32_from(0, data@.subrange(0, i as int)),
        decreases data.len() - i,
    {
        assert(data@.subrange(0, i + 1).drop_last() =~= data@.subrange(0, i as int));
        reg = crc32_step(reg, data[i]);
        i = i + 1;
    }
    assert(data@.subrange(0, i as int) =~= data@);
    reg
}

/// The checksum of nothing is zero, and a checksum can be carried on: the
/// register after `head + tail` is the register after `tail` started from
/// the register after `head`.
pub proof fn lemma_crc16_concat(reg: u16, head: Seq<u8>, tail: Seq<u8>)
    ensures
        spec_crc16(Seq::<u8>::empty()) == 0,
        crc16_from(reg, head + tail) == crc16_from(crc16_from(reg, head), tail),
    decreases tail.len(),
{
    if tail.len() == 0 {
        assert(head + tail =~= head);
    } else {
        lemma_crc16_concat(reg, head, tail.drop_last());
        assert((head + tail).drop_last() =~= head + tail.drop_last());
    }
}

/// The same for the file checksum.
pub proof fn lemma_crc32_concat(reg: u32, head: Seq<u8>, tail: Seq<u8>)
    ensures
        spec_crc32(Seq::<u8>::empty()) == 0,
        crc32_from(reg, head + tail) == crc32_from(crc32_from(reg, head), tail),
    decreases tail.len(),
{
    if tail.len() == 0 {
        assert(head + tail =~= head);
    } else {
        lemma_crc32_concat(reg, head, tail.drop_last());
        assert((head + tail).drop_last() =~= head + tail.drop_last());
    }
}

/// A register that takes in its own two bytes, high byte first, ends at
/// zero.
pub proof fn lemma_crc16_residue(reg: u16)
    ensures
        crc16_update(crc16_update(reg, (reg / 0x100) as u8), (reg % 0x100) as u8) == 0,
{
    let high = (reg / 0x100) as u8;
    let low = (reg % 0x100) as u8;
    let start = reg ^ ((high as u16) << 8);
    assert(start == low as u16) by (bit_vector)
        requires
            high == (reg / 0x100) as u8,
            low == (reg % 0x100) as u8,
            start == reg ^ ((high as u16) << 8),
    ;
    reveal_with_fuel(crc16_shifts, 9);
    let s1 = crc16_shift(start);
    let s2 = crc16_shift(s1);
    let s3 = crc16_shift(s2);
    let s4 = crc16_shift(s3);
    let s5 = crc16_shift(s4);
    let s6 = crc16_shift(s5);
    let s7 = crc16_shift(s6);
    let s8 = crc16_shift(s7);
    assert(s8 == (low as u16) << 8) by (bit_vector)
        requires
            start == low as u16,
            s1 == if start & 0x8000 != 0 { (start << 1) ^ 0x1021 } else { start << 1 },
            s2 == if s1 & 0x8000 != 0 { (s1 << 1) ^ 0x1021 } else { s1 << 1 },
            s3 == if s2 & 0x8000 != 0 { (s2 << 1) ^ 0x1021 } else { s2 << 1 },
            s4 == if s3 & 0x8000 != 0 { (s3 << 1) ^ 0x1021 } else { s3 << 1 },
            s5 == if s4 & 0x8000 != 0 { (s4 << 1) ^ 0x1021 } else { s4 << 1 },
            s6 == if s5 & 0x8000 != 0 { (s5 << 1) ^ 0x1021 } else { s5 << 1 },
            s7 == if s6 & 0x8000 != 0 { (s6 << 1) ^ 0x1021 } else { s6 << 1 },
            s8 == if s7 & 0x8000 != 0 { (s7 << 1) ^ 0x1021 } else { s7 << 1 },
    ;
    assert(crc16_update(reg, high) == s8);
    let again = s8 ^ ((low as u16) << 8);
    assert(again == 0) by (bit_vector)
        requires
            s8 == (low as u16) << 8,
            again == s8 ^ ((low as u16) << 8),
    ;
    assert(crc16_shift(0) == 0) by (bit_vector);
    assert(crc16_shifts(0, 8) == 0);
}

/// The checksum of a run of bytes followed by its own checksum, high byte
/// first, is zero: a frame with its trailer checks to zero as a whole.
pub proof fn lemma_crc16_of_checked(data: Seq<u8>)
    ensures
        spec_crc16(
            data + seq![(spec_crc16(data) / 0x100) as u8, (spec_crc16(data) % 0x100) as u8],
        ) == 0,
{
    let reg = spec_crc16(data);
    let high = (reg / 0x100) as u8;
    let low = (reg % 0x100) as u8;
    let whole = data + seq![high, low];
    let inner = data.push(high);
    lemma_crc16_residue(reg);
    assert(whole.drop_last() =~= inner);
    assert(whole.last() == low);
    assert(inner.drop_last() =~= data);
    assert(inner.last() == high);
    assert(crc16_from(0, inner) == crc16_update(reg, high));
    assert(crc16_from(0, whole) == crc16_update(crc16_from(0, inner), low));
}

} // verus!
