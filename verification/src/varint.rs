//! Variable-width unsigned integer of at most 15 bits.
//!
//! A value under 128 takes one byte. Any larger value takes two: the high
//! seven bits with the top bit set, then the low eight bits.

use vstd::prelude::*;
use crate::errors::{DecodeError, EncodeError};

verus! {

/// Largest value the encoding can carry.
pub const VAR_U16_MAX: u16 = 0x7FFF;

/// The wire bytes of `v`.
pub open spec fn spec_encode(v: u16) -> Seq<u8> {
    if v < 0x80 {
        seq![v as u8]
    } else {
        seq![(v / 0x100 + 0x80) as u8, (v % 0x100) as u8]
    }
}

/// Whether a first byte announces the two-byte form.
pub open spec fn spec_wide(first: u8) -> bool {
    first >= 0x80
}

/// The value at the head of `s` and the number of bytes it takes, or `None`
/// where `s` ends too early.
pub open spec fn spec_decode(s: Seq<u8>) -> Option<(u16, nat)> {
    if s.len() == 0 {
        None
    } else if !spec_wide(s[0]) {
        Some((s[0] as u16, 1))
    } else if s.len() < 2 {
        None
    } else {
        Some((((s[0] - 0x80) * 0x100 + s[1]) as u16, 2))
    }
}

/// Variable-width u16 type.
#[derive(Clone, Copy, Debug, PartialEq, Eq)]
pub struct VarU16(u16);

impl View for VarU16 {
    type V = u16;

    closed spec fn view(&self) -> u16 {
        self.0
    }
}

impl VarU16 {
    #[verifier::type_invariant]
    closed spec fn in_range(self) -> bool {
        self.0 <= VAR_U16_MAX
    }

    /// Creates a new variable length u16.
    pub fn new(val: u16) -> (r: Self)
        requires
            val <= VAR_U16_MAX,
        ensures
            r@ == val,
    {
        VarU16(val)
    }

    /// Creates a variable length u16, or reports that `val` is too large.
    pub fn checked_new(val: u16) -> (r: Result<Self, EncodeError>)
        ensures
            val <= VAR_U16_MAX ==> r is Ok && r->Ok_0@ == val,
            val > VAR_U16_MAX ==> r == Err::<Self, EncodeError>(EncodeError::VarShortTooLarge),
    {
        if val > VAR_U16_MAX {
            Err(EncodeError::VarShortTooLarge)
        } else {
            Ok(VarU16(val))
        }
    }

    pub fn into_inner(self) -> (r: u16)
        ensures
            r == self@,
            r <= VAR_U16_MAX,
    {
        proof {
            use_type_invariant(&self);
        }
        self.0
    }

    /// Check if the variable length u16 will be wide from the first byte.
    pub fn check_wide(first: u8) -> (r: bool)
        ensures
            r == spec_wide(first),
    {
        first > 0x7F
    }

    /// The one or two bytes that carry the value.
    pub fn encode(&self) -> (r: Result<Vec<u8>, EncodeError>)
        ensures
            r is Ok,
            r->Ok_0@ == spec_encode(self@),
    {
        proof {
            use_type_invariant(self);
        }
        let mut out: Vec<u8> = Vec::new();
        if self.0 > 0x7F {
            let first: u8 = ((self.0 / 0x100) as u8) + 0x80;
            let last: u8 = (self.0 % 0x100) as u8;
            out.push(first);
            out.push(last);
        } else {
            out.push(self.0 as u8);
        }
        assert(out@ =~= spec_encode(self@));
        Ok(out)
    }

    /// Reads a value from the head of `data`, together with the number of
    /// bytes it took.
    pub fn decode_prefix(data: &[u8]) -> (r: Result<(Self, usize), DecodeError>)
        ensures
            match spec_decode(data@) {
                Some((v, n)) => r is Ok && r->Ok_0.0@ == v && r->Ok_0.1 == n,
                None => r == Err::<(Self, usize), DecodeError>(DecodeError::UnexpectedEnd),
            },
    {
        if data.len() == 0 {
            return Err(DecodeError::UnexpectedEnd);
        }
        let first: u8 = data[0];
        if !Self::check_wide(first) {
            return Ok((VarU16(first as u16), 1));
        }
        if data.len() < 2 {
            return Err(DecodeError::UnexpectedEnd);
        }
        let last: u8 = data[1];
        let both: u16 = ((first - 0x80) as u16) * 0x100 + (last as u16);
        Ok((VarU16(both), 2))
    }

    /// Reads a value from the head of `data`.
    pub fn decode(data: &[u8]) -> (r: Result<Self, DecodeError>)
        ensures
            match spec_decode(data@) {
                Some((v, _)) => r is Ok && r->Ok_0@ == v,
                None => r == Err::<Self, DecodeError>(DecodeError::UnexpectedEnd),
            },
    {
        match Self::decode_prefix(data) {
            Ok((v, _)) => Ok(v),
            Err(e) => Err(e),
        }
    }
}

/// Decoding the encoding of any value up to `VAR_U16_MAX` gives that value
/// back and takes every byte of it, whatever follows.
pub proof fn lemma_decode_encode(v: u16, rest: Seq<u8>)
    requires
        v <= VAR_U16_MAX,
    ensures
        spec_decode(spec_encode(v) + rest) == Some((v, spec_encode(v).len())),
        spec_encode(v).len() == if v < 0x80 { 1nat } else { 2nat },
{
    let s = spec_encode(v) + rest;
    if v < 0x80 {
        assert(s[0] == v as u8);
    } else {
        assert(s[0] == (v / 0x100 + 0x80) as u8);
        assert(s[1] == (v % 0x100) as u8);
        assert((s[0] - 0x80) * 0x100 + s[1] == v);
    }
}

/// Whether the head of `s` is the shortest form of the value it carries.
pub open spec fn spec_canonical(s: Seq<u8>) -> bool {
    spec_decode(s) matches Some((v, n)) && (n == 2 ==> v >= 0x80)
}

/// Whatever decodes is at most `VAR_U16_MAX`, and encoding it gives back the
/// bytes it was read from where those were the shortest form.
pub proof fn lemma_encode_decode(s: Seq<u8>)
    requires
        spec_decode(s) is Some,
    ensures
        spec_decode(s)->Some_0.0 <= VAR_U16_MAX,
        spec_decode(s)->Some_0.1 <= s.len(),
        spec_canonical(s) ==> spec_encode(spec_decode(s)->Some_0.0) == s.subrange(
            0,
            spec_decode(s)->Some_0.1 as int,
        ),
{
    if !spec_wide(s[0]) {
        assert(spec_encode(s[0] as u16) =~= s.subrange(0, 1));
    } else {
        let v = spec_decode(s)->Some_0.0;
        assert(v == (s[0] - 0x80) * 0x100 + s[1]);
        assert(v >= 0x80 ==> v / 0x100 + 0x80 == s[0] && v % 0x100 == s[1]) by (nonlinear_arith)
            requires
                v == (s[0] - 0x80) * 0x100 + s[1],
                0x80 <= s[0] < 0x100,
                0 <= s[1] < 0x100,
        ;
        if v >= 0x80 {
            assert(spec_encode(v) =~= s.subrange(0, 2));
        }
    }
}

} // verus!
