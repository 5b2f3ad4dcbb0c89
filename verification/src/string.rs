//! The two string fields of the wire format.
//!
//! A fixed-length string of capacity `N` always takes `N + 1` bytes: its own
//! bytes, then zeros up to the end of the field. A variable-length string
//! takes its own bytes and one terminating zero.

use vstd::prelude::*;
use vstd::string::is_ascii;
use crate::errors::{DecodeError, EncodeError};
use crate::wire::{append, copy_range};

verus! {

/// The bytes of a text whose characters are all ASCII.
pub open spec fn ascii_seq(chars: Seq<char>) -> Seq<u8> {
    Seq::new(chars.len(), |i: int| chars[i] as u8)
}

/// `n` zero bytes.
pub open spec fn zeros(n: nat) -> Seq<u8> {
    Seq::new(n, |i: int| 0u8)
}

/// The number of bytes of `s` that stand before its first zero byte; the
/// length of `s` where it holds none.
pub open spec fn nul_index(s: Seq<u8>) -> nat
    decreases s.len(),
{
    if s.len() == 0 || s[0] == 0 {
        0
    } else {
        1 + nul_index(s.drop_first())
    }
}

/// Whether `s` holds no zero byte.
pub open spec fn nul_free(s: Seq<u8>) -> bool {
    forall|i: int| 0 <= i < s.len() ==> s[i] != 0
}

/// The field of capacity `n` that holds `s`.
pub open spec fn spec_encode_fixed(s: Seq<u8>, n: nat) -> Seq<u8>
    recommends
        s.len() <= n,
{
    s + zeros((n + 1 - s.len()) as nat)
}

/// The string held by the field of capacity `n` at the head of `data`, or
/// `None` where `data` is shorter than the field.
pub open spec fn spec_decode_fixed(data: Seq<u8>, n: nat) -> Option<Seq<u8>> {
    if data.len() < n + 1 {
        None
    } else {
        let field = data.subrange(0, n as int);
        Some(field.subrange(0, nul_index(field) as int))
    }
}

/// The bytes of a terminated string.
pub open spec fn spec_encode_var(s: Seq<u8>) -> Seq<u8> {
    s.push(0)
}

/// The terminated string of at most `n` bytes at the head of `data`.
pub open spec fn spec_decode_var(data: Seq<u8>, n: nat) -> Result<Seq<u8>, DecodeError> {
    let end = nul_index(data);
    if end > n {
        Err(DecodeError::StringTooLong)
    } else if end == data.len() {
        Err(DecodeError::UnexpectedEnd)
    } else {
        Ok(data.subrange(0, end as int))
    }
}

/// `ascii::AsAsciiStr::as_ascii_str` on a `str`, followed by
/// `ascii::AsciiStr::as_bytes`. The first accepts a text exactly when each of
/// its characters is ASCII; the second hands out one byte for each character,
/// the character's code.
#[verifier::external_body]
fn ascii_bytes(text: &str) -> (r: Option<Vec<u8>>)
    ensures
        r is Some <==> is_ascii(text),
        r matches Some(bytes) ==> bytes@ == ascii_seq(text@),
{
    match ascii::AsAsciiStr::as_ascii_str(text) {
        Ok(ascii) => Some(ascii.as_bytes().to_vec()),
        Err(_) => None,
    }
}

/// The index of the first zero byte among the first `limit` bytes of `data`,
/// or `limit` where there is none.
fn find_nul(data: &[u8], limit: usize) -> (r: usize)
    requires
        limit <= data@.len(),
    ensures
        r == nul_index(data@.subrange(0, limit as int)),
        r <= limit,
{
    let ghost field = data@.subrange(0, limit as int);
    assert(field.subrange(0, limit as int) =~= field);
    let mut i: usize = 0;
    while i < limit && data[i] != 0
        invariant
            i <= limit <= data@.len(),
            field == data@.subrange(0, limit as int),
            nul_index(field) == i + nul_index(field.subrange(i as int, limit as int)),
        decreases limit - i,
    {
        proof {
            let rest = field.subrange(i as int, limit as int);
            assert(rest[0] == data@[i as int]);
            assert(rest.drop_first() =~= field.subrange(i + 1, limit as int));
        }
        i = i + 1;
    }
    proof {
        let rest = field.subrange(i as int, limit as int);
        if i < limit {
            assert(rest[0] == data@[i as int]);
        }
        assert(field.subrange(0, limit as int) =~= field);
    }
    i
}

/// An ASCII string of at most `N` bytes that travels in a field of `N + 1`.
#[derive(Debug, PartialEq, Eq)]
pub struct FixedLengthString<const N: usize> {
    bytes: Vec<u8>,
}

impl<const N: usize> Clone for FixedLengthString<N> {
    fn clone(&self) -> (r: Self)
        ensures
            r@ == self@,
    {
        proof {
            use_type_invariant(self);
        }
        let bytes = copy_range(self.bytes.as_slice(), 0, self.bytes.len());
        assert(bytes@ =~= self.bytes@);
        FixedLengthString { bytes }
    }
}

impl<const N: usize> View for FixedLengthString<N> {
    type V = Seq<u8>;

    closed spec fn view(&self) -> Seq<u8> {
        self.bytes@
    }
}

impl<const N: usize> FixedLengthString<N> {
    #[verifier::type_invariant]
    closed spec fn fits(self) -> bool {
        self.bytes@.len() <= N
    }

    /// Makes the string from a text, which must be ASCII and no longer than
    /// the capacity.
    pub fn new(text: &str) -> (r: Result<Self, EncodeError>)
        ensures
            !is_ascii(text) ==> r == Err::<Self, EncodeError>(EncodeError::NotAscii),
            is_ascii(text) && text@.len() > N ==> r == Err::<Self, EncodeError>(
                EncodeError::StringTooLong,
            ),
            is_ascii(text) && text@.len() <= N ==> r is Ok && r->Ok_0@ == ascii_seq(text@),
    {
        match ascii_bytes(text) {
            None => Err(EncodeError::NotAscii),
            Some(bytes) => Self::from_bytes(bytes),
        }
    }

    /// Makes the string from its bytes, which must be no more than the
    /// capacity.
    pub fn from_bytes(bytes: Vec<u8>) -> (r: Result<Self, EncodeError>)
        ensures
            bytes@.len() > N ==> r == Err::<Self, EncodeError>(EncodeError::StringTooLong),
            bytes@.len() <= N ==> r is Ok && r->Ok_0@ == bytes@,
    {
        if bytes.len() > N {
            Err(EncodeError::StringTooLong)
        } else {
            Ok(FixedLengthString { bytes })
        }
    }

    /// The bytes of the string.
    pub fn as_bytes(&self) -> (r: &[u8])
        ensures
            r@ == self@,
            r@.len() <= N,
    {
        proof {
            use_type_invariant(self);
        }
        self.bytes.as_slice()
    }

    /// The `N + 1` bytes of the field.
    pub fn encode(&self) -> (r: Vec<u8>)
        requires
            N < usize::MAX,
        ensures
            r@ == spec_encode_fixed(self@, N as nat),
            r@.len() == N + 1,
    {
        proof {
            use_type_invariant(self);
        }
        let mut out: Vec<u8> = Vec::new();
        append(&mut out, self.bytes.as_slice());
        while out.len() < N + 1
            invariant
                N < usize::MAX,
                self.bytes@.len() <= out@.len() <= N + 1,
                out@ == self.bytes@ + zeros((out@.len() - self.bytes@.len()) as nat),
            decreases N + 1 - out@.len(),
        {
            out.push(0);
            assert(out@ =~= self.bytes@ + zeros((out@.len() - self.bytes@.len()) as nat));
        }
        out
    }

    /// Reads the field at the head of `data`: the bytes before the first
    /// zero among its first `N`.
    pub fn decode(data: &[u8]) -> (r: Result<Self, DecodeError>)
        requires
            N < usize::MAX,
        ensures
            match spec_decode_fixed(data@, N as nat) {
                Some(s) => r is Ok && r->Ok_0@ == s,
                None => r == Err::<Self, DecodeError>(DecodeError::UnexpectedEnd),
            },
    {
        if data.len() < N + 1 {
            return Err(DecodeError::UnexpectedEnd);
        }
        Ok(Self::decode_field(data))
    }

    /// Reads the field at the head of `data`, which is known to hold all of
    /// it.
    pub(crate) fn decode_field(data: &[u8]) -> (r: Self)
        requires
            N < data@.len(),
        ensures
            spec_decode_fixed(data@, N as nat) == Some(r@),
    {
        let end: usize = find_nul(data, N);
        let bytes = copy_range(data, 0, end);
        assert(bytes@ =~= data@.subrange(0, N as int).subrange(0, end as int));
        FixedLengthString { bytes }
    }

    /// Makes the string from bytes that are known to fit.
    pub(crate) fn from_short(bytes: Vec<u8>) -> (r: Self)
        requires
            bytes@.len() <= N,
        ensures
            r@ == bytes@,
    {
        FixedLengthString { bytes }
    }
}

/// A terminated ASCII string of at most `N` bytes.
#[derive(Debug, PartialEq, Eq)]
pub struct VarLengthString<const N: usize> {
    bytes: Vec<u8>,
}

impl<const N: usize> Clone for VarLengthString<N> {
    fn clone(&self) -> (r: Self)
        ensures
            r@ == self@,
    {
        proof {
            use_type_invariant(self);
        }
        let bytes = copy_range(self.bytes.as_slice(), 0, self.bytes.len());
        assert(bytes@ =~= self.bytes@);
        VarLengthString { bytes }
    }
}

impl<const N: usize> View for VarLengthString<N> {
    type V = Seq<u8>;

    closed spec fn view(&self) -> Seq<u8> {
        self.bytes@
    }
}

impl<const N: usize> VarLengthString<N> {
    #[verifier::type_invariant]
    closed spec fn fits(self) -> bool {
        self.bytes@.len() <= N
    }

    /// Makes the string from a text, which must be ASCII and no longer than
    /// the capacity.
    pub fn new(text: &str) -> (r: Result<Self, EncodeError>)
        ensures
            !is_ascii(text) ==> r == Err::<Self, EncodeError>(EncodeError::NotAscii),
            is_ascii(text) && text@.len() > N ==> r == Err::<Self, EncodeError>(
                EncodeError::StringTooLong,
            ),
            is_ascii(text) && text@.len() <= N ==> r is Ok && r->Ok_0@ == ascii_seq(text@),
    {
        match ascii_bytes(text) {
            None => Err(EncodeError::NotAscii),
            Some(bytes) => Self::from_bytes(bytes),
        }
    }

    /// Makes the string from its bytes, which must be no more than the
    /// capacity.
    pub fn from_bytes(bytes: Vec<u8>) -> (r: Result<Self, EncodeError>)
        ensures
            bytes@.len() > N ==> r == Err::<Self, EncodeError>(EncodeError::StringTooLong),
            bytes@.len() <= N ==> r is Ok && r->Ok_0@ == bytes@,
    {
        if bytes.len() > N {
            Err(EncodeError::StringTooLong)
        } else {
            Ok(VarLengthString { bytes })
        }
    }

    /// The bytes of the string, without the terminator.
    pub fn as_bytes(&self) -> (r: &[u8])
        ensures
            r@ == self@,
            r@.len() <= N,
    {
        proof {
            use_type_invariant(self);
        }
        self.bytes.as_slice()
    }

    /// The bytes of the string and its terminator.
    pub fn encode(&self) -> (r: Vec<u8>)
        ensures
            r@ == spec_encode_var(self@),
            r@.len() == self@.len() + 1,
            r@.len() <= N + 1,
    {
        proof {
            use_type_invariant(self);
        }
        let mut out: Vec<u8> = Vec::new();
        append(&mut out, self.bytes.as_slice());
        out.push(0);
        assert(out@ =~= spec_encode_var(self@));
        out
    }

    /// Reads the terminated string at the head of `data`, and says how many
    /// bytes it took, the terminator included.
    pub fn decode(data: &[u8]) -> (r: Result<(Self, usize), DecodeError>)
        ensures
            match spec_decode_var(data@, N as nat) {
                Ok(s) => r is Ok && r->Ok_0.0@ == s && r->Ok_0.1 == s.len() + 1,
                Err(e) => r is Err && r->Err_0 == e,
            },
    {
        let limit: usize = if data.len() <= N {
            data.len()
        } else {
            N + 1
        };
        let end: usize = find_nul(data, limit);
        proof {
            lemma_nul_index_prefix(data@, limit as int);
            lemma_nul_index(data@);
        }
        if end > N {
            return Err(DecodeError::StringTooLong);
        }
        if end == data.len() {
            return Err(DecodeError::UnexpectedEnd);
        }
        let bytes = copy_range(data, 0, end);
        Ok((VarLengthString { bytes }, end + 1))
    }
}

/// `nul_index` is the one index that has no zero byte before it and either a
/// zero byte at it or nothing.
pub proof fn lemma_nul_index(s: Seq<u8>)
    ensures
        nul_index(s) <= s.len(),
        nul_free(s.subrange(0, nul_index(s) as int)),
        nul_index(s) < s.len() ==> s[nul_index(s) as int] == 0,
        nul_free(s) <==> nul_index(s) == s.len(),
    decreases s.len(),
{
    if s.len() == 0 || s[0] == 0 {
    } else {
        let t = s.drop_first();
        lemma_nul_index(t);
        let k = nul_index(s) as int;
        assert forall|i: int| 0 <= i < k implies s.subrange(0, k)[i] != 0 by {
            if i > 0 {
                assert(t.subrange(0, k - 1)[i - 1] == s[i]);
            }
        }
        if nul_free(s) {
            assert forall|i: int| 0 <= i < t.len() implies t[i] != 0 by {
                assert(t[i] == s[i + 1]);
            }
        }
        if nul_index(s) == s.len() {
            assert forall|i: int| 0 <= i < s.len() implies s[i] != 0 by {
                if i > 0 {
                    assert(t[i - 1] == s[i]);
                }
            }
        }
    }
}

/// Looking at a prefix of `s` finds the first zero byte of `s`, unless the
/// prefix ends before it.
pub proof fn lemma_nul_index_prefix(s: Seq<u8>, limit: int)
    requires
        0 <= limit <= s.len(),
    ensures
        nul_index(s.subrange(0, limit)) == if nul_index(s) < limit {
            nul_index(s)
        } else {
            limit as nat
        },
    decreases limit,
{
    let p = s.subrange(0, limit);
    if limit == 0 || s[0] == 0 {
    } else {
        lemma_nul_index_prefix(s.drop_first(), limit - 1);
        assert(p.drop_first() =~= s.drop_first().subrange(0, limit - 1));
    }
}

/// A string without a zero byte comes back from its field as it went in.
pub proof fn lemma_fixed_round_trip(s: Seq<u8>, n: nat, rest: Seq<u8>)
    requires
        s.len() <= n,
        nul_free(s),
    ensures
        spec_encode_fixed(s, n).len() == n + 1,
        spec_decode_fixed(spec_encode_fixed(s, n) + rest, n) == Some(s),
{
    let data = spec_encode_fixed(s, n) + rest;
    let field = data.subrange(0, n as int);
    lemma_nul_index(field);
    let k = nul_index(field) as int;
    assert(forall|i: int| 0 <= i < s.len() ==> field[i] == s[i]);
    if k < s.len() {
        assert(field[k] == 0);
    }
    if k > s.len() {
        assert(field.subrange(0, k)[s.len() as int] != 0);
        assert(field[s.len() as int] == 0);
    }
    assert(field.subrange(0, k) =~= s);
}

/// A string without a zero byte comes back from its terminated form as it
/// went in, whatever follows the terminator.
pub proof fn lemma_var_round_trip(s: Seq<u8>, n: nat, rest: Seq<u8>)
    requires
        s.len() <= n,
        nul_free(s),
    ensures
        spec_decode_var(spec_encode_var(s) + rest, n) == Ok::<Seq<u8>, DecodeError>(s),
{
    let data = spec_encode_var(s) + rest;
    lemma_nul_index(data);
    let k = nul_index(data) as int;
    assert(forall|i: int| 0 <= i < s.len() ==> data[i] == s[i]);
    assert(data[s.len() as int] == 0);
    if k < s.len() {
        assert(data[k] == 0);
    }
    if k > s.len() {
        assert(data.subrange(0, k)[s.len() as int] != 0);
    }
    assert(data.subrange(0, k) =~= s);
}

} // verus!
