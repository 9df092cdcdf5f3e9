//! Big-endian integer encoding and small byte-sequence helpers.

use vstd::prelude::*;

verus! {

/// The four big-endian bytes of `n`.
pub open spec fn spec_u32_be(n: u32) -> Seq<u8> {
    seq![
        ((n >> 24) & 0xff) as u8,
        ((n >> 16) & 0xff) as u8,
        ((n >> 8) & 0xff) as u8,
        (n & 0xff) as u8,
    ]
}

/// The integer whose big-endian bytes are `b0 b1 b2 b3`.
pub open spec fn spec_u32_from_be(b0: u8, b1: u8, b2: u8, b3: u8) -> u32 {
    ((b0 as u32) << 24) | ((b1 as u32) << 16) | ((b2 as u32) << 8) | (b3 as u32)
}

/// The integer encoded big-endian by the four bytes of `s` starting at `at`.
pub open spec fn spec_read_u32_be(s: Seq<u8>, at: int) -> u32
    recommends
        0 <= at,
        at + 4 <= s.len(),
{
    spec_u32_from_be(s[at], s[at + 1], s[at + 2], s[at + 3])
}

/// The eight big-endian bytes of `n`.
pub open spec fn spec_u64_be(n: u64) -> Seq<u8> {
    spec_u32_be((n >> 32) as u32) + spec_u32_be((n & 0xffff_ffff) as u32)
}

/// The integer encoded big-endian by the eight bytes of `s` starting at `at`.
pub open spec fn spec_read_u64_be(s: Seq<u8>, at: int) -> u64
    recommends
        0 <= at,
        at + 8 <= s.len(),
{
    ((spec_read_u32_be(s, at) as u64) << 32) | (spec_read_u32_be(s, at + 4) as u64)
}

/// Reading back the big-endian bytes of a 32-bit integer gives the integer.
pub proof fn lemma_u32_be_roundtrip(n: u32)
    ensures
        spec_u32_be(n).len() == 4,
        spec_read_u32_be(spec_u32_be(n), 0) == n,
{
    let b0 = ((n >> 24) & 0xff) as u8;
    let b1 = ((n >> 16) & 0xff) as u8;
    let b2 = ((n >> 8) & 0xff) as u8;
    let b3 = (n & 0xff) as u8;
    assert(spec_u32_from_be(
        ((n >> 24) & 0xff) as u8,
        ((n >> 16) & 0xff) as u8,
        ((n >> 8) & 0xff) as u8,
        (n & 0xff) as u8,
    ) == n) by (bit_vector);
}

/// Reading back the big-endian bytes of a 64-bit integer gives the integer.
pub proof fn lemma_u64_be_roundtrip(n: u64)
    ensures
        spec_u64_be(n).len() == 8,
        spec_read_u64_be(spec_u64_be(n), 0) == n,
{
    let hi = (n >> 32) as u32;
    let lo = (n & 0xffff_ffff) as u32;
    lemma_u32_be_roundtrip(hi);
    lemma_u32_be_roundtrip(lo);
    let s = spec_u64_be(n);
    assert(s[0] == spec_u32_be(hi)[0] && s[1] == spec_u32_be(hi)[1] && s[2] == spec_u32_be(hi)[2]
        && s[3] == spec_u32_be(hi)[3]);
    assert(s[4] == spec_u32_be(lo)[0] && s[5] == spec_u32_be(lo)[1] && s[6] == spec_u32_be(lo)[2]
        && s[7] == spec_u32_be(lo)[3]);
    assert(spec_read_u32_be(s, 0) == hi);
    assert(spec_read_u32_be(s, 4) == lo);
    assert((((n >> 32) as u32 as u64) << 32) | ((n & 0xffff_ffff) as u32 as u64) == n)
        by (bit_vector);
}

/// Appends the big-endian bytes of `n` to `out`.
pub fn push_u32_be(out: &mut Vec<u8>, n: u32)
    ensures
        final(out)@ == old(out)@ + spec_u32_be(n),
{
    let b0: u8 = #[verifier::truncate] (((n >> 24) & 0xff) as u8);
    let b1: u8 = #[verifier::truncate] (((n >> 16) & 0xff) as u8);
    let b2: u8 = #[verifier::truncate] (((n >> 8) & 0xff) as u8);
    let b3: u8 = #[verifier::truncate] ((n & 0xff) as u8);
    out.push(b0);
    out.push(b1);
    out.push(b2);
    out.push(b3);
    assert(out@ =~= old(out)@ + spec_u32_be(n));
}

/// Appends the big-endian bytes of `n` to `out`.
pub fn push_u64_be(out: &mut Vec<u8>, n: u64)
    ensures
        final(out)@ == old(out)@ + spec_u64_be(n),
{
    let hi: u32 = #[verifier::truncate] ((n >> 32) as u32);
    let lo: u32 = #[verifier::truncate] ((n & 0xffff_ffff) as u32);
    push_u32_be(out, hi);
    push_u32_be(out, lo);
    assert(out@ =~= old(out)@ + spec_u64_be(n));
}

/// Reads the big-endian 32-bit integer at `at`.
pub fn read_u32_be(data: &[u8], at: usize) -> (n: u32)
    requires
        at + 4 <= data@.len(),
    ensures
        n == spec_read_u32_be(data@, at as int),
{
    let len: usize = data.len();
    assert(at + 4 <= len);
    let b0: u32 = data[at] as u32;
    let b1: u32 = data[at + 1] as u32;
    let b2: u32 = data[at + 2] as u32;
    let b3: u32 = data[at + 3] as u32;
    (b0 << 24) | (b1 << 16) | (b2 << 8) | b3
}

/// Reads the big-endian 64-bit integer at `at`.
pub fn read_u64_be(data: &[u8], at: usize) -> (n: u64)
    requires
        at + 8 <= data@.len(),
    ensures
        n == spec_read_u64_be(data@, at as int),
{
    let len: usize = data.len();
    assert(at + 8 <= len);
    let hi: u64 = read_u32_be(data, at) as u64;
    let lo: u64 = read_u32_be(data, at + 4) as u64;
    (hi << 32) | lo
}

/// Appends every byte of `src` to `out`.
pub fn extend_bytes(out: &mut Vec<u8>, src: &[u8])
    ensures
        final(out)@ == old(out)@ + src@,
{
    let mut i: usize = 0;
    while i < src.len()
        invariant
            i <= src@.len(),
            out@ == old(out)@ + src@.subrange(0, i as int),
        decreases src@.len() - i,
    {
        out.push(src[i]);
        i = i + 1;
        assert(out@ =~= old(out)@ + src@.subrange(0, i as int));
    }
    assert(src@.subrange(0, i as int) =~= src@);
}

/// A fresh vector holding `data[from..to]`.
pub fn copy_range(data: &[u8], from: usize, to: usize) -> (out: Vec<u8>)
    requires
        from <= to,
        to <= data@.len(),
    ensures
        out@ == data@.subrange(from as int, to as int),
{
    let mut out: Vec<u8> = Vec::new();
    let mut i: usize = from;
    while i < to
        invariant
            from <= i,
            i <= to,
            to <= data@.len(),
            out@ == data@.subrange(from as int, i as int),
        decreases to - i,
    {
        out.push(data[i]);
        i = i + 1;
        assert(out@ =~= data@.subrange(from as int, i as int));
    }
    out
}

/// Whether two byte strings hold the same bytes.
pub fn bytes_equal(a: &[u8], b: &[u8]) -> (r: bool)
    ensures
        r == (a@ == b@),
{
    if a.len() != b.len() {
        return false;
    }
    let mut i: usize = 0;
    while i < a.len()
        invariant
            i <= a@.len(),
            a@.len() == b@.len(),
            a@.subrange(0, i as int) == b@.subrange(0, i as int),
        decreases a@.len() - i,
    {
        if a[i] != b[i] {
            assert(a@[i as int] != b@[i as int]);
            return false;
        }
        i = i + 1;
        assert(a@.subrange(0, i as int) =~= a@.subrange(0, i - 1).push(a@[i - 1]));
        assert(b@.subrange(0, i as int) =~= b@.subrange(0, i - 1).push(b@[i - 1]));
    }
    assert(a@.subrange(0, i as int) =~= a@);
    assert(b@.subrange(0, i as int) =~= b@);
    true
}

/// The `N` bytes of `data` that start at `from`, as an array.
pub fn array_from_slice<const N: usize>(data: &[u8], from: usize) -> (r: [u8; N])
    requires
        from + N <= data@.len(),
    ensures
        r@ == data@.subrange(from as int, from + N),
{
    let len: usize = data.len();
    let mut out: [u8; N] = [0u8; N];
    let mut i: usize = 0;
    while i < N
        invariant
            i <= N,
            from + N <= len,
            len == data@.len(),
            forall|j: int| 0 <= j < i ==> out@[j] == data@[from + j],
        decreases N - i,
    {
        out[i] = data[from + i];
        i = i + 1;
    }
    assert(out@ =~= data@.subrange(from as int, from + N));
    out
}

} // verus!
