//! Small verified helpers on byte vectors.

use vstd::prelude::*;

verus! {

/// Compare two byte vectors for equality of contents.
pub fn bytes_eq(a: &Vec<u8>, b: &Vec<u8>) -> (r: bool)
    ensures
        r == (a@ == b@),
{
    if a.len() != b.len() {
        assert(a@.len() != b@.len());
        return false;
    }
    let n = a.len();
    let mut i: usize = 0;
    while i < n
        invariant
            n == a@.len() == b@.len(),
            0 <= i <= n,
            forall|j: int| 0 <= j < i ==> a@[j] == b@[j],
        decreases n - i,
    {
        if a[i] != b[i] {
            return false;
        }
        i += 1;
    }
    proof {
        assert(a@ =~= b@);
    }
    true
}

/// Copy a byte vector.
pub fn bytes_dup(a: &Vec<u8>) -> (r: Vec<u8>)
    ensures
        r@ == a@,
{
    let n = a.len();
    let mut r: Vec<u8> = Vec::new();
    let mut i: usize = 0;
    while i < n
        invariant
            n == a@.len(),
            0 <= i <= n,
            r@ == a@.take(i as int),
        decreases n - i,
    {
        r.push(a[i]);
        assert(r@ =~= a@.take(i + 1 as int));
        i += 1;
    }
    proof {
        assert(a@.take(n as int) =~= a@);
    }
    r
}

/// The eight little-endian bytes of a 64-bit word.
pub open spec fn u64_le_bytes(x: u64) -> Seq<u8> {
    seq![
        (x & 0xff) as u8,
        ((x >> 8) & 0xff) as u8,
        ((x >> 16) & 0xff) as u8,
        ((x >> 24) & 0xff) as u8,
        ((x >> 32) & 0xff) as u8,
        ((x >> 40) & 0xff) as u8,
        ((x >> 48) & 0xff) as u8,
        ((x >> 56) & 0xff) as u8,
    ]
}

/// The 64-bit word read from eight little-endian bytes.
pub open spec fn u64_from_le(s: Seq<u8>) -> u64
    recommends
        s.len() == 8,
{
    (s[0] as u64) | (s[1] as u64) << 8 | (s[2] as u64) << 16 | (s[3] as u64) << 24 | (
    s[4] as u64) << 32 | (s[5] as u64) << 40 | (s[6] as u64) << 48 | (s[7] as u64) << 56
}

/// Reading back the little-endian bytes of a word gives the word: the
/// encoding is injective.
pub proof fn lemma_u64_le_roundtrip(x: u64)
    ensures
        u64_from_le(u64_le_bytes(x)) == x,
        u64_le_bytes(x).len() == 8,
{
    assert((x & 0xff) | ((x >> 8) & 0xff) << 8 | ((x >> 16) & 0xff) << 16 | ((x >> 24)
        & 0xff) << 24 | ((x >> 32) & 0xff) << 32 | ((x >> 40) & 0xff) << 40 | ((x >> 48)
        & 0xff) << 48 | ((x >> 56) & 0xff) << 56 == x) by (bit_vector);
    assert(((x & 0xff) as u8) as u64 == (x & 0xff)) by (bit_vector);
    assert((((x >> 8) & 0xff) as u8) as u64 == ((x >> 8) & 0xff)) by (bit_vector);
    assert((((x >> 16) & 0xff) as u8) as u64 == ((x >> 16) & 0xff)) by (bit_vector);
    assert((((x >> 24) & 0xff) as u8) as u64 == ((x >> 24) & 0xff)) by (bit_vector);
    assert((((x >> 32) & 0xff) as u8) as u64 == ((x >> 32) & 0xff)) by (bit_vector);
    assert((((x >> 40) & 0xff) as u8) as u64 == ((x >> 40) & 0xff)) by (bit_vector);
    assert((((x >> 48) & 0xff) as u8) as u64 == ((x >> 48) & 0xff)) by (bit_vector);
    assert((((x >> 56) & 0xff) as u8) as u64 == ((x >> 56) & 0xff)) by (bit_vector);
}

/// Append the little-endian bytes of `x`.
pub fn push_u64_le(out: &mut Vec<u8>, x: u64)
    ensures
        final(out)@ == old(out)@ + u64_le_bytes(x),
{
    out.push((x & 0xff) as u8);
    out.push(((x >> 8) & 0xff) as u8);
    out.push(((x >> 16) & 0xff) as u8);
    out.push(((x >> 24) & 0xff) as u8);
    out.push(((x >> 32) & 0xff) as u8);
    out.push(((x >> 40) & 0xff) as u8);
    out.push(((x >> 48) & 0xff) as u8);
    out.push(((x >> 56) & 0xff) as u8);
    proof {
        assert(out@ =~= old(out)@ + u64_le_bytes(x));
    }
}

/// Read a 64-bit word from eight little-endian bytes at `pos`.
pub fn read_u64_le(buf: &Vec<u8>, pos: usize) -> (r: u64)
    requires
        pos + 8 <= buf@.len(),
    ensures
        r == u64_from_le(buf@.subrange(pos as int, pos + 8)),
{
    let len = buf.len();
    let r = (buf[pos] as u64) | (buf[pos + 1] as u64) << 8 | (buf[pos + 2] as u64) << 16 | (
    buf[pos + 3] as u64) << 24 | (buf[pos + 4] as u64) << 32 | (buf[pos + 5] as u64) << 40 | (
    buf[pos + 6] as u64) << 48 | (buf[pos + 7] as u64) << 56;
    proof {
        let s = buf@.subrange(pos as int, pos + 8);
        assert(forall|i: int| 0 <= i < 8 ==> s[i] == buf@[pos + i]);
    }
    r
}

/// Append all bytes of `src`.
pub fn push_bytes(out: &mut Vec<u8>, src: &Vec<u8>)
    ensures
        final(out)@ == old(out)@ + src@,
{
    let n = src.len();
    let mut i: usize = 0;
    while i < n
        invariant
            n == src@.len(),
            0 <= i <= n,
            out@ == old(out)@ + src@.take(i as int),
        decreases n - i,
    {
        out.push(src[i]);
        assert(out@ =~= old(out)@ + src@.take(i + 1 as int));
        i += 1;
    }
    proof {
        assert(src@.take(n as int) =~= src@);
    }
}

/// Copy `n` bytes starting at `pos`.
pub fn read_bytes(buf: &Vec<u8>, pos: usize, n: usize) -> (r: Vec<u8>)
    requires
        pos + n <= buf@.len(),
    ensures
        r@ == buf@.subrange(pos as int, pos + n),
{
    let len = buf.len();
    let mut r: Vec<u8> = Vec::new();
    let mut i: usize = 0;
    while i < n
        invariant
            pos + n <= len == buf@.len(),
            0 <= i <= n,
            r@ == buf@.subrange(pos as int, pos + i),
        decreases n - i,
    {
        r.push(buf[pos + i]);
        assert(r@ =~= buf@.subrange(pos as int, pos + i + 1));
        i += 1;
    }
    r
}

} // verus!
