//! Fixed-width big-endian integer encodings.

use vstd::prelude::*;

verus! {

/// The eight bytes of `x`, most significant first.
pub open spec fn be64(x: u64) -> Seq<u8> {
    seq![
        (x >> 56u64) as u8,
        (x >> 48u64) as u8,
        (x >> 40u64) as u8,
        (x >> 32u64) as u8,
        (x >> 24u64) as u8,
        (x >> 16u64) as u8,
        (x >> 8u64) as u8,
        x as u8,
    ]
}

/// The two bytes of `x`, most significant first.
pub open spec fn be16(x: u16) -> Seq<u8> {
    seq![(x >> 8u16) as u8, x as u8]
}

/// The integer whose big-endian form starts `s` (its first eight bytes).
pub open spec fn u64_from_be(s: Seq<u8>) -> u64
    recommends
        s.len() >= 8,
{
    ((s[0] as u64) << 56u64) | ((s[1] as u64) << 48u64) | ((s[2] as u64) << 40u64) | ((
    s[3] as u64) << 32u64) | ((s[4] as u64) << 24u64) | ((s[5] as u64) << 16u64) | ((
    s[6] as u64) << 8u64) | (s[7] as u64)
}

/// The integer whose big-endian form starts `s` (its first two bytes).
pub open spec fn u16_from_be(s: Seq<u8>) -> u16
    recommends
        s.len() >= 2,
{
    ((s[0] as u16) << 8u16) | (s[1] as u16)
}

/// Appends the big-endian form of `x` to `out`.
pub fn push_be64(out: &mut Vec<u8>, x: u64)
    ensures
        final(out)@ == old(out)@ + be64(x),
{
    out.push((x >> 56u64) as u8);
    out.push((x >> 48u64) as u8);
    out.push((x >> 40u64) as u8);
    out.push((x >> 32u64) as u8);
    out.push((x >> 24u64) as u8);
    out.push((x >> 16u64) as u8);
    out.push((x >> 8u64) as u8);
    out.push(x as u8);
    assert(final(out)@ =~= old(out)@ + be64(x));
}

/// Appends the big-endian form of `x` to `out`.
pub fn push_be16(out: &mut Vec<u8>, x: u16)
    ensures
        final(out)@ == old(out)@ + be16(x),
{
    out.push((x >> 8u16) as u8);
    out.push(x as u8);
    assert(final(out)@ =~= old(out)@ + be16(x));
}

/// Reads the big-endian integer in the first eight bytes of `s`.
pub fn read_be64(s: &[u8]) -> (r: u64)
    requires
        s@.len() >= 8,
    ensures
        r == u64_from_be(s@),
{
    ((s[0] as u64) << 56u64) | ((s[1] as u64) << 48u64) | ((s[2] as u64) << 40u64) | ((
    s[3] as u64) << 32u64) | ((s[4] as u64) << 24u64) | ((s[5] as u64) << 16u64) | ((
    s[6] as u64) << 8u64) | (s[7] as u64)
}

/// Reads the big-endian integer in the first two bytes of `s`.
pub fn read_be16(s: &[u8]) -> (r: u16)
    requires
        s@.len() >= 2,
    ensures
        r == u16_from_be(s@),
{
    ((s[0] as u16) << 8u16) | (s[1] as u16)
}

/// A vector holding the bytes of `s`.
pub fn copy_bytes(s: &[u8]) -> (r: Vec<u8>)
    ensures
        r@ == s@,
{
    let mut r: Vec<u8> = Vec::with_capacity(s.len());
    let mut i: usize = 0;
    while i < s.len()
        invariant
            i <= s@.len(),
            r@ == s@.subrange(0, i as int),
        decreases s@.len() - i,
    {
        r.push(s[i]);
        i = i + 1;
        assert(r@ =~= s@.subrange(0, i as int));
    }
    assert(s@.subrange(0, i as int) =~= s@);
    r
}

/// Reading back a two-byte big-endian form gives the integer that was written.
pub proof fn lemma_be16_round_trip(x: u16)
    ensures
        u16_from_be(be16(x)) == x,
{
    let hi = (x >> 8u16) as u8;
    let lo = x as u8;
    assert((((hi as u16) << 8u16) | (lo as u16)) == x) by (bit_vector)
        requires
            hi == (x >> 8u16) as u8,
            lo == x as u8,
    ;
}

} // verus!
