//! Fixed-size byte strings and the little-endian form of integers.

use vstd::prelude::*;

verus! {

/// Byte `i` of the little-endian form of `x`.
pub open spec fn le_byte(x: u64, i: int) -> u8 {
    ((x as int / pow256(i)) % 256) as u8
}

/// 256 to the power `i`, for the eight byte positions of a `u64`.
pub open spec fn pow256(i: int) -> int {
    if i <= 0 {
        1
    } else if i == 1 {
        0x100
    } else if i == 2 {
        0x1_0000
    } else if i == 3 {
        0x100_0000
    } else if i == 4 {
        0x1_0000_0000
    } else if i == 5 {
        0x100_0000_0000
    } else if i == 6 {
        0x1_0000_0000_0000
    } else {
        0x100_0000_0000_0000
    }
}

/// The eight bytes of `x`, least significant first.
pub open spec fn u64_le(x: u64) -> Seq<u8> {
    Seq::new(8, |i: int| le_byte(x, i))
}

/// The number whose little-endian form is the first eight bytes of `bytes`.
pub open spec fn u64_from_le(bytes: Seq<u8>) -> int {
    bytes[0] as int + bytes[1] as int * pow256(1) + bytes[2] as int * pow256(2) + bytes[3] as int
        * pow256(3) + bytes[4] as int * pow256(4) + bytes[5] as int * pow256(5) + bytes[6] as int
        * pow256(6) + bytes[7] as int * pow256(7)
}

/// Appends the eight little-endian bytes of `x` to `out`.
pub fn push_u64_le(out: &mut Vec<u8>, x: u64)
    ensures
        final(out)@ == old(out)@ + u64_le(x),
{
    let b0: u8 = (x & 0xff) as u8;
    let b1: u8 = ((x >> 8) & 0xff) as u8;
    let b2: u8 = ((x >> 16) & 0xff) as u8;
    let b3: u8 = ((x >> 24) & 0xff) as u8;
    let b4: u8 = ((x >> 32) & 0xff) as u8;
    let b5: u8 = ((x >> 40) & 0xff) as u8;
    let b6: u8 = ((x >> 48) & 0xff) as u8;
    let b7: u8 = ((x >> 56) & 0xff) as u8;
    proof {
        assert(x & 0xff == x % 0x100) by (bit_vector);
        assert((x >> 8) & 0xff == (x / 0x100) % 0x100) by (bit_vector);
        assert((x >> 16) & 0xff == (x / 0x1_0000) % 0x100) by (bit_vector);
        assert((x >> 24) & 0xff == (x / 0x100_0000) % 0x100) by (bit_vector);
        assert((x >> 32) & 0xff == (x / 0x1_0000_0000) % 0x100) by (bit_vector);
        assert((x >> 40) & 0xff == (x / 0x100_0000_0000) % 0x100) by (bit_vector);
        assert((x >> 48) & 0xff == (x / 0x1_0000_0000_0000) % 0x100) by (bit_vector);
        assert((x >> 56) & 0xff == (x / 0x100_0000_0000_0000) % 0x100) by (bit_vector);
    }
    out.push(b0);
    out.push(b1);
    out.push(b2);
    out.push(b3);
    out.push(b4);
    out.push(b5);
    out.push(b6);
    out.push(b7);
    assert(out@ =~= old(out)@ + u64_le(x));
}

/// The little-endian form of `x` holds `x`: read back as a number it gives
/// `x` again.
pub proof fn lemma_u64_le_round_trip(x: u64)
    ensures
        u64_le(x).len() == 8,
        u64_from_le(u64_le(x)) == x,
{
    let s = u64_le(x);
    let q1: u64 = x / 0x100;
    let q2: u64 = q1 / 0x100;
    let q3: u64 = q2 / 0x100;
    let q4: u64 = q3 / 0x100;
    let q5: u64 = q4 / 0x100;
    let q6: u64 = q5 / 0x100;
    let q7: u64 = q6 / 0x100;
    assert(x / 0x1_0000 == x / 0x100 / 0x100) by (bit_vector);
    assert(x / 0x100_0000 == x / 0x100 / 0x100 / 0x100) by (bit_vector);
    assert(x / 0x1_0000_0000 == x / 0x100 / 0x100 / 0x100 / 0x100) by (bit_vector);
    assert(x / 0x100_0000_0000 == x / 0x100 / 0x100 / 0x100 / 0x100 / 0x100) by (bit_vector);
    assert(x / 0x1_0000_0000_0000 == x / 0x100 / 0x100 / 0x100 / 0x100 / 0x100 / 0x100)
        by (bit_vector);
    assert(x / 0x100_0000_0000_0000 == x / 0x100 / 0x100 / 0x100 / 0x100 / 0x100 / 0x100 / 0x100)
        by (bit_vector);
    assert(x / 0x100_0000_0000_0000 < 0x100) by (bit_vector);
    assert(s[0] == (x % 0x100) as u8);
    assert(s[1] == (q1 % 0x100) as u8);
    assert(s[2] == (q2 % 0x100) as u8);
    assert(s[3] == (q3 % 0x100) as u8);
    assert(s[4] == (q4 % 0x100) as u8);
    assert(s[5] == (q5 % 0x100) as u8);
    assert(s[6] == (q6 % 0x100) as u8);
    assert(s[7] == q7 as u8);
}

/// Copies `bytes` into an array of `N` bytes.
pub fn to_array<const N: usize>(bytes: &[u8]) -> (out: [u8; N])
    requires
        bytes@.len() == N,
    ensures
        out@ == bytes@,
{
    let mut out: [u8; N] = [0u8; N];
    let mut i: usize = 0;
    while i < N
        invariant
            i <= N,
            bytes@.len() == N,
            forall|j: int| 0 <= j < i ==> out@[j] == bytes@[j],
        decreases N - i,
    {
        out[i] = bytes[i];
        i += 1;
    }
    assert(out@ =~= bytes@);
    out
}

/// Appends the bytes of `src` to `out`.
pub fn push_all(out: &mut Vec<u8>, src: &[u8])
    ensures
        final(out)@ == old(out)@ + src@,
{
    let mut i: usize = 0;
    while i < src.len()
        invariant
            i <= src@.len(),
            out@ == old(out)@ + src@.subrange(0, i as int),
        decreases src@.len() - i,
    {
        out.push(src[i]);
        i += 1;
        assert(out@ =~= old(out)@ + src@.subrange(0, i as int));
    }
    assert(src@.subrange(0, src@.len() as int) =~= src@);
}

} // verus!
