//! Byte strings: little-endian integers, and comparison of fixed-size arrays.
use vstd::prelude::*;

verus! {

/// The byte of `x` that has `k` bytes below it.
pub open spec fn byte_at(x: u64, k: int) -> u8
    recommends
        0 <= k < 8,
{
    ((x >> ((8 * k) as u64)) & 0xff) as u8
}

/// The eight bytes of `x`, lowest first.
pub open spec fn le64(x: u64) -> Seq<u8> {
    Seq::new(8, |k: int| byte_at(x, k))
}

/// Appends the eight bytes of `x`, lowest first.
pub fn push_le64(out: &mut Vec<u8>, x: u64)
    ensures
        final(out)@ == old(out)@ + le64(x),
{
    let ghost before = out@;
    let mut k: usize = 0;
    while k < 8
        invariant
            k <= 8,
            out@ == before + le64(x).take(k as int),
        decreases 8 - k,
    {
        let shift: u64 = 8 * (k as u64);
        let low: u64 = (x >> shift) & 0xff;
        proof {
            assert((x >> shift) & 0xff <= 0xff) by (bit_vector);
            assert(low as u8 == byte_at(x, k as int));
            assert(le64(x).take(k + 1) =~= le64(x).take(k as int).push(low as u8));
        }
        out.push(low as u8);
        k = k + 1;
    }
    proof {
        assert(le64(x).take(8) =~= le64(x));
    }
}

/// Two numbers with the same eight bytes are the same number.
pub proof fn le64_is_injective(x: u64, y: u64)
    requires
        le64(x) == le64(y),
    ensures
        x == y,
{
    assert forall|k: int| 0 <= k < 8 implies byte_at(x, k) == byte_at(y, k) by {
        assert(le64(x)[k] == byte_at(x, k));
        assert(le64(y)[k] == byte_at(y, k));
    }
    assert(byte_at(x, 0) == byte_at(y, 0) && byte_at(x, 1) == byte_at(y, 1)
        && byte_at(x, 2) == byte_at(y, 2) && byte_at(x, 3) == byte_at(y, 3)
        && byte_at(x, 4) == byte_at(y, 4) && byte_at(x, 5) == byte_at(y, 5)
        && byte_at(x, 6) == byte_at(y, 6) && byte_at(x, 7) == byte_at(y, 7));
    assert(x == y) by (bit_vector)
        requires
            ((x >> 0u64) & 0xff) as u8 == ((y >> 0u64) & 0xff) as u8,
            ((x >> 8u64) & 0xff) as u8 == ((y >> 8u64) & 0xff) as u8,
            ((x >> 16u64) & 0xff) as u8 == ((y >> 16u64) & 0xff) as u8,
            ((x >> 24u64) & 0xff) as u8 == ((y >> 24u64) & 0xff) as u8,
            ((x >> 32u64) & 0xff) as u8 == ((y >> 32u64) & 0xff) as u8,
            ((x >> 40u64) & 0xff) as u8 == ((y >> 40u64) & 0xff) as u8,
            ((x >> 48u64) & 0xff) as u8 == ((y >> 48u64) & 0xff) as u8,
            ((x >> 56u64) & 0xff) as u8 == ((y >> 56u64) & 0xff) as u8,
    ;
}

/// Whether two arrays of one size hold the same bytes.
pub fn same<const N: usize>(a: &[u8; N], b: &[u8; N]) -> (r: bool)
    ensures
        r == (*a == *b),
{
    let mut i: usize = 0;
    while i < N
        invariant
            i <= N,
            forall|j: int| 0 <= j < i ==> a@[j] == b@[j],
        decreases N - i,
    {
        if a[i] != b[i] {
            return false;
        }
        i = i + 1;
    }
    proof {
        assert(*a =~= *b);
    }
    true
}

} // verus!
