//! Verified helpers for moving bytes between buffers.

use vstd::prelude::*;

verus! {

/// Appends every byte of `src` to `dst`, in order.
pub fn push_bytes(dst: &mut Vec<u8>, src: &Vec<u8>)
    ensures
        final(dst)@ == old(dst)@ + src@,
{
    let ghost base = dst@;
    let mut i: usize = 0;
    while i < src.len()
        invariant
            i <= src@.len(),
            dst@ == base + src@.subrange(0, i as int),
        decreases src@.len() - i,
    {
        dst.push(src[i]);
        proof {
            assert(src@.subrange(0, i + 1 as int) =~= src@.subrange(0, i as int).push(
                src@[i as int],
            ));
        }
        i = i + 1;
    }
    proof {
        assert(src@.subrange(0, src@.len() as int) =~= src@);
    }
}

/// Returns a copy of the bytes of `src`.
pub fn clone_bytes(src: &Vec<u8>) -> (r: Vec<u8>)
    ensures
        r@ == src@,
{
    let mut out: Vec<u8> = Vec::new();
    push_bytes(&mut out, src);
    out
}

/// Returns a copy of `src[start .. start + count]`.
pub fn copy_range(src: &Vec<u8>, start: usize, count: usize) -> (r: Vec<u8>)
    requires
        start + count <= src@.len(),
    ensures
        r@ == src@.subrange(start as int, start + count),
{
    let mut out: Vec<u8> = Vec::new();
    let n = src.len();
    let mut i: usize = 0;
    while i < count
        invariant
            i <= count,
            n == src@.len(),
            start + count <= n,
            out@ == src@.subrange(start as int, start + i),
        decreases count - i,
    {
        out.push(src[start + i]);
        proof {
            assert(src@.subrange(start as int, start + i + 1) =~= src@.subrange(
                start as int,
                start + i,
            ).push(src@[start + i]));
        }
        i = i + 1;
    }
    out
}

} // verus!
