//! Copying between byte buffers, stated over sequences.

use vstd::prelude::*;

verus! {

/// `len` zero bytes.
pub open spec fn zeros(len: int) -> Seq<u8> {
    Seq::new(len as nat, |i: int| 0u8)
}

/// `dst` with the bytes from `at` on replaced by `src`.
pub open spec fn overlay(dst: Seq<u8>, at: int, src: Seq<u8>) -> Seq<u8> {
    Seq::new(
        dst.len(),
        |i: int|
            if at <= i < at + src.len() {
                src[i - at]
            } else {
                dst[i]
            },
    )
}

/// Copies `N` bytes of `bytes`, starting at `start`, into an array.
pub fn take<const N: usize>(bytes: &[u8], start: usize) -> (r: [u8; N])
    requires
        start + N <= bytes@.len(),
    ensures
        r@ == bytes@.subrange(start as int, start + N),
{
    let total: usize = bytes.len();
    let mut r = [0u8; N];
    let mut i: usize = 0;
    while i < N
        invariant
            i <= N,
            total == bytes@.len(),
            start + N <= total,
            forall|j: int| 0 <= j < i ==> r@[j] == bytes@[start + j],
        decreases N - i,
    {
        r[i] = bytes[start + i];
        i = i + 1;
    }
    assert(r@ =~= bytes@.subrange(start as int, start + N));
    r
}

/// Writes `src` over `dst`, starting at `at`.
pub fn put(dst: &mut [u8], at: usize, src: &[u8])
    requires
        at + src@.len() <= old(dst)@.len(),
    ensures
        final(dst)@ == overlay(old(dst)@, at as int, src@),
{
    let total: usize = dst.len();
    let mut i: usize = 0;
    while i < src.len()
        invariant
            i <= src@.len(),
            total == dst@.len(),
            at + src@.len() <= total,
            dst@.len() == old(dst)@.len(),
            forall|j: int| 0 <= j < i ==> dst@[at + j] == src@[j],
            forall|j: int|
                0 <= j < dst@.len() && !(at <= j < at + i) ==> dst@[j] == old(dst)@[j],
        decreases src@.len() - i,
    {
        dst[at + i] = src[i];
        i = i + 1;
    }
    assert(dst@ =~= overlay(old(dst)@, at as int, src@));
}

/// Sets every byte of `dst` from `from` on to zero.
pub fn clear_from(dst: &mut [u8], from: usize)
    requires
        from <= old(dst)@.len(),
    ensures
        final(dst)@ == old(dst)@.subrange(0, from as int) + zeros(old(dst)@.len() - from),
{
    let mut i: usize = from;
    while i < dst.len()
        invariant
            from <= i <= dst@.len(),
            dst@.len() == old(dst)@.len(),
            forall|j: int| 0 <= j < from ==> dst@[j] == old(dst)@[j],
            forall|j: int| from <= j < i ==> dst@[j] == 0,
        decreases dst@.len() - i,
    {
        dst[i] = 0;
        i = i + 1;
    }
    assert(dst@ =~= old(dst)@.subrange(0, from as int) + zeros(old(dst)@.len() - from));
}

} // verus!
