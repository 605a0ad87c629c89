//! Layout of the spectrum used to bring a block of input to the native rate
//! by zero-padding in the frequency domain.

use vstd::prelude::*;
use crate::rate::BLOCK_LEN;

verus! {

/// `n` copies of `zero`.
pub open spec fn zeros<T>(zero: T, n: nat) -> Seq<T> {
    Seq::new(n, |i: int| zero)
}

/// The spectrum of `out_len` bins built from the `bins` of a shorter block:
/// the lower half of `bins` (the first `len / 2`) at the start, the rest of
/// `bins` (the conjugate upper half) at the end, and zero bins in between for
/// the frequencies that the shorter block cannot hold.
pub open spec fn expanded<T>(bins: Seq<T>, zero: T, out_len: nat) -> Seq<T> {
    let split = bins.len() / 2;
    bins.subrange(0, split as int) + zeros(zero, (out_len - bins.len()) as nat) + bins.subrange(
        split as int,
        bins.len() as int,
    )
}

/// Builds the `BLOCK_LEN`-bin spectrum whose inverse transform is the
/// native-rate version of the block with spectrum `bins`.
pub fn expand_spectrum<T: Copy>(bins: &Vec<T>, zero: T) -> (r: Vec<T>)
    requires
        bins@.len() <= BLOCK_LEN,
    ensures
        r@ == expanded(bins@, zero, BLOCK_LEN as nat),
        r@.len() == BLOCK_LEN,
{
    let len = bins.len();
    let split = len / 2;
    let gap = BLOCK_LEN - len;
    let mut r: Vec<T> = Vec::with_capacity(BLOCK_LEN);
    let mut i: usize = 0;
    while i < split
        invariant
            split == bins@.len() / 2,
            i <= split,
            r@ == bins@.subrange(0, i as int),
        decreases split - i,
    {
        r.push(bins[i]);
        i = i + 1;
        assert(r@ =~= bins@.subrange(0, i as int));
    }
    let mut k: usize = 0;
    while k < gap
        invariant
            split == bins@.len() / 2,
            k <= gap,
            r@ == bins@.subrange(0, split as int) + zeros(zero, k as nat),
        decreases gap - k,
    {
        r.push(zero);
        k = k + 1;
        assert(r@ =~= bins@.subrange(0, split as int) + zeros(zero, k as nat));
    }
    let ghost head = r@;
    let mut j: usize = split;
    while j < len
        invariant
            len == bins@.len(),
            split <= j <= len,
            head == bins@.subrange(0, split as int) + zeros(zero, gap as nat),
            r@ == head + bins@.subrange(split as int, j as int),
        decreases len - j,
    {
        r.push(bins[j]);
        j = j + 1;
        assert(r@ =~= head + bins@.subrange(split as int, j as int));
    }
    r
}

} // verus!
