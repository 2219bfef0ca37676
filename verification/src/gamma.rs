//! Applying a gamma lookup table.
//!
//! The gamma curve itself is precomputed once, outside the pipeline, into a
//! 256-entry table; correcting a buffer is then a per-pixel table lookup
//! rather than a per-pixel power computation.

use vstd::prelude::*;

verus! {

/// Every sample replaced by its table entry.
pub open spec fn spec_apply_lut(s: Seq<u8>, lut: Seq<u8>) -> Seq<u8>
    recommends
        lut.len() == 256,
{
    s.map_values(|x: u8| lut[x as int])
}

/// Applies a lookup table to the samples of a grayscale buffer: each
/// sample `x` is replaced with `lut[x]`.
pub fn apply_lut(data: &mut Vec<u8>, lut: &Vec<u8>)
    requires
        lut@.len() == 256,
    ensures
        final(data)@ == spec_apply_lut(old(data)@, lut@),
{
    let n: usize = data.len();
    let mut i: usize = 0;
    while i < n
        invariant
            lut@.len() == 256,
            n == data@.len(),
            data@.len() == old(data)@.len(),
            forall|j: int| 0 <= j < i ==> data@[j] == lut@[old(data)@[j] as int],
            forall|j: int| i <= j < data@.len() ==> data@[j] == old(data)@[j],
        decreases n - i,
    {
        let x = data[i];
        data[i] = lut[x as usize];
        i = i + 1;
    }
    proof {
        assert(data@ =~= old(data)@.map_values(|x: u8| lut@[x as int]));
    }
}

} // verus!
