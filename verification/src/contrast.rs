//! Percentile cutoffs and linear contrast stretching.
//!
//! The stretch finds the intensities at a lower and an upper percentile of
//! the sample distribution and remaps that range linearly onto the full
//! displayable range, clamping samples outside it. A degenerate range
//! (upper at or below lower) leaves the buffer unchanged, and the full
//! range is provably the identity, so both may be skipped as fast paths.

use vstd::arithmetic::div_mod::{lemma_div_is_ordered, lemma_div_multiples_vanish};
use vstd::prelude::*;

verus! {

/// How many samples of `s` are at most `v`.
pub open spec fn count_le(s: Seq<u8>, v: u8) -> int
    decreases s.len(),
{
    if s.len() == 0 {
        0
    } else {
        count_le(s.drop_last(), v) + if s.last() <= v {
            1int
        } else {
            0int
        }
    }
}

/// Whether intensity `v` sits at or above percentile `p` of `s`: at least
/// `p` percent of the samples are at most `v`.
pub open spec fn percentile_holds(s: Seq<u8>, p: u8, v: u8) -> bool {
    100 * count_le(s, v) >= (p as int) * s.len()
}

/// The smallest intensity from `v` upward that reaches percentile `p`,
/// falling back to full scale.
pub open spec fn spec_percentile_from(s: Seq<u8>, p: u8, v: u8) -> u8
    decreases 255 - v,
{
    if v >= 255 || percentile_holds(s, p, v) {
        v
    } else {
        spec_percentile_from(s, p, (v + 1) as u8)
    }
}

/// The intensity value at percentile `p` of `s`: the smallest intensity
/// such that at least `p` percent of the samples are at or below it.
pub open spec fn spec_percentile(s: Seq<u8>, p: u8) -> u8 {
    spec_percentile_from(s, p, 0)
}

/// Every sample is at most full scale.
proof fn lemma_count_le_full(s: Seq<u8>)
    ensures
        count_le(s, 255) == s.len(),
    decreases s.len(),
{
    if s.len() > 0 {
        lemma_count_le_full(s.drop_last());
    }
}

/// From `v` upward, the found intensity reaches the percentile and no
/// intensity below it does.
proof fn lemma_percentile_from_characterization(s: Seq<u8>, p: u8, v: u8)
    requires
        p <= 100,
    ensures
        v <= spec_percentile_from(s, p, v),
        percentile_holds(s, p, spec_percentile_from(s, p, v)),
        forall|w: u8| v <= w < spec_percentile_from(s, p, v) ==> !percentile_holds(s, p, w),
    decreases 255 - v,
{
    if v >= 255 || percentile_holds(s, p, v) {
        if v >= 255 {
            lemma_count_le_full(s);
            assert(100 * s.len() >= (p as int) * s.len()) by (nonlinear_arith)
                requires
                    p <= 100,
                    s.len() >= 0,
            ;
        }
    } else {
        lemma_percentile_from_characterization(s, p, (v + 1) as u8);
    }
}

/// The value at percentile `p` is the smallest intensity at which at
/// least `p` percent of the samples sit at or below it.
pub proof fn lemma_percentile_characterization(s: Seq<u8>, p: u8)
    requires
        p <= 100,
    ensures
        percentile_holds(s, p, spec_percentile(s, p)),
        forall|w: u8| w < spec_percentile(s, p) ==> !percentile_holds(s, p, w),
{
    lemma_percentile_from_characterization(s, p, 0);
}

/// Counts the samples that are at most `v`.
fn count_le_exec(data: &Vec<u8>, v: u8) -> (c: usize)
    ensures
        c == count_le(data@, v),
{
    let mut c: usize = 0;
    let mut i: usize = 0;
    while i < data.len()
        invariant
            i <= data@.len(),
            c <= i,
            c == count_le(data@.take(i as int), v),
        decreases data@.len() - i,
    {
        proof {
            assert(data@.take(i + 1).drop_last() =~= data@.take(i as int));
            assert(data@.take(i + 1).last() == data@[i as int]);
        }
        if data[i] <= v {
            c = c + 1;
        }
        i = i + 1;
    }
    proof {
        assert(data@.take(data@.len() as int) =~= data@);
    }
    c
}

/// Returns the intensity value at percentile `p` of the samples: the
/// smallest intensity `v` such that at least `p` percent of the samples
/// are at most `v`.
pub fn percentile(data: &Vec<u8>, p: u8) -> (r: u8)
    requires
        p <= 100,
    ensures
        r == spec_percentile(data@, p),
{
    let n: usize = data.len();
    let mut v: u8 = 0;
    loop
        invariant
            p <= 100,
            n == data@.len(),
            spec_percentile(data@, p) == spec_percentile_from(data@, p, v),
        decreases 255 - v,
    {
        let c = count_le_exec(data, v);
        proof {
            assert((p as int) * (n as int) <= 100 * (usize::MAX as int)) by (nonlinear_arith)
                requires
                    p <= 100,
                    n <= usize::MAX,
            ;
        }
        if v == 255 || 100 * (c as u128) >= (p as u128) * (n as u128) {
            return v;
        }
        v = v + 1;
    }
}

/// The linear remap that sends `lower` to zero and `upper` to full scale,
/// clamping samples outside the range; division rounds toward zero.
pub open spec fn stretch_value(x: u8, lower: u8, upper: u8) -> u8
    recommends
        lower < upper,
{
    if x <= lower {
        0
    } else if x >= upper {
        255
    } else {
        (((x - lower) * 255) / ((upper - lower) as int)) as u8
    }
}

/// The contrast stretch over a whole sample sequence: the identity when
/// the range is degenerate, the pointwise remap otherwise.
pub open spec fn spec_stretch(s: Seq<u8>, lower: u8, upper: u8) -> Seq<u8> {
    if upper <= lower {
        s
    } else {
        s.map_values(|x: u8| stretch_value(x, lower, upper))
    }
}

/// The remapped value of a sample strictly inside the range stays within
/// the displayable range.
proof fn lemma_remap_bounded(x: int, lower: int, upper: int)
    requires
        lower < x < upper,
    ensures
        0 <= (x - lower) * 255 / (upper - lower) <= 255,
{
    let a = x - lower;
    let b = upper - lower;
    assert(a * 255 <= b * 255 && a * 255 >= 0 && 0int / b == 0) by (nonlinear_arith)
        requires
            1 <= a <= b,
    ;
    lemma_div_is_ordered(a * 255, b * 255, b);
    lemma_div_multiples_vanish(255, b);
    lemma_div_is_ordered(0, a * 255, b);
}

/// With zero and full scale as cutoffs the linear remap is the identity:
/// stretching an already fully stretched histogram changes nothing.
pub proof fn lemma_stretch_full_range_identity(s: Seq<u8>)
    ensures
        spec_stretch(s, 0, 255) == s,
{
    assert forall|j: int| 0 <= j < s.len() implies s.map_values(
        |x: u8| stretch_value(x, 0, 255),
    )[j] == s[j] by {
        let x = s[j];
        if 0 < x < 255 {
            lemma_div_multiples_vanish(x as int, 255);
            assert((x as int) * 255 == 255 * (x as int)) by (nonlinear_arith);
        }
    }
    assert(spec_stretch(s, 0, 255) =~= s);
}

/// Remaps every sample so that `lower` maps to zero and `upper` to full
/// scale, clamping samples outside the range; a degenerate range leaves
/// the buffer unchanged. Skipping the full range is a verified fast path.
pub fn stretch_contrast(data: &mut Vec<u8>, lower: u8, upper: u8)
    ensures
        final(data)@ == spec_stretch(old(data)@, lower, upper),
{
    if upper <= lower {
        return ;
    }
    if lower == 0 && upper == 255 {
        proof {
            lemma_stretch_full_range_identity(data@);
        }
        return ;
    }
    let range: u8 = upper - lower;
    let n: usize = data.len();
    let mut i: usize = 0;
    while i < n
        invariant
            lower < upper,
            range == upper - lower,
            n == data@.len(),
            data@.len() == old(data)@.len(),
            forall|j: int| 0 <= j < i ==> data@[j] == stretch_value(old(data)@[j], lower, upper),
            forall|j: int| i <= j < data@.len() ==> data@[j] == old(data)@[j],
        decreases n - i,
    {
        let x = data[i];
        let y: u8 = if x <= lower {
            0
        } else if x >= upper {
            255
        } else {
            proof {
                lemma_remap_bounded(x as int, lower as int, upper as int);
            }
            ((((x - lower) as u32) * 255) / (range as u32)) as u8
        };
        data[i] = y;
        i = i + 1;
    }
    proof {
        assert(data@ =~= old(data)@.map_values(|x: u8| stretch_value(x, lower, upper)));
    }
}

} // verus!
