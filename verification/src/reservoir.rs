use vstd::prelude::*;

verus! {

/// Per-pixel reservoir state: a kept sample (identified by the packed
/// payload the shading stages exchange), the accumulated weight of every
/// candidate ever offered, and the number of candidates seen. Weights are
/// fixed-point: the GPU kernels quantize their floating-point weights to
/// integer ticks before the combination rule runs, so the rule itself is
/// exact.
#[derive(Clone, Copy, PartialEq, Eq, Structural, Debug)]
pub struct Reservoir {
    pub sample: u64,
    pub w_sum: u64,
    pub m: u32,
}

pub open spec fn spec_min_u32(a: int, b: int) -> int {
    if a <= b {
        a
    } else {
        b
    }
}

/// Weighted reservoir combination of `a` and `b`, driven by the random
/// draw `r`, uniform over `[0, a.w_sum + b.w_sum)`: `b`'s sample replaces
/// `a`'s with probability proportional to `b`'s accumulated weight; the
/// weights add; the candidate count adds and is capped at `m_cap` to bound
/// temporal lag against noise.
pub open spec fn spec_combine(a: Reservoir, b: Reservoir, r: u64, m_cap: u32) -> Reservoir {
    Reservoir {
        sample: if r < b.w_sum {
            b.sample
        } else {
            a.sample
        },
        w_sum: (a.w_sum + b.w_sum) as u64,
        m: spec_min_u32(a.m + b.m, m_cap as int) as u32,
    }
}

/// The weighted-reservoir update rule (see `spec_combine`). `r` must be a
/// uniform draw over `[0, a.w_sum + b.w_sum)`; combining empty reservoirs
/// (total weight zero) keeps `a`'s sample.
pub fn combine_reservoirs(a: Reservoir, b: Reservoir, r: u64, m_cap: u32) -> (c: Reservoir)
    requires
        a.w_sum + b.w_sum <= u64::MAX,
        a.w_sum + b.w_sum > 0 ==> r < a.w_sum + b.w_sum,
        a.w_sum + b.w_sum == 0 ==> r == 0,
    ensures
        c == spec_combine(a, b, r, m_cap),
{
    let sample = if r < b.w_sum {
        b.sample
    } else {
        a.sample
    };
    let m_raw = if a.m <= u32::MAX - b.m {
        a.m + b.m
    } else {
        u32::MAX
    };
    let m = if m_raw <= m_cap {
        m_raw
    } else {
        m_cap
    };
    proof {
        assert(m == spec_min_u32(a.m + b.m, m_cap as int));
    }
    Reservoir { sample, w_sum: a.w_sum + b.w_sum, m }
}

/// Weighted reservoir combination is order-independent in distribution:
/// combining `a` then `b` and combining `b` then `a` produce the same
/// accumulated weight and the same capped candidate count, and the map
/// `r -> total - 1 - r` is a bijection of the random draws under which the
/// two orders select the same sample. A uniform draw is carried to a
/// uniform draw, so the selected-sample distribution is identical either
/// way.
pub proof fn lemma_combine_order_independent(a: Reservoir, b: Reservoir, r: u64, m_cap: u32)
    requires
        a.w_sum + b.w_sum <= u64::MAX,
        r < a.w_sum + b.w_sum,
    ensures
        spec_combine(a, b, r, m_cap).w_sum == spec_combine(b, a, r, m_cap).w_sum,
        spec_combine(a, b, r, m_cap).m == spec_combine(b, a, r, m_cap).m,
        spec_combine(a, b, r, m_cap).sample == spec_combine(
            b,
            a,
            (a.w_sum + b.w_sum - 1 - r) as u64,
            m_cap,
        ).sample,
{
}

/// The selection rule is exactly weight-proportional: out of the
/// `a.w_sum + b.w_sum` equally likely draws, exactly `b.w_sum` select
/// `b`'s sample and exactly `a.w_sum` select `a`'s.
pub proof fn lemma_combine_selection_weights(a: Reservoir, b: Reservoir, r: u64, m_cap: u32)
    requires
        a.w_sum + b.w_sum <= u64::MAX,
        r < a.w_sum + b.w_sum,
    ensures
        r < b.w_sum ==> spec_combine(a, b, r, m_cap).sample == b.sample,
        b.w_sum <= r ==> spec_combine(a, b, r, m_cap).sample == a.sample,
{
}

} // verus!
