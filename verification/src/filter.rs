use vstd::arithmetic::div_mod::{
    lemma_div_by_multiple, lemma_div_is_ordered, lemma_div_pos_is_pos, lemma_multiply_divide_lt,
};
use vstd::arithmetic::mul::{lemma_mul_inequality, lemma_mul_upper_bound};
use vstd::prelude::*;

verus! {

/// Pixel channel values are fixed-point radiance ticks (the GPU kernels
/// quantize before the accumulation policy runs); this bound keeps every
/// intermediate product inside 64 bits.
pub const PIXEL_BOUND: i64 = 0x100_0000_0000;

/// Largest accepted blend denominator.
pub const BLEND_DEN_BOUND: u32 = 0x10_0000;

pub open spec fn spec_abs_diff(a: int, b: int) -> int {
    if a >= b {
        a - b
    } else {
        b - a
    }
}

/// Exponential accumulation step: move `history` toward `target`, keeping
/// a `(den - num) / den` share of the old distance. `num / den` is the
/// blend factor given to the new sample.
pub open spec fn spec_blend(history: int, target: int, num: int, den: int) -> int {
    if history >= target {
        target + (history - target) * (den - num) / den
    } else {
        target - (target - history) * (den - num) / den
    }
}

/// The exponential temporal accumulation policy, exact over fixed-point
/// values.
pub fn blend_toward(history: i64, target: i64, num: u32, den: u32) -> (r: i64)
    requires
        -PIXEL_BOUND <= history <= PIXEL_BOUND,
        -PIXEL_BOUND <= target <= PIXEL_BOUND,
        1 <= num <= den,
        den <= BLEND_DEN_BOUND,
    ensures
        r == spec_blend(history as int, target as int, num as int, den as int),
        spec_abs_diff(r as int, target as int) <= spec_abs_diff(history as int, target as int),
    {
    let keep = (den - num) as u64;
    if history >= target {
        let d = (history - target) as u64;
        proof {
            lemma_mul_upper_bound(d as int, 2 * PIXEL_BOUND as int, keep as int, BLEND_DEN_BOUND as int);
            lemma_mul_inequality(keep as int, den as int, d as int);
            lemma_div_is_ordered(d * keep, d * den, den as int);
            lemma_div_by_multiple(d as int, den as int);
            lemma_div_pos_is_pos(d * keep, den as int);
        }
        let stepped = d * keep / (den as u64);
        target + (stepped as i64)
    } else {
        let d = (target - history) as u64;
        proof {
            lemma_mul_upper_bound(d as int, 2 * PIXEL_BOUND as int, keep as int, BLEND_DEN_BOUND as int);
            lemma_mul_inequality(keep as int, den as int, d as int);
            lemma_div_is_ordered(d * keep, d * den, den as int);
            lemma_div_by_multiple(d as int, den as int);
            lemma_div_pos_is_pos(d * keep, den as int);
        }
        let stepped = d * keep / (den as u64);
        target - (stepped as i64)
    }
}

/// One accumulation step never overshoots, holds a converged value fixed,
/// and strictly shrinks a nonzero distance to the target: under a static
/// scene (the same target every frame) the frame-to-frame difference
/// decreases until it reaches zero.
pub proof fn lemma_blend_contracts(history: int, target: int, num: int, den: int)
    requires
        1 <= num <= den,
    ensures
        history == target ==> spec_blend(history, target, num, den) == target,
        spec_abs_diff(spec_blend(history, target, num, den), target) <= spec_abs_diff(
            history,
            target,
        ),
        history != target ==> spec_abs_diff(spec_blend(history, target, num, den), target)
            < spec_abs_diff(history, target),
{
    let keep = den - num;
    let d = spec_abs_diff(history, target);
    assert(d * keep <= d * den) by (nonlinear_arith)
        requires
            keep <= den,
            d >= 0,
    ;
    lemma_div_is_ordered(d * keep, d * den, den);
    lemma_div_by_multiple(d, den);
    lemma_div_pos_is_pos(d * keep, den);
    if history != target {
        assert(d * keep < den * d) by (nonlinear_arith)
            requires
                keep < den,
                d > 0,
        ;
        lemma_multiply_divide_lt(d * keep, den, d);
    }
}

/// `n` accumulation steps of the same target.
pub open spec fn spec_iter_blend(history: int, target: int, num: int, den: int, n: nat) -> int
    decreases n,
{
    if n == 0 {
        history
    } else {
        spec_iter_blend(spec_blend(history, target, num, den), target, num, den, (n - 1) as nat)
    }
}

/// Temporal stability under a static scene: feeding the accumulator the
/// same target for at least as many frames as the initial fixed-point
/// distance drives the output exactly to the target, after which it no
/// longer changes at all.
pub proof fn lemma_static_scene_converges(history: int, target: int, num: int, den: int, n: nat)
    requires
        1 <= num <= den,
        n >= spec_abs_diff(history, target),
    ensures
        spec_iter_blend(history, target, num, den, n) == target,
    decreases n,
{
    lemma_blend_contracts(history, target, num, den);
    if history == target {
        if n > 0 {
            lemma_static_scene_converges(
                spec_blend(history, target, num, den),
                target,
                num,
                den,
                (n - 1) as nat,
            );
        }
    } else {
        lemma_static_scene_converges(
            spec_blend(history, target, num, den),
            target,
            num,
            den,
            (n - 1) as nat,
        );
    }
}

/// The per-pixel temporal filter policy: a pixel whose reprojection
/// validity is zero (disoccluded, or first-ever history) takes the fresh
/// input unchanged — by construction of the trace stage that input already
/// fell back to the sky environment on a ray miss — while a valid pixel is
/// exponentially accumulated against its history.
pub fn temporal_filter_pixel(input: i64, history: i64, validity: u32, num: u32, den: u32) -> (r:
    i64)
    requires
        -PIXEL_BOUND <= input <= PIXEL_BOUND,
        -PIXEL_BOUND <= history <= PIXEL_BOUND,
        1 <= num <= den,
        den <= BLEND_DEN_BOUND,
    ensures
        validity == 0 ==> r == input,
        validity != 0 ==> r == spec_blend(history as int, input as int, num as int, den as int),
{
    if validity == 0 {
        input
    } else {
        blend_toward(history, input, num, den)
    }
}

/// The trace stage's miss policy: a ray that hit geometry contributes the
/// shaded hit radiance, a ray that left the scene contributes the sky
/// environment estimate.
pub fn shade_or_sky(hit_radiance: Option<i64>, sky: i64) -> (r: i64)
    ensures
        r == match hit_radiance {
            Option::Some(v) => v,
            Option::None => sky,
        },
{
    match hit_radiance {
        Option::Some(v) => v,
        Option::None => sky,
    }
}

/// The variance-adaptive blend factor of the full-resolution accumulation
/// stage: higher variance yields a larger factor (faster convergence
/// toward the new sample), lower variance a smaller one (stronger
/// accumulation), clamped to `[1, den]`. The linear shape is a documented,
/// tunable policy.
pub fn adaptive_blend_factor(variance: u64, den: u32) -> (num: u32)
    requires
        1 <= den,
    ensures
        num == if 1 + variance <= den { (1 + variance) as int } else { den as int },
        1 <= num <= den,
{
    if variance < den as u64 {
        (variance + 1) as u32
    } else {
        den
    }
}

/// The full-resolution accumulation policy: the pixel's estimated
/// variance picks the blend factor, then the history is accumulated
/// toward the new sample — high variance converges fast, low variance
/// accumulates deeply.
pub fn temporal2_filter_pixel(input: i64, history: i64, variance: u64, den: u32) -> (r: i64)
    requires
        -PIXEL_BOUND <= input <= PIXEL_BOUND,
        -PIXEL_BOUND <= history <= PIXEL_BOUND,
        1 <= den <= BLEND_DEN_BOUND,
    ensures
        r == spec_blend(
            history as int,
            input as int,
            if 1 + variance <= den {
                (1 + variance) as int
            } else {
                den as int
            },
            den as int,
        ),
{
    let num = adaptive_blend_factor(variance, den);
    blend_toward(history, input, num, den)
}

/// Monotonicity of the adaptive factor: more variance never slows
/// convergence.
pub proof fn lemma_adaptive_factor_monotone(v1: u64, v2: u64, den: u32)
    requires
        1 <= den,
        v1 <= v2,
    ensures
        (if 1 + v1 <= den {
            (1 + v1) as int
        } else {
            den as int
        }) <= (if 1 + v2 <= den {
            (1 + v2) as int
        } else {
            den as int
        }),
{
}

} // verus!
