use rtdgi_core::filter::{adaptive_blend_factor, blend_toward, shade_or_sky, temporal2_filter_pixel, temporal_filter_pixel};
use rtdgi_core::motion::{reproject_pixel, FULL_VALIDITY};
use rtdgi_core::reservoir::{combine_reservoirs, Reservoir};

#[test]
fn reservoir_combine_exact() {
    let a = Reservoir { sample: 1, w_sum: 3, m: 2 };
    let b = Reservoir { sample: 2, w_sum: 5, m: 4 };
    // draw below b's weight: b's sample is kept
    let c = combine_reservoirs(a, b, 4, 8);
    assert_eq!(c.sample, 2);
    assert_eq!(c.w_sum, 8);
    assert_eq!(c.m, 6);
    // draw at or above b's weight: a's sample is kept
    let c = combine_reservoirs(a, b, 5, 8);
    assert_eq!(c.sample, 1);
    assert_eq!(c.w_sum, 8);
}

#[test]
fn reservoir_m_cap() {
    let a = Reservoir { sample: 1, w_sum: 1, m: 7 };
    let b = Reservoir { sample: 2, w_sum: 1, m: 9 };
    let c = combine_reservoirs(a, b, 0, 8);
    assert_eq!(c.m, 8);
}

#[test]
fn reservoir_order_independent_distribution() {
    let a = Reservoir { sample: 1, w_sum: 3, m: 2 };
    let b = Reservoir { sample: 2, w_sum: 5, m: 4 };
    let total = a.w_sum + b.w_sum;
    // the weight sums and counts agree in both orders, and the reflected
    // draw selects the same sample
    for r in 0..total {
        let ab = combine_reservoirs(a, b, r, 8);
        let ba = combine_reservoirs(b, a, total - 1 - r, 8);
        assert_eq!(ab.sample, ba.sample);
        assert_eq!(ab.w_sum, ba.w_sum);
        assert_eq!(ab.m, ba.m);
    }
    // each sample is selected in exact proportion to its weight
    let picks_b = (0..total)
        .filter(|&r| combine_reservoirs(a, b, r, 8).sample == b.sample)
        .count() as u64;
    assert_eq!(picks_b, b.w_sum);
}

#[test]
fn blend_moves_halfway() {
    assert_eq!(blend_toward(10, 0, 1, 2), 5);
    assert_eq!(blend_toward(0, 10, 1, 2), 5);
    assert_eq!(blend_toward(-8, 0, 1, 4), -6);
    assert_eq!(blend_toward(7, 7, 1, 2), 7);
}

#[test]
fn blend_converges_on_static_scene() {
    let target: i64 = 1000;
    let mut value: i64 = 0;
    let mut frames = 0;
    let mut last_dist = (value - target).abs();
    while value != target {
        value = blend_toward(value, target, 1, 4);
        let dist = (value - target).abs();
        assert!(dist < last_dist, "distance must strictly shrink");
        last_dist = dist;
        frames += 1;
        assert!(frames <= 1000);
    }
    // once converged it stays put
    assert_eq!(blend_toward(value, target, 1, 4), target);
}

#[test]
fn temporal_filter_disocclusion_takes_input() {
    assert_eq!(temporal_filter_pixel(42, 7, 0, 1, 4), 42);
    assert_eq!(temporal_filter_pixel(42, 6, FULL_VALIDITY, 1, 2), 24);
}

#[test]
fn shade_falls_back_to_sky() {
    assert_eq!(shade_or_sky(Some(9), 100), 9);
    assert_eq!(shade_or_sky(None, 100), 100);
}

#[test]
fn adaptive_factor_clamped_and_monotone() {
    assert_eq!(adaptive_blend_factor(0, 16), 1);
    assert_eq!(adaptive_blend_factor(7, 16), 8);
    assert_eq!(adaptive_blend_factor(100, 16), 16);
    let mut prev = 0;
    for v in 0..40 {
        let f = adaptive_blend_factor(v, 16);
        assert!(f >= prev);
        prev = f;
    }
}

#[test]
fn variance_drives_convergence_speed() {
    // history 64 away from the input; higher variance moves further in
    // one frame
    let calm = temporal2_filter_pixel(0, 64, 0, 16);
    let noisy = temporal2_filter_pixel(0, 64, 7, 16);
    assert_eq!(calm, 60); // factor 1/16
    assert_eq!(noisy, 32); // factor 8/16
    assert!((noisy - 0).abs() < (calm - 0).abs());
    // saturated variance converges in a single frame
    assert_eq!(temporal2_filter_pixel(0, 64, 1000, 16), 0);
}

#[test]
fn reprojection_identity_round_trip() {
    let r = reproject_pixel(5, 9, 16, 16, 0, 0, 1000, 1000, 2, 3, 3);
    assert_eq!(r.x, 5);
    assert_eq!(r.y, 9);
    assert_eq!(r.validity, FULL_VALIDITY);
}

#[test]
fn reprojection_motion_and_disocclusion() {
    // moved two pixels right since last frame: history sits two to the left
    let r = reproject_pixel(5, 9, 16, 16, 2, 0, 1000, 1000, 2, 3, 3);
    assert_eq!(r.x, 3);
    assert_eq!(r.y, 9);
    assert_eq!(r.validity, FULL_VALIDITY);
    // depth mismatch beyond tolerance: zero confidence
    let r = reproject_pixel(5, 9, 16, 16, 0, 0, 1000, 1010, 2, 3, 3);
    assert_eq!(r.validity, 0);
    // normal mismatch: zero confidence
    let r = reproject_pixel(5, 9, 16, 16, 0, 0, 1000, 1000, 2, 3, 4);
    assert_eq!(r.validity, 0);
    // history off screen: keep own coordinates, zero confidence
    let r = reproject_pixel(0, 0, 16, 16, 3, 0, 1000, 1000, 2, 3, 3);
    assert_eq!(r.x, 0);
    assert_eq!(r.y, 0);
    assert_eq!(r.validity, 0);
}
