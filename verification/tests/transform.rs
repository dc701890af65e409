//! Tests of the exact rational values and the axis transform engine.

use pulse_view::axis::{Axis, AxisPosition};
use pulse_view::chart::{AxisRole, ChartState};
use pulse_view::errors::ViewError;
use pulse_view::rational::Rat;

fn rat(n: i64, d: i64) -> Rat {
    Rat::new(n, d).unwrap()
}

#[test]
fn rational_construction_rejects_bad_denominators() {
    assert!(Rat::new(1, 0).is_none());
    assert!(Rat::new(1, -2).is_none());
    assert!(Rat::new(3, 4).is_some());
}

#[test]
fn rational_arithmetic_is_exact() {
    let a = rat(1, 2);
    let b = rat(1, 3);
    let sum = a.checked_add(b).unwrap();
    assert!(sum.equiv(&rat(5, 6)));
    let diff = a.checked_sub(b).unwrap();
    assert!(diff.equiv(&rat(1, 6)));
    let prod = a.checked_mul(b).unwrap();
    assert!(prod.equiv(&rat(1, 6)));
    assert!(!sum.equiv(&rat(1, 2)));
}

#[test]
fn rational_overflow_is_reported() {
    let big = rat(0x4000_0000_0000_0000, 1);
    assert!(big.checked_add(big).is_none());
}

#[test]
fn zoom_keeps_anchor_value_fixed() {
    // An axis over [0, 10]; zoom out by 11/10 anchored at 1/4.
    let mut axis = Axis::new(rat(0, 1), rat(10, 1), AxisPosition::Bottom);
    let anchor = rat(1, 4);
    let before = axis.value_at_norm(anchor).unwrap();
    axis.zoom(rat(11, 10), Some(anchor)).unwrap();
    let after = axis.value_at_norm(anchor).unwrap();
    assert!(before.equiv(&after));
    assert!(before.equiv(&rat(5, 2)));
}

#[test]
fn zoom_scales_width_by_factor() {
    let mut axis = Axis::new(rat(0, 1), rat(1, 1), AxisPosition::Bottom);
    axis.zoom(rat(11, 10), Some(rat(1, 2))).unwrap();
    // New domain is [-1/20, 21/20]: width 11/10, anchor 1/2 fixed.
    assert!(axis.lo().equiv(&rat(-1, 20)));
    assert!(axis.hi().equiv(&rat(21, 20)));
}

#[test]
fn zoom_with_reciprocal_factors_restores_domain() {
    let mut axis = Axis::new(rat(-3, 2), rat(7, 3), AxisPosition::Left);
    let anchor = rat(1, 3);
    axis.zoom(rat(11, 10), Some(anchor)).unwrap();
    axis.zoom(rat(10, 11), Some(anchor)).unwrap();
    assert!(axis.lo().equiv(&rat(-3, 2)));
    assert!(axis.hi().equiv(&rat(7, 3)));
}

#[test]
fn zoom_without_anchor_uses_midpoint() {
    let mut axis = Axis::new(rat(0, 1), rat(2, 1), AxisPosition::Bottom);
    axis.zoom(rat(1, 2), None).unwrap();
    // Midpoint 1 stays fixed, width halves: [1/2, 3/2].
    assert!(axis.lo().equiv(&rat(1, 2)));
    assert!(axis.hi().equiv(&rat(3, 2)));
}

#[test]
fn pan_by_zero_is_identity() {
    let mut chart = ChartState::new();
    chart.set_domain(AxisRole::Time, rat(-1, 2), rat(5, 2));
    chart.set_domain(AxisRole::Gradient, rat(0, 1), rat(10, 1));
    chart
        .pan_axes(AxisRole::Time, AxisRole::Gradient, rat(0, 1), rat(0, 1))
        .unwrap();
    assert!(chart.axis(AxisRole::Time).lo().equiv(&rat(-1, 2)));
    assert!(chart.axis(AxisRole::Time).hi().equiv(&rat(5, 2)));
    assert!(chart.axis(AxisRole::Gradient).lo().equiv(&rat(0, 1)));
    assert!(chart.axis(AxisRole::Gradient).hi().equiv(&rat(10, 1)));
}

#[test]
fn pan_shifts_both_bounds_by_width_fraction() {
    let mut axis = Axis::new(rat(0, 1), rat(10, 1), AxisPosition::Bottom);
    axis.pan(rat(1, 10)).unwrap();
    assert!(axis.lo().equiv(&rat(1, 1)));
    assert!(axis.hi().equiv(&rat(11, 1)));
}

#[test]
fn pan_preserves_orientation_of_reversed_domains() {
    // The transform math never requires lo <= hi.
    let mut axis = Axis::new(rat(5, 1), rat(1, 1), AxisPosition::Bottom);
    axis.pan(rat(1, 4)).unwrap();
    // Width is -4; a quarter pan shifts both bounds by -1.
    assert!(axis.lo().equiv(&rat(4, 1)));
    assert!(axis.hi().equiv(&rat(0, 1)));
}

#[test]
fn set_domain_replaces_bounds_outright() {
    let mut chart = ChartState::new();
    chart.set_domain(AxisRole::Rf, rat(2, 1), rat(4, 1));
    assert!(chart.axis(AxisRole::Rf).lo().equiv(&rat(2, 1)));
    assert!(chart.axis(AxisRole::Rf).hi().equiv(&rat(4, 1)));
}

#[test]
fn zoom_overflow_leaves_domain_unchanged() {
    let huge = rat(0x4000_0000_0000_0000, 1);
    let mut axis = Axis::new(huge, huge, AxisPosition::Bottom);
    let r = axis.zoom(rat(11, 10), Some(rat(1, 2)));
    assert_eq!(r, Err(ViewError::Overflow));
    assert!(axis.lo().equiv(&huge));
    assert!(axis.hi().equiv(&huge));
}
