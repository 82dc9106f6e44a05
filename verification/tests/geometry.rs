use plotter_motion::interpolator::{CircularInterpolationDir, Interpolation, Interpolator};

#[test]
fn linear_length_is_chebyshev() {
    let ip = Interpolator::new((0, 0), (10, -4), Interpolation::Linear);
    assert_eq!(ip.get_interpolation_len(), 10);
    let ip = Interpolator::new((5, -3), (-2, 30), Interpolation::Linear);
    assert_eq!(ip.get_interpolation_len(), 33);
    let ip = Interpolator::new((2, 3), (2, 3), Interpolation::Linear);
    assert_eq!(ip.get_interpolation_len(), 0);
}

#[test]
fn linear_interpolation_floors_toward_end() {
    let ip = Interpolator::new((0, 0), (10, 0), Interpolation::Linear);
    assert_eq!(ip.get_interpolation_at(0), (0, 0));
    assert_eq!(ip.get_interpolation_at(5), (5, 0));
    assert_eq!(ip.get_interpolation_at(10), (10, 0));
    let ip = Interpolator::new((0, 0), (-10, -5), Interpolation::Linear);
    assert_eq!(ip.get_interpolation_at(3), (-3, -2));
    assert_eq!(ip.get_interpolation_at(10), (-10, -5));
}

#[test]
fn linear_zero_length_yields_end() {
    let ip = Interpolator::new((4, 4), (4, 4), Interpolation::Linear);
    assert_eq!(ip.get_interpolation_at(0), (4, 4));
    assert_eq!(ip.get_interpolation_at(7), (4, 4));
}

#[test]
fn point_segment_always_at_end() {
    let ip = Interpolator::new((1, 2), (9, -9), Interpolation::NoInterpolation);
    assert_eq!(ip.get_interpolation_len(), 1);
    assert_eq!(ip.get_interpolation_at(0), (9, -9));
    assert_eq!(ip.get_interpolation_at(1), (9, -9));
    assert_eq!(ip.get_interpolation_at(12345), (9, -9));
}

#[test]
fn circular_quarter_arc_clockwise() {
    // start at angle 90 degrees, end at angle 0, around the origin
    let ip = Interpolator::new(
        (0, 100),
        (100, 0),
        Interpolation::Circular(0, -100, CircularInterpolationDir::Clockwise),
    );
    assert_eq!(ip.get_interpolation_len(), 157);
    let (sx, sy) = ip.get_interpolation_at(0);
    assert!((sx - 0).abs() <= 1 && (sy - 100).abs() <= 1);
    let (ex, ey) = ip.get_interpolation_at(157);
    assert!((ex - 100).abs() <= 1 && (ey - 0).abs() <= 1);
    // halfway: 45 degrees
    let (mx, my) = ip.get_interpolation_at(78);
    assert!((mx - 71).abs() <= 1 && (my - 71).abs() <= 1);
}

#[test]
fn circular_three_quarter_arc_counter_clockwise() {
    // start at angle 0, end at angle -90: counter-clockwise sweep of 270
    let ip = Interpolator::new(
        (100, 0),
        (0, -100),
        Interpolation::Circular(-100, 0, CircularInterpolationDir::CounterClockwise),
    );
    assert_eq!(ip.get_interpolation_len(), 471);
    let (sx, sy) = ip.get_interpolation_at(0);
    assert!((sx - 100).abs() <= 1 && (sy - 0).abs() <= 1);
    let (ex, ey) = ip.get_interpolation_at(471);
    assert!((ex - 0).abs() <= 1 && (ey + 100).abs() <= 1);
}

#[test]
fn circular_zero_sweep_is_full_revolution() {
    let ip = Interpolator::new(
        (100, 0),
        (100, 0),
        Interpolation::Circular(-100, 0, CircularInterpolationDir::Clockwise),
    );
    assert_eq!(ip.get_interpolation_len(), 628);
    let (sx, sy) = ip.get_interpolation_at(0);
    assert!((sx - 100).abs() <= 1 && (sy - 0).abs() <= 1);
    let (ex, ey) = ip.get_interpolation_at(628);
    assert!((ex - 100).abs() <= 1 && (ey - 0).abs() <= 1);
}

#[test]
fn circular_zero_radius_never_zero_length() {
    let ip = Interpolator::new(
        (5, 5),
        (5, 5),
        Interpolation::Circular(0, 0, CircularInterpolationDir::Clockwise),
    );
    assert_eq!(ip.get_interpolation_len(), 1);
    assert_eq!(ip.get_interpolation_at(0), (5, 5));
    assert_eq!(ip.get_interpolation_at(1), (5, 5));
}

#[test]
fn interpolation_method_is_kept() {
    let ip = Interpolator::new((0, 0), (3, 3), Interpolation::Linear);
    assert!(matches!(ip.interpolation_method(), Interpolation::Linear));
    let ip = Interpolator::new((0, 0), (3, 3), Interpolation::NoInterpolation);
    assert!(matches!(ip.interpolation_method(), Interpolation::NoInterpolation));
}
