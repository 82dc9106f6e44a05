use plotter_motion::interpolator::{CircularInterpolationDir, Interpolation};
use plotter_motion::pen::PenPosition;
use plotter_motion::sequence_wrapper::SequenceWrapper;

#[test]
fn pos_converts_nanometers_to_pulses() {
    let mut w = SequenceWrapper::new();
    // one pulse is 42000 nm on x and 10500 nm on y
    w.pos(42_000, 10_500).unwrap();
    let last = w.sequence.last_pos();
    assert_eq!(last.start(), (0, 0));
    assert_eq!(last.end(), (1, 1));
    assert!(matches!(last.interpolator.interpolation_method(), Interpolation::Linear));
}

#[test]
fn pos_rounds_to_nearest_pulse() {
    let mut w = SequenceWrapper::new();
    // exactly half a pulse rounds away from zero
    w.pos(21_000, 5_250).unwrap();
    assert_eq!(w.sequence.last_pos().end(), (1, 1));
    w.pos(-21_000, -5_250).unwrap();
    assert_eq!(w.sequence.last_pos().end(), (-1, -1));
    w.pos(20_999, 5_249).unwrap();
    assert_eq!(w.sequence.last_pos().end(), (0, 0));
}

#[test]
fn pos_single_axis_carries_other_coordinate() {
    let mut w = SequenceWrapper::new();
    w.pos(420_000, 105_000).unwrap();
    assert_eq!(w.sequence.last_pos().end(), (10, 10));
    w.pos_x(840_000).unwrap();
    assert_eq!(w.sequence.last_pos().end(), (20, 10));
    w.pos_y(210_000).unwrap();
    assert_eq!(w.sequence.last_pos().end(), (20, 20));
}

#[test]
fn rapid_moves_append_point_segments() {
    let mut w = SequenceWrapper::new();
    w.pos_rapid(42_000, 0).unwrap();
    let last = w.sequence.last_pos();
    assert_eq!(last.end(), (1, 0));
    assert!(matches!(last.interpolator.interpolation_method(), Interpolation::NoInterpolation));
    w.pos_x_rapid(84_000).unwrap();
    assert_eq!(w.sequence.last_pos().end(), (2, 0));
    w.pos_y_rapid(10_500).unwrap();
    assert_eq!(w.sequence.last_pos().end(), (2, 1));
}

#[test]
fn set_home_shifts_later_conversions_only() {
    let mut w = SequenceWrapper::new();
    w.pos(42_000, 0).unwrap();
    assert_eq!(w.sequence.last_pos().end(), (1, 0));
    w.set_home(420_000, 105_000);
    w.pos(42_000, 0).unwrap();
    // 1 pulse plus home offset (10, 10)
    assert_eq!(w.sequence.last_pos().end(), (11, 10));
    // the earlier segment is untouched
    let first = w.sequence.skip_to(1).unwrap();
    assert_eq!(first.end(), (1, 0));
}

#[test]
fn pen_angle_is_clamped_and_attached() {
    let mut w = SequenceWrapper::new();
    w.pen_pos(300);
    w.pos(0, 0).unwrap();
    assert!(matches!(w.sequence.last_pos().pen(), PenPosition::Angle(255)));
    w.pen_pos(-7);
    w.pos(0, 0).unwrap();
    assert!(matches!(w.sequence.last_pos().pen(), PenPosition::Angle(0)));
    w.pen_pos(90);
    w.pos(0, 0).unwrap();
    assert!(matches!(w.sequence.last_pos().pen(), PenPosition::Angle(90)));
}

#[test]
fn arc_relative_center_converts_offsets() {
    let mut w = SequenceWrapper::new();
    w.arc_clockwise_relative_center(420_000, 0, 210_000, 0).unwrap();
    let last = w.sequence.last_pos();
    assert_eq!(last.end(), (10, 0));
    match last.interpolator.interpolation_method() {
        Interpolation::Circular(i, j, CircularInterpolationDir::Clockwise) => {
            assert_eq!((i, j), (5, 0));
        },
        _ => panic!("expected a clockwise circular segment"),
    }
}

#[test]
fn arc_absolute_center_is_relative_to_segment_start() {
    let mut w = SequenceWrapper::new();
    w.pos(420_000, 0).unwrap();
    // center at absolute (5, 0) pulses; the segment starts at (10, 0)
    w.arc_counter_clockwise_absolute_center(0, 0, 210_000, 0).unwrap();
    let last = w.sequence.last_pos();
    assert_eq!(last.start(), (10, 0));
    assert_eq!(last.end(), (0, 0));
    match last.interpolator.interpolation_method() {
        Interpolation::Circular(i, j, CircularInterpolationDir::CounterClockwise) => {
            assert_eq!((i, j), (-5, 0));
        },
        _ => panic!("expected a counter-clockwise circular segment"),
    }
}

#[test]
fn unit_conversion_helpers_round() {
    let w = SequenceWrapper::new();
    assert_eq!(w.mm_to_unit_x(42_000), 1);
    assert_eq!(w.mm_to_unit_x(63_000), 2);
    assert_eq!(w.mm_to_unit_y(10_500), 1);
    assert_eq!(w.mm_to_unit_y(-15_750), -2);
}

#[test]
fn translator_reports_queue_full() {
    let mut w = SequenceWrapper::new();
    for i in 0..1023 {
        assert!(w.pos(i * 42_000, 0).is_ok());
    }
    assert_eq!(w.sequence_len(), 1024);
    assert!(!w.has_free_space());
    assert!(w.pos(0, 0).is_err());
    assert_eq!(w.sequence_len(), 1024);
}
