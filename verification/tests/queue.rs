use plotter_motion::interpolator::Interpolation;
use plotter_motion::pen::PenPosition;
use plotter_motion::sequence::Sequence;

#[test]
fn queue_never_reports_zero_segments() {
    let q = Sequence::new();
    assert_eq!(q.sequence_len(), 1);
    assert_eq!(q.curr_pos().end(), (0, 0));
}

#[test]
fn advance_at_tail_returns_none_and_keeps_cursor() {
    let mut q = Sequence::new();
    assert!(q.advance().is_none());
    assert!(q.is_starting_sequence());
    assert!(q.advance().is_none());
    assert!(q.is_starting_sequence());
}

#[test]
fn advance_moves_to_next_segment_end() {
    let mut q = Sequence::new();
    q.add_pos(5, 7, PenPosition::Default, Interpolation::Linear).unwrap();
    q.add_pos(-2, 9, PenPosition::Angle(30), Interpolation::Linear).unwrap();
    assert_eq!(q.advance(), Some((5, 7)));
    assert!(!q.is_starting_sequence());
    assert_eq!(q.advance(), Some((-2, 9)));
    assert!(q.advance().is_none());
}

#[test]
fn appended_segment_chains_from_previous_end() {
    let mut q = Sequence::new();
    q.add_pos(5, 7, PenPosition::Default, Interpolation::Linear).unwrap();
    let last = q.last_pos();
    assert_eq!(last.start(), (0, 0));
    assert_eq!(last.end(), (5, 7));
    q.add_pos(8, 1, PenPosition::Default, Interpolation::Linear).unwrap();
    let last = q.last_pos();
    assert_eq!(last.start(), (5, 7));
    assert_eq!(last.end(), (8, 1));
}

#[test]
fn append_beyond_capacity_fails_and_keeps_length() {
    let mut q = Sequence::new();
    for i in 0..1023 {
        assert!(q.add_pos(i, i, PenPosition::Default, Interpolation::Linear).is_ok());
    }
    assert_eq!(q.sequence_len(), 1024);
    assert!(!q.has_free_space());
    assert!(q.add_pos(7, 7, PenPosition::Default, Interpolation::Linear).is_err());
    assert_eq!(q.sequence_len(), 1024);
}

#[test]
fn clear_reseeds_single_segment_at_point() {
    let mut q = Sequence::new();
    q.add_pos(5, 7, PenPosition::Angle(12), Interpolation::Linear).unwrap();
    q.add_pos(9, 9, PenPosition::Angle(12), Interpolation::Linear).unwrap();
    q.advance();
    q.clear_sequence((3, 4));
    assert_eq!(q.sequence_len(), 1);
    assert!(q.is_starting_sequence());
    let seg = q.curr_pos();
    assert_eq!(seg.end(), (3, 4));
    assert_eq!(seg.start(), (3, 4));
    assert!(matches!(seg.pen(), PenPosition::Default));
}

#[test]
fn start_and_stop_toggle_running_only() {
    let mut q = Sequence::new();
    assert!(!q.is_running());
    q.add_pos(5, 7, PenPosition::Default, Interpolation::Linear).unwrap();
    q.start_sequence();
    assert!(q.is_running());
    assert_eq!(q.sequence_len(), 2);
    assert!(q.is_starting_sequence());
    q.stop_sequence();
    assert!(!q.is_running());
    assert_eq!(q.sequence_len(), 2);
}

#[test]
fn skip_to_moves_cursor_when_valid() {
    let mut q = Sequence::new();
    q.add_pos(5, 7, PenPosition::Default, Interpolation::Linear).unwrap();
    let seg = q.skip_to(1).unwrap();
    assert_eq!(seg.end(), (5, 7));
    assert!(!q.is_starting_sequence());
    assert!(q.skip_to(9).is_none());
    assert!(!q.is_starting_sequence());
}
