use plotter_motion::motion_controller::{DriveCommand, MotionController, MoveCommand};
use plotter_motion::pen::PenPosition;

fn is_driven(cmd: Option<DriveCommand>) -> bool {
    matches!(cmd, Some(DriveCommand::Positive(_)) | Some(DriveCommand::Negative(_)))
}

#[test]
fn idle_controller_brakes_both_axes() {
    let mut mc = MotionController::new(0);
    let r = mc.tick(0, 0, 1_000);
    assert_eq!(r.x, Some(DriveCommand::Stop));
    assert_eq!(r.y, Some(DriveCommand::Stop));
    assert!(r.pen.is_none());
}

#[test]
fn enqueue_starts_the_sequence() {
    let mut mc = MotionController::new(0);
    let cmds = [MoveCommand::LinearMove { x: 420_000, y: 0 }];
    assert_eq!(mc.enqueue_commands(&cmds), 1);
    assert!(mc.sequence.is_running());
    assert_eq!(mc.sequence.sequence_len(), 2);
}

#[test]
fn pure_x_move_never_drives_y() {
    let mut mc = MotionController::new(0);
    // a 10-pulse move along x only
    let cmds = [MoveCommand::LinearMove { x: 420_000, y: 0 }];
    assert_eq!(mc.enqueue_commands(&cmds), 1);
    let mut x: i32 = 0;
    let y: i32 = 0;
    let mut now: u64 = 1_000;
    let mut finished = false;
    for _ in 0..64 {
        let r = mc.tick(x, y, now);
        assert!(!is_driven(r.y), "the y axis must never be driven on a pure-x move");
        if r.x == Some(DriveCommand::Stop) && r.y == Some(DriveCommand::Stop) && x > 0 {
            finished = true;
            break;
        }
        match r.x {
            Some(DriveCommand::Positive(_)) => x += 1,
            Some(DriveCommand::Negative(_)) => x -= 1,
            _ => {},
        }
        now += 1_000;
    }
    assert!(finished, "the move must come to arrival and brake");
    assert_eq!(x, 10);
}

#[test]
fn arrival_advances_and_commands_pen_state() {
    let mut mc = MotionController::new(0);
    let cmds = [MoveCommand::RapidMove { x: Some(420_000), y: None, pen: Some(90) }];
    assert_eq!(mc.enqueue_commands(&cmds), 1);
    // the first tick sits on the seed segment, which is vacuously
    // arrived: the cursor advances and the new pen state is commanded
    let r = mc.tick(0, 0, 1_000);
    assert!(r.x.is_none() && r.y.is_none());
    assert_eq!(r.pen, Some(PenPosition::Angle(90)));
}

#[test]
fn drift_correction_realigns_progress_without_oscillating() {
    let mut mc = MotionController::new(0);
    // a 10-pulse move along x only
    let cmds = [MoveCommand::LinearMove { x: 420_000, y: 0 }];
    assert_eq!(mc.enqueue_commands(&cmds), 1);
    // consume the seed segment
    let r = mc.tick(0, 0, 1_000);
    assert!(r.pen.is_some());
    // x overshoots the expected point (progress is still zero): the
    // tracker realigns progress with the actual position and issues
    // no drive command on this tick
    let r = mc.tick(3, 0, 2_000);
    assert!(r.x.is_none() && r.y.is_none() && r.pen.is_none());
    // with progress realigned, the same position is now exactly the
    // expected point: ordinary forward drive resumes
    let r = mc.tick(3, 0, 3_000);
    assert_eq!(r.x, Some(DriveCommand::Positive(36)));
    assert_eq!(r.y, Some(DriveCommand::Stop));
    // repeated ticks with the same stale position fall behind the
    // advancing expected point and keep driving x steadily: no
    // oscillation back into the correction branch
    for k in 0..5 {
        let r = mc.tick(3, 0, 4_000 + k);
        assert_eq!(r.x, Some(DriveCommand::Positive(36)));
        assert_eq!(r.y, Some(DriveCommand::Stop));
        assert!(r.pen.is_none());
    }
}

#[test]
fn y_correction_takes_priority_over_x() {
    let mut mc = MotionController::new(0);
    // a diagonal move: 10 pulses on each axis
    let cmds = [MoveCommand::LinearMove { x: 420_000, y: 105_000 }];
    assert_eq!(mc.enqueue_commands(&cmds), 1);
    let r = mc.tick(0, 0, 1_000);
    assert!(r.pen.is_some());
    // both axes exactly at the expected point: both are driven
    let r = mc.tick(0, 0, 2_000);
    assert_eq!(r.x, Some(DriveCommand::Positive(36)));
    assert_eq!(r.y, Some(DriveCommand::Positive(18)));
    // y lags while x is exact: x is stopped, y corrected first
    let r = mc.tick(1, 0, 3_000);
    assert_eq!(r.x, Some(DriveCommand::Stop));
    assert_eq!(r.y, Some(DriveCommand::Positive(18)));
}

#[test]
fn full_queue_rejects_commands_and_keeps_state() {
    let mut mc = MotionController::new(0);
    let mut cmds = Vec::new();
    for i in 0i64..1023 {
        cmds.push(MoveCommand::LinearMove { x: i * 42_000, y: 0 });
    }
    assert_eq!(mc.enqueue_commands(&cmds), 1023);
    assert_eq!(mc.sequence.sequence_len(), 1024);
    // the queue is full: nothing is consumed, the caller backs off
    let more = [MoveCommand::LinearMove { x: 0, y: 0 }];
    assert_eq!(mc.enqueue_commands(&more), 0);
    assert_eq!(mc.sequence.sequence_len(), 1024);
}

#[test]
fn pen_only_rapid_updates_pending_pen() {
    let mut mc = MotionController::new(0);
    let cmds = [
        MoveCommand::RapidMove { x: None, y: None, pen: Some(42) },
        MoveCommand::LinearMove { x: 42_000, y: 0 },
    ];
    assert_eq!(mc.enqueue_commands(&cmds), 2);
    // the pen word alone appends nothing but sticks to the next segment
    assert_eq!(mc.sequence.sequence_len(), 2);
    assert!(matches!(mc.sequence.sequence.last_pos().pen(), PenPosition::Angle(42)));
}

#[test]
fn overfull_batch_is_consumed_only_up_to_capacity() {
    let mut mc = MotionController::new(0);
    let mut cmds = Vec::new();
    for i in 0i64..1030 {
        cmds.push(MoveCommand::LinearMove { x: i * 42_000, y: 0 });
    }
    // the drain stops at the first command that finds the queue full;
    // the tail is reported back instead of being dropped
    let taken = mc.enqueue_commands(&cmds);
    assert_eq!(taken, 1023);
    assert_eq!(mc.sequence.sequence_len(), 1024);
    assert_eq!(mc.enqueue_commands(&cmds[taken..]), 0);
    assert_eq!(mc.sequence.sequence_len(), 1024);
}

#[test]
fn stop_sequence_halts_tracking() {
    let mut mc = MotionController::new(0);
    let cmds = [MoveCommand::LinearMove { x: 420_000, y: 0 }];
    assert_eq!(mc.enqueue_commands(&cmds), 1);
    mc.stop_sequence();
    let r = mc.tick(0, 0, 1_000);
    assert_eq!(r.x, Some(DriveCommand::Stop));
    assert_eq!(r.y, Some(DriveCommand::Stop));
    assert!(r.pen.is_none());
}
