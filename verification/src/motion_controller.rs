//! Tick-driven dual-axis tracking with drift correction.
//!
//! Each tick the controller feeds the per-axis speed estimators,
//! evaluates arrival of the current segment, and decides how to drive
//! the two axes so that they stay synchronized along the straight line
//! between the segment's endpoints.  Progress along the segment is an
//! exact rational number `num / den` of unit steps, so every
//! comparison against the expected intermediate point is an exact
//! integer comparison, scaled by `den * len`.
//!
//! The controller never touches hardware: decoded commands, sensor
//! positions and the clock come in as arguments, and drive requests
//! for the two axes and the pen actuator come back in the result.

use vstd::prelude::*;
use crate::interpolator::{lemma_mul_bound, CircularInterpolationDir, Interpolation};
use crate::pen::PenPosition;
use crate::sequence::SequenceVector;
use crate::sequence_wrapper::SequenceWrapper;
use crate::speed_calc::PulseContedSpeedCalc;
use crate::stop_timer::StopTimer;
use crate::trig::{isqrt, lemma_sqrt_floor_unique, sqrt_floor_s};

verus! {

/// Fixed duty magnitude driven on the x axis.
pub const X_DUTY: u8 = 36;

/// Fixed duty magnitude driven on the y axis.
pub const Y_DUTY: u8 = 18;

/// Cap on the numerator of the progress fraction; far beyond any
/// reachable progress, it only closes the arithmetic.
pub const PROGRESS_LIMIT: i128 = 0x1_0000_0000_0000_0000_0000;

/// A request to one axis actuator: drive in a direction at a duty
/// magnitude, or brake.
#[derive(Clone, Copy, PartialEq, Eq, Debug)]
pub enum DriveCommand {
    Positive(u8),
    Negative(u8),
    Stop,
}

/// What one tick asks of the outside world.  `None` for an axis means
/// the previous request stays in force.
#[derive(Clone, Copy, PartialEq, Eq, Debug)]
pub struct TickOutput {
    pub x: Option<DriveCommand>,
    pub y: Option<DriveCommand>,
    pub pen: Option<PenPosition>,
}

/// A decoded movement command.  Coordinates and center offsets are in
/// nanometers; a pen angle is in degrees.
#[derive(Clone, Copy, Debug)]
#[allow(inconsistent_fields)]
pub enum MoveCommand {
    RapidMove { x: Option<i64>, y: Option<i64>, pen: Option<i32> },
    LinearMove { x: i64, y: i64 },
    ArcMove { x: i64, y: i64, center_i: i64, center_j: i64, clockwise: bool },
}

/// The sign of `v`: one of `-1`, `0`, `1`.
pub open spec fn sign_s(v: int) -> int {
    if v > 0 {
        1
    } else if v < 0 {
        -1
    } else {
        0
    }
}

/// The drive request for an axis moving in direction `dir`.
pub open spec fn drive_for(dir: int, duty: u8) -> DriveCommand {
    if dir > 0 {
        DriveCommand::Positive(duty)
    } else if dir < 0 {
        DriveCommand::Negative(duty)
    } else {
        DriveCommand::Stop
    }
}

/// Displacement of a segment on the x axis.
pub open spec fn seg_dx(seg: SequenceVector) -> int {
    seg.spec_end().0 - seg.spec_start().0
}

/// Displacement of a segment on the y axis.
pub open spec fn seg_dy(seg: SequenceVector) -> int {
    seg.spec_end().1 - seg.spec_start().1
}

/// Length of the straight line between a segment's endpoints, in
/// pulses, rounded down.
pub open spec fn seg_path_len(seg: SequenceVector) -> int {
    sqrt_floor_s(seg_dx(seg) * seg_dx(seg) + seg_dy(seg) * seg_dy(seg))
}

/// One axis has arrived when its position has passed or reached the
/// segment's end coordinate in the commanded direction; an axis with
/// no commanded motion is vacuously arrived.
pub open spec fn axis_arrived(pos: int, target: int, d: int) -> bool {
    (pos >= target && d > 0) || (pos <= target && d < 0) || d == 0
}

/// The segment counts as arrived when both axes have arrived, or when
/// neither axis has any commanded motion.
pub open spec fn seg_arrived(seg: SequenceVector, cx: int, cy: int) -> bool {
    (axis_arrived(cx, seg.spec_end().0, seg_dx(seg)) && axis_arrived(
        cy,
        seg.spec_end().1,
        seg_dy(seg),
    )) || (seg_dx(seg) == 0 && seg_dy(seg) == 0)
}

/// Position of `pos` relative to the expected intermediate coordinate
/// `start + d * num / (den * len)`, multiplied through by the positive
/// scale `den * len`: negative when the axis is before the expected
/// point, zero when exactly on it, positive when past it.
pub open spec fn rel_scaled(pos: int, start: int, d: int, num: int, den: int, len: int) -> int {
    (pos - start) * (den * len) - d * num
}

/// The progress numerator after one unit step, capped at
/// `PROGRESS_LIMIT`.
pub open spec fn bump_s(num: int, den: int) -> int {
    if num + den <= PROGRESS_LIMIT as int {
        num + den
    } else {
        num
    }
}

/// The tick-driven dual-axis motion controller.
pub struct MotionController {
    pub sequence: SequenceWrapper,
    stop_timer: StopTimer,
    x_opto: PulseContedSpeedCalc,
    y_opto: PulseContedSpeedCalc,
    progress_num: i128,
    progress_den: i128,
    x_pwm: i32,
    y_pwm: i32,
}

impl MotionController {
    /// The command translator and queue.
    pub closed spec fn spec_wrapper(self) -> SequenceWrapper {
        self.sequence
    }

    /// The actuator settle gate.
    pub closed spec fn spec_timer(self) -> StopTimer {
        self.stop_timer
    }

    /// The x-axis speed estimator.
    pub closed spec fn spec_x_opto(self) -> PulseContedSpeedCalc {
        self.x_opto
    }

    /// The y-axis speed estimator.
    pub closed spec fn spec_y_opto(self) -> PulseContedSpeedCalc {
        self.y_opto
    }

    /// Numerator of the progress fraction, in unit steps scaled by the
    /// denominator.
    pub closed spec fn spec_num(self) -> int {
        self.progress_num as int
    }

    /// Denominator of the progress fraction.
    pub closed spec fn spec_den(self) -> int {
        self.progress_den as int
    }

    /// Signed duty currently commanded on the x axis.
    pub closed spec fn spec_x_pwm(self) -> int {
        self.x_pwm as int
    }

    /// Signed duty currently commanded on the y axis.
    pub closed spec fn spec_y_pwm(self) -> int {
        self.y_pwm as int
    }

    /// The controller invariant: the queue invariant holds and the
    /// progress fraction is well formed and bounded.
    pub open spec fn wf(self) -> bool {
        &&& self.spec_wrapper().wf()
        &&& 1 <= self.spec_den() <= 0x1_0000_0000
        &&& -(PROGRESS_LIMIT as int) <= self.spec_num() <= PROGRESS_LIMIT as int
        &&& -100 <= self.spec_x_pwm() <= 100
        &&& -100 <= self.spec_y_pwm() <= 100
    }

    /// The segment the queue cursor points at.
    pub open spec fn spec_curr(self) -> SequenceVector {
        self.spec_wrapper().spec_sequence().spec_list()[self.spec_wrapper().spec_sequence().spec_cursor()]
    }

    /// Both axes braked, nothing else moved: the braked outcome of a
    /// tick.
    pub open spec fn braked_rel(pre: MotionController, post: MotionController, r: TickOutput) -> bool {
        &&& r.x == Some(DriveCommand::Stop)
        &&& r.y == Some(DriveCommand::Stop)
        &&& r.pen is None
        &&& post.spec_wrapper().spec_sequence().spec_list() == pre.spec_wrapper().spec_sequence().spec_list()
        &&& post.spec_wrapper().spec_sequence().spec_cursor() == pre.spec_wrapper().spec_sequence().spec_cursor()
        &&& post.spec_wrapper().spec_sequence().spec_running() == pre.spec_wrapper().spec_sequence().spec_running()
        &&& post.spec_num() == pre.spec_num()
        &&& post.spec_den() == pre.spec_den()
        &&& post.spec_x_pwm() == 0
        &&& post.spec_y_pwm() == 0
    }

    /// The tracking outcome of a tick, evaluated when the queue is
    /// running with work ahead and the settle gate is clear: the
    /// synchronization decision of the controller, in its fixed
    /// priority order.
    pub open spec fn track_rel(pre: MotionController, post: MotionController, cx: int, cy: int,
        r: TickOutput) -> bool {
        let seq = pre.spec_wrapper().spec_sequence();
        let seg = pre.spec_curr();
        let dx = seg_dx(seg);
        let dy = seg_dy(seg);
        if seg_arrived(seg, cx, cy) {
            if seq.spec_cursor() + 1 >= seq.spec_list().len() {
                // no next segment: brake and hold
                &&& Self::braked_rel(pre, post, r)
            } else {
                // advance to the next segment, command its pen state
                &&& post.spec_wrapper().spec_sequence().spec_list() == seq.spec_list()
                &&& post.spec_wrapper().spec_sequence().spec_cursor() == seq.spec_cursor() + 1
                &&& post.spec_wrapper().spec_sequence().spec_running() == seq.spec_running()
                &&& r.x is None
                &&& r.y is None
                &&& r.pen == Some(seq.spec_list()[seq.spec_cursor() + 1].spec_pen())
                &&& post.spec_num() == 0
                &&& post.spec_den() == 1
                &&& post.spec_x_pwm() == pre.spec_x_pwm()
                &&& post.spec_y_pwm() == pre.spec_y_pwm()
            }
        } else {
            let len = seg_path_len(seg);
            let relx = rel_scaled(cx, seg.spec_start().0, dx, pre.spec_num(), pre.spec_den(), len);
            let rely = rel_scaled(cy, seg.spec_start().1, dy, pre.spec_num(), pre.spec_den(), len);
            &&& post.spec_wrapper().spec_sequence().spec_list() == seq.spec_list()
            &&& post.spec_wrapper().spec_sequence().spec_cursor() == seq.spec_cursor()
            &&& post.spec_wrapper().spec_sequence().spec_running() == seq.spec_running()
            &&& r.pen is None
            &&& if relx == 0 && rely == 0 {
                // both axes exactly on the expected point: drive both
                &&& r.x == Some(drive_for(sign_s(dx), X_DUTY))
                &&& r.y == Some(drive_for(sign_s(dy), Y_DUTY))
                &&& post.spec_num() == bump_s(pre.spec_num(), pre.spec_den())
                &&& post.spec_den() == pre.spec_den()
                &&& post.spec_x_pwm() == 36 * sign_s(dx)
                &&& post.spec_y_pwm() == 18 * sign_s(dy)
            } else if (rely < 0 && dy > 0) || (rely > 0 && dy < 0) {
                // y lags its expected coordinate: correct y alone
                &&& r.x == Some(DriveCommand::Stop)
                &&& r.y == Some(drive_for(sign_s(dy), Y_DUTY))
                &&& post.spec_num() == pre.spec_num()
                &&& post.spec_den() == pre.spec_den()
                &&& post.spec_x_pwm() == 0
                &&& post.spec_y_pwm() == 18 * sign_s(dy)
            } else if (relx < 0 && dx > 0) || (relx > 0 && dx < 0) {
                // x lags its expected coordinate: correct x alone
                &&& r.x == Some(drive_for(sign_s(dx), X_DUTY))
                &&& r.y == Some(DriveCommand::Stop)
                &&& post.spec_num() == pre.spec_num()
                &&& post.spec_den() == pre.spec_den()
                &&& post.spec_x_pwm() == 36 * sign_s(dx)
                &&& post.spec_y_pwm() == 0
            } else {
                // overshoot: realign progress with the actual position,
                // resolving through x first, then y
                let over_x = (relx > 0 && dx > 0) || (relx < 0 && dx < 0);
                let n1 = if over_x {
                    (cx - seg.spec_start().0) * len * sign_s(dx)
                } else {
                    pre.spec_num()
                };
                let d1 = if over_x {
                    if dx >= 0 { dx } else { -dx }
                } else {
                    pre.spec_den()
                };
                let rely1 = rel_scaled(cy, seg.spec_start().1, dy, n1, d1, len);
                let over_y = (rely1 > 0 && dy > 0) || (rely1 < 0 && dy < 0);
                &&& r.x is None
                &&& r.y is None
                &&& post.spec_num() == if over_y {
                    (cy - seg.spec_start().1) * len * sign_s(dy)
                } else {
                    n1
                }
                &&& post.spec_den() == if over_y {
                    if dy >= 0 { dy } else { -dy }
                } else {
                    d1
                }
                &&& post.spec_x_pwm() == pre.spec_x_pwm()
                &&& post.spec_y_pwm() == pre.spec_y_pwm()
            }
        }
    }

    /// The whole effect of one tick: the estimators are fed with the
    /// previously commanded duties, the translator state stays put,
    /// and the outcome is either the braked or the tracking relation,
    /// with the settle gate consulted (and possibly consumed) only
    /// when the queue is running with work ahead.
    pub open spec fn tick_rel(pre: MotionController, post: MotionController, cx: int, cy: int,
        now: int, r: TickOutput) -> bool {
        let seq = pre.spec_wrapper().spec_sequence();
        &&& PulseContedSpeedCalc::ticked(
            pre.spec_x_opto(),
            post.spec_x_opto(),
            pre.spec_x_pwm(),
            cx,
            now,
        )
        &&& PulseContedSpeedCalc::ticked(
            pre.spec_y_opto(),
            post.spec_y_opto(),
            pre.spec_y_pwm(),
            cy,
            now,
        )
        &&& post.spec_wrapper().spec_home() == pre.spec_wrapper().spec_home()
        &&& post.spec_wrapper().spec_unit_x() == pre.spec_wrapper().spec_unit_x()
        &&& post.spec_wrapper().spec_unit_y() == pre.spec_wrapper().spec_unit_y()
        &&& post.spec_wrapper().spec_pen() == pre.spec_wrapper().spec_pen()
        &&& if !seq.spec_running() || seq.spec_list().len() <= 1 {
            &&& post.spec_timer() == pre.spec_timer()
            &&& Self::braked_rel(pre, post, r)
        } else {
            &&& post.spec_timer().spec_status() == (pre.spec_timer().spec_status() && now
                < pre.spec_timer().spec_end())
            &&& post.spec_timer().spec_start() == pre.spec_timer().spec_start()
            &&& post.spec_timer().spec_end() == pre.spec_timer().spec_end()
            &&& if pre.spec_timer().spec_status() && now < pre.spec_timer().spec_end() {
                Self::braked_rel(pre, post, r)
            } else {
                Self::track_rel(pre, post, cx, cy, r)
            }
        }
    }

    /// A fresh controller: empty queue, settle gate disarmed,
    /// estimators at rest, no duty commanded, progress zero.
    pub fn new(now: u64) -> (r: MotionController)
        ensures
            r.wf(),
            !r.spec_wrapper().spec_sequence().spec_running(),
            r.spec_wrapper().spec_sequence().spec_list().len() == 1,
            !r.spec_timer().spec_status(),
            r.spec_num() == 0,
            r.spec_den() == 1,
            r.spec_x_pwm() == 0,
            r.spec_y_pwm() == 0,
            r.spec_x_opto().spec_last_sample_time() == now,
            r.spec_y_opto().spec_last_sample_time() == now,
    {
        MotionController {
            sequence: SequenceWrapper::new(),
            stop_timer: StopTimer::new(),
            x_opto: PulseContedSpeedCalc::new(now),
            y_opto: PulseContedSpeedCalc::new(now),
            progress_num: 0,
            progress_den: 1,
            x_pwm: 0,
            y_pwm: 0,
        }
    }

    /// Starts tracing the queued segments.
    pub fn start_sequence(&mut self)
        requires
            old(self).wf(),
        ensures
            final(self).wf(),
            final(self).spec_wrapper().spec_sequence().spec_running(),
            final(self).spec_wrapper().spec_sequence().spec_list() == old(self).spec_wrapper()
                .spec_sequence().spec_list(),
            final(self).spec_wrapper().spec_sequence().spec_cursor() == old(self).spec_wrapper()
                .spec_sequence().spec_cursor(),
    {
        self.sequence.start();
    }

    /// Stops tracing; the caller brakes both axes.
    pub fn stop_sequence(&mut self)
        requires
            old(self).wf(),
        ensures
            final(self).wf(),
            !final(self).spec_wrapper().spec_sequence().spec_running(),
            final(self).spec_wrapper().spec_sequence().spec_list() == old(self).spec_wrapper()
                .spec_sequence().spec_list(),
            final(self).spec_wrapper().spec_sequence().spec_cursor() == old(self).spec_wrapper()
                .spec_sequence().spec_cursor(),
            final(self).spec_x_pwm() == 0,
            final(self).spec_y_pwm() == 0,
    {
        self.sequence.stop();
        self.x_pwm = 0;
        self.y_pwm = 0;
    }

    /// The most recently observed axis positions, in pulses.
    pub fn curr_pos(&self) -> (r: (i32, i32))
        ensures
            r.0 as int == self.spec_x_opto().spec_raw(),
            r.1 as int == self.spec_y_opto().spec_raw(),
    {
        (self.x_opto.pos(), self.y_opto.pos())
    }

    /// The pending pen state after an optional pen word: an explicit
    /// angle is clamped into `[0, 255]`, a missing one leaves the
    /// pending state alone.
    pub open spec fn pen_after(pre: PenPosition, pen: Option<i32>) -> PenPosition {
        match pen {
            Some(p) => PenPosition::Angle(crate::trig::clamp_s(p as int, 0, 255) as u8),
            None => pre,
        }
    }

    /// What translating one decoded command does to the queue: the
    /// exact segment appended (or the pen state carried) for each
    /// command shape.
    pub open spec fn interpreted(pre: SequenceWrapper, post: SequenceWrapper, cmd: MoveCommand) -> bool {
        let last_end = pre.spec_sequence().spec_list().last().spec_end();
        match cmd {
            MoveCommand::RapidMove { x, y, pen } => {
                let pp = Self::pen_after(pre.spec_pen(), pen);
                &&& post.spec_pen() == pp
                &&& match (x, y) {
                    (Some(vx), Some(vy)) => pre.grew_by(
                        post,
                        pre.spec_target_x(vx as int),
                        pre.spec_target_y(vy as int),
                        pp,
                        Interpolation::NoInterpolation,
                    ),
                    (Some(vx), None) => pre.grew_by(
                        post,
                        pre.spec_target_x(vx as int),
                        last_end.1,
                        pp,
                        Interpolation::NoInterpolation,
                    ),
                    (None, Some(vy)) => pre.grew_by(
                        post,
                        last_end.0,
                        pre.spec_target_y(vy as int),
                        pp,
                        Interpolation::NoInterpolation,
                    ),
                    (None, None) => post.spec_sequence().spec_list() == pre.spec_sequence()
                        .spec_list(),
                }
            },
            MoveCommand::LinearMove { x, y } => {
                &&& post.spec_pen() == pre.spec_pen()
                &&& pre.grew_by(
                    post,
                    pre.spec_target_x(x as int),
                    pre.spec_target_y(y as int),
                    pre.spec_pen(),
                    Interpolation::Linear,
                )
            },
            MoveCommand::ArcMove { x, y, center_i, center_j, clockwise } => {
                let dir = if clockwise {
                    CircularInterpolationDir::Clockwise
                } else {
                    CircularInterpolationDir::CounterClockwise
                };
                &&& post.spec_pen() == pre.spec_pen()
                &&& pre.grew_by(
                    post,
                    pre.spec_target_x(x as int),
                    pre.spec_target_y(y as int),
                    pre.spec_pen(),
                    Interpolation::Circular(
                        crate::trig::clamp_s(
                            crate::trig::rdiv_s(center_i as int, pre.spec_unit_x()),
                            i32::MIN as int,
                            i32::MAX as int,
                        ) as i32,
                        crate::trig::clamp_s(
                            crate::trig::rdiv_s(center_j as int, pre.spec_unit_y()),
                            i32::MIN as int,
                            i32::MAX as int,
                        ) as i32,
                        dir,
                    ),
                )
            },
        }
    }

    /// The queue is started when it was not running; everything else
    /// stays put.
    pub open spec fn started_rel(a: SequenceWrapper, b: SequenceWrapper) -> bool {
        if a.spec_sequence().spec_running() {
            b == a
        } else {
            &&& b.spec_sequence().spec_list() == a.spec_sequence().spec_list()
            &&& b.spec_sequence().spec_cursor() == a.spec_sequence().spec_cursor()
            &&& b.spec_sequence().spec_running()
            &&& b.spec_pen() == a.spec_pen()
            &&& b.spec_home() == a.spec_home()
            &&& b.spec_unit_x() == a.spec_unit_x()
            &&& b.spec_unit_y() == a.spec_unit_y()
        }
    }

    /// One drain step: the command is translated into the queue, and
    /// the queue is started when it was not running.
    pub open spec fn step_rel(pre: SequenceWrapper, post: SequenceWrapper, cmd: MoveCommand) -> bool {
        exists|mid: SequenceWrapper|
            #[trigger] Self::interpreted(pre, mid, cmd) && Self::started_rel(mid, post)
    }

    /// The whole drain: the commands applied in order, each one a
    /// `step_rel`.
    pub open spec fn drained_rel(pre: SequenceWrapper, cmds: Seq<MoveCommand>, post: SequenceWrapper) -> bool
        decreases cmds.len(),
    {
        if cmds.len() == 0 {
            post == pre
        } else {
            exists|mid: SequenceWrapper|
                #[trigger] Self::step_rel(pre, mid, cmds.first()) && Self::drained_rel(
                    mid,
                    cmds.skip(1),
                    post,
                )
        }
    }

    /// A drain extends by one step at its end.
    proof fn lemma_drained_snoc(pre: SequenceWrapper, s: Seq<MoveCommand>, mid: SequenceWrapper,
        c: MoveCommand, post: SequenceWrapper)
        requires
            Self::drained_rel(pre, s, mid),
            Self::step_rel(mid, post, c),
        ensures
            Self::drained_rel(pre, s.push(c), post),
        decreases s.len(),
    {
        assert(s.push(c).len() == s.len() + 1);
        if s.len() == 0 {
            assert(s.push(c).first() == c);
            assert(s.push(c).skip(1) =~= Seq::<MoveCommand>::empty());
            assert(mid == pre);
            assert(Self::step_rel(pre, post, c));
            assert(Self::drained_rel(post, s.push(c).skip(1), post));
        } else {
            let m1 = choose|m1: SequenceWrapper|
                #[trigger] Self::step_rel(pre, m1, s.first()) && Self::drained_rel(
                    m1,
                    s.skip(1),
                    mid,
                );
            Self::lemma_drained_snoc(m1, s.skip(1), mid, c, post);
            assert(s.push(c).first() == s.first());
            assert(s.push(c).skip(1) =~= s.skip(1).push(c));
            assert(Self::step_rel(pre, m1, s.push(c).first()) && Self::drained_rel(
                m1,
                s.push(c).skip(1),
                post,
            ));
        }
    }

    /// Translates one decoded command into the queue.
    fn interpret_command(&mut self, cmd: &MoveCommand)
        requires
            old(self).wf(),
        ensures
            final(self).wf(),
            Self::interpreted(old(self).spec_wrapper(), final(self).spec_wrapper(), *cmd),
            final(self).spec_wrapper().spec_home() == old(self).spec_wrapper().spec_home(),
            final(self).spec_wrapper().spec_unit_x() == old(self).spec_wrapper().spec_unit_x(),
            final(self).spec_wrapper().spec_unit_y() == old(self).spec_wrapper().spec_unit_y(),
            final(self).spec_wrapper().spec_sequence().spec_cursor() == old(self).spec_wrapper()
                .spec_sequence().spec_cursor(),
            final(self).spec_wrapper().spec_sequence().spec_running() == old(self).spec_wrapper()
                .spec_sequence().spec_running(),
            final(self).spec_timer() == old(self).spec_timer(),
            final(self).spec_x_opto() == old(self).spec_x_opto(),
            final(self).spec_y_opto() == old(self).spec_y_opto(),
            final(self).spec_num() == old(self).spec_num(),
            final(self).spec_den() == old(self).spec_den(),
            final(self).spec_x_pwm() == old(self).spec_x_pwm(),
            final(self).spec_y_pwm() == old(self).spec_y_pwm(),
            final(self).spec_wrapper().spec_sequence().spec_list().len() >= old(self).spec_wrapper()
                .spec_sequence().spec_list().len(),
            final(self).spec_wrapper().spec_sequence().spec_list().len() <= old(self).spec_wrapper()
                .spec_sequence().spec_list().len() + 1,
            final(self).spec_wrapper().spec_sequence().spec_list().subrange(
                0,
                old(self).spec_wrapper().spec_sequence().spec_list().len() as int,
            ) == old(self).spec_wrapper().spec_sequence().spec_list(),
    {
        let ghost pre_list = self.spec_wrapper().spec_sequence().spec_list();
        match *cmd {
            MoveCommand::RapidMove { x, y, pen } => {
                if let Some(p) = pen {
                    self.sequence.pen_pos(p);
                }
                match (x, y) {
                    (Some(vx), Some(vy)) => {
                        let _ = self.sequence.pos_rapid(vx, vy);
                    },
                    (Some(vx), None) => {
                        let _ = self.sequence.pos_x_rapid(vx);
                    },
                    (None, Some(vy)) => {
                        let _ = self.sequence.pos_y_rapid(vy);
                    },
                    (None, None) => {},
                }
            },
            MoveCommand::LinearMove { x, y } => {
                let _ = self.sequence.pos(x, y);
            },
            MoveCommand::ArcMove { x, y, center_i, center_j, clockwise } => {
                if clockwise {
                    let _ = self.sequence.arc_clockwise_relative_center(x, y, center_i, center_j);
                } else {
                    let _ = self.sequence.arc_counter_clockwise_relative_center(
                        x,
                        y,
                        center_i,
                        center_j,
                    );
                }
            },
        }
        proof {
            let post_list = self.spec_wrapper().spec_sequence().spec_list();
            assert(post_list.subrange(0, pre_list.len() as int) =~= pre_list);
        }
    }

    /// Drains decoded commands into the queue, in order, starting the
    /// queue as soon as a command has been taken.  The drain stops at
    /// the first command that finds the queue full, and the number of
    /// commands consumed is returned, so the caller can back off and
    /// resubmit the rest: nothing is dropped silently.
    pub fn enqueue_commands(&mut self, commands: &[MoveCommand]) -> (consumed: usize)
        requires
            old(self).wf(),
        ensures
            final(self).wf(),
            consumed <= commands@.len(),
            consumed < commands@.len() ==> final(self).spec_wrapper().spec_sequence().spec_list().len() >= 1024,
            consumed == 0 ==> *final(self) == *old(self),
            Self::drained_rel(
                old(self).spec_wrapper(),
                commands@.subrange(0, consumed as int),
                final(self).spec_wrapper(),
            ),
            final(self).spec_wrapper().spec_home() == old(self).spec_wrapper().spec_home(),
            final(self).spec_wrapper().spec_unit_x() == old(self).spec_wrapper().spec_unit_x(),
            final(self).spec_wrapper().spec_unit_y() == old(self).spec_wrapper().spec_unit_y(),
            final(self).spec_wrapper().spec_sequence().spec_cursor() == old(self).spec_wrapper()
                .spec_sequence().spec_cursor(),
            final(self).spec_timer() == old(self).spec_timer(),
            final(self).spec_x_opto() == old(self).spec_x_opto(),
            final(self).spec_y_opto() == old(self).spec_y_opto(),
            final(self).spec_num() == old(self).spec_num(),
            final(self).spec_den() == old(self).spec_den(),
            final(self).spec_x_pwm() == old(self).spec_x_pwm(),
            final(self).spec_y_pwm() == old(self).spec_y_pwm(),
            final(self).spec_wrapper().spec_sequence().spec_list().len() >= old(self).spec_wrapper()
                .spec_sequence().spec_list().len(),
            final(self).spec_wrapper().spec_sequence().spec_list().len() <= old(self).spec_wrapper()
                .spec_sequence().spec_list().len() + consumed,
            final(self).spec_wrapper().spec_sequence().spec_list().subrange(
                0,
                old(self).spec_wrapper().spec_sequence().spec_list().len() as int,
            ) == old(self).spec_wrapper().spec_sequence().spec_list(),
            consumed > 0 ==> final(self).spec_wrapper().spec_sequence().spec_running(),
    {
        let n = commands.len();
        let mut i: usize = 0;
        proof {
            assert(commands@.subrange(0, 0) =~= Seq::<MoveCommand>::empty());
        }
        while i < n
            invariant
                self.wf(),
                i <= n,
                n == commands@.len(),
                Self::drained_rel(
                    old(self).spec_wrapper(),
                    commands@.subrange(0, i as int),
                    self.spec_wrapper(),
                ),
                i == 0 ==> *self == *old(self),
                self.spec_wrapper().spec_home() == old(self).spec_wrapper().spec_home(),
                self.spec_wrapper().spec_unit_x() == old(self).spec_wrapper().spec_unit_x(),
                self.spec_wrapper().spec_unit_y() == old(self).spec_wrapper().spec_unit_y(),
                self.spec_wrapper().spec_sequence().spec_cursor() == old(self).spec_wrapper()
                    .spec_sequence().spec_cursor(),
                self.spec_timer() == old(self).spec_timer(),
                self.spec_x_opto() == old(self).spec_x_opto(),
                self.spec_y_opto() == old(self).spec_y_opto(),
                self.spec_num() == old(self).spec_num(),
                self.spec_den() == old(self).spec_den(),
                self.spec_x_pwm() == old(self).spec_x_pwm(),
                self.spec_y_pwm() == old(self).spec_y_pwm(),
                self.spec_wrapper().spec_sequence().spec_list().len() >= old(self).spec_wrapper()
                    .spec_sequence().spec_list().len(),
                self.spec_wrapper().spec_sequence().spec_list().len() <= old(self).spec_wrapper()
                    .spec_sequence().spec_list().len() + i,
                self.spec_wrapper().spec_sequence().spec_list().subrange(
                    0,
                    old(self).spec_wrapper().spec_sequence().spec_list().len() as int,
                ) == old(self).spec_wrapper().spec_sequence().spec_list(),
                i > 0 ==> self.spec_wrapper().spec_sequence().spec_running(),
            ensures
                i <= n,
                i < n ==> self.spec_wrapper().spec_sequence().spec_list().len() >= 1024,
            decreases n - i,
        {
            if !self.sequence.has_free_space() {
                break;
            }
            let ghost step_pre = self.spec_wrapper();
            let ghost mid_list = self.spec_wrapper().spec_sequence().spec_list();
            self.interpret_command(&commands[i]);
            let ghost step_mid = self.spec_wrapper();
            if !self.sequence.is_running() {
                self.sequence.start();
            }
            proof {
                let post_list = self.spec_wrapper().spec_sequence().spec_list();
                let old_list = old(self).spec_wrapper().spec_sequence().spec_list();
                let pre_len = old_list.len() as int;
                assert forall|k: int| 0 <= k < pre_len implies post_list[k] == old_list[k] by {
                    assert(mid_list.subrange(0, pre_len)[k] == old_list[k]);
                    assert(post_list.subrange(0, mid_list.len() as int)[k] == mid_list[k]);
                }
                assert(post_list.subrange(0, pre_len) =~= old_list);
                assert(Self::interpreted(step_pre, step_mid, commands@[i as int]));
                assert(Self::step_rel(step_pre, self.spec_wrapper(), commands@[i as int]));
                Self::lemma_drained_snoc(
                    old(self).spec_wrapper(),
                    commands@.subrange(0, i as int),
                    step_pre,
                    commands@[i as int],
                    self.spec_wrapper(),
                );
                assert(commands@.subrange(0, i as int).push(commands@[i as int])
                    =~= commands@.subrange(0, i as int + 1));
            }
            i = i + 1;
        }
        i
    }

    /// One control tick.  `x_pos` and `y_pos` are the raw axis
    /// positions and `now` the monotonic microsecond clock.  A full
    /// cycle of the original control loop is `enqueue_commands`
    /// followed by `tick`.
    #[verifier::rlimit(100)]
    #[verifier::spinoff_prover]
    pub fn tick(&mut self, x_pos: i32, y_pos: i32, now: u64) -> (r: TickOutput)
        requires
            old(self).wf(),
            now >= old(self).spec_x_opto().spec_last_sample_time(),
            now >= old(self).spec_y_opto().spec_last_sample_time(),
        ensures
            final(self).wf(),
            Self::tick_rel(*old(self), *final(self), x_pos as int, y_pos as int, now as int, r),
    {
        let x_duty = self.x_pwm;
        let y_duty = self.y_pwm;
        self.x_opto.tick(x_duty, x_pos, now);
        self.y_opto.tick(y_duty, y_pos, now);

        let braked = if !self.sequence.is_running() {
            true
        } else if self.sequence.sequence_len() <= 1 {
            true
        } else {
            self.stop_timer.is_running(now)
        };
        if braked {
            self.x_pwm = 0;
            self.y_pwm = 0;
            return TickOutput { x: Some(DriveCommand::Stop), y: Some(DriveCommand::Stop), pen: None };
        }

        let target = self.sequence.curr_pos();
        let (x1, y1) = target.start();
        let (x2, y2) = target.end();
        let dx = x2 as i64 - x1 as i64;
        let dy = y2 as i64 - y1 as i64;

        let arr_x = (x_pos >= x2 && dx > 0) || (x_pos <= x2 && dx < 0) || dx == 0;
        let arr_y = (y_pos >= y2 && dy > 0) || (y_pos <= y2 && dy < 0) || dy == 0;
        if (arr_x && arr_y) || (dx == 0 && dy == 0) {
            match self.sequence.advance() {
                None => {
                    self.x_pwm = 0;
                    self.y_pwm = 0;
                    return TickOutput {
                        x: Some(DriveCommand::Stop),
                        y: Some(DriveCommand::Stop),
                        pen: None,
                    };
                },
                Some(_) => {
                    let sqv = self.sequence.curr_pos();
                    self.progress_num = 0;
                    self.progress_den = 1;
                    return TickOutput { x: None, y: None, pen: Some(sqv.pen()) };
                },
            }
        }

        proof {
            lemma_mul_bound(dx as int, dx as int, 0x1_0000_0000, 0x1_0000_0000);
            lemma_mul_bound(dy as int, dy as int, 0x1_0000_0000, 0x1_0000_0000);
            assert(dx as i128 * dx as i128 >= 0 && dy as i128 * dy as i128 >= 0)
                by (nonlinear_arith);
        }
        let sq = dx as i128 * dx as i128 + dy as i128 * dy as i128;
        let lp = isqrt(sq as u128);
        proof {
            lemma_sqrt_floor_unique(sq as int, lp as int);
            assert(lp <= 0x4_0000_0000) by (nonlinear_arith)
                requires
                    lp * lp <= 0x2_0000_0000_0000_0000,
                    0 <= lp,
            ;
        }
        let len_p = lp as i128;

        proof {
            lemma_mul_bound(self.spec_den(), len_p as int, 0x1_0000_0000, 0x4_0000_0000);
        }
        let dden = self.progress_den * len_p;
        proof {
            lemma_mul_bound(
                x_pos as int - x1 as int,
                dden as int,
                0x1_0000_0000,
                (0x1_0000_0000 * 0x4_0000_0000) as int,
            );
            lemma_mul_bound(
                y_pos as int - y1 as int,
                dden as int,
                0x1_0000_0000,
                (0x1_0000_0000 * 0x4_0000_0000) as int,
            );
            lemma_mul_bound(dx as int, self.spec_num(), 0x1_0000_0000, PROGRESS_LIMIT as int);
            lemma_mul_bound(dy as int, self.spec_num(), 0x1_0000_0000, PROGRESS_LIMIT as int);
        }
        let relx = (x_pos as i128 - x1 as i128) * dden - dx as i128 * self.progress_num;
        let rely = (y_pos as i128 - y1 as i128) * dden - dy as i128 * self.progress_num;

        if relx == 0 && rely == 0 {
            if self.progress_num + self.progress_den <= PROGRESS_LIMIT {
                self.progress_num = self.progress_num + self.progress_den;
            }
            let xo = if dx > 0 {
                DriveCommand::Positive(X_DUTY)
            } else if dx < 0 {
                DriveCommand::Negative(X_DUTY)
            } else {
                DriveCommand::Stop
            };
            let yo = if dy > 0 {
                DriveCommand::Positive(Y_DUTY)
            } else if dy < 0 {
                DriveCommand::Negative(Y_DUTY)
            } else {
                DriveCommand::Stop
            };
            self.x_pwm = if dx > 0 { 36 } else if dx < 0 { -36 } else { 0 };
            self.y_pwm = if dy > 0 { 18 } else if dy < 0 { -18 } else { 0 };
            return TickOutput { x: Some(xo), y: Some(yo), pen: None };
        }
        if (rely < 0 && dy > 0) || (rely > 0 && dy < 0) {
            self.x_pwm = 0;
            self.y_pwm = if dy > 0 { 18 } else { -18 };
            let yo = if dy > 0 {
                DriveCommand::Positive(Y_DUTY)
            } else {
                DriveCommand::Negative(Y_DUTY)
            };
            return TickOutput { x: Some(DriveCommand::Stop), y: Some(yo), pen: None };
        }
        if (relx < 0 && dx > 0) || (relx > 0 && dx < 0) {
            self.y_pwm = 0;
            self.x_pwm = if dx > 0 { 36 } else { -36 };
            let xo = if dx > 0 {
                DriveCommand::Positive(X_DUTY)
            } else {
                DriveCommand::Negative(X_DUTY)
            };
            return TickOutput { x: Some(xo), y: Some(DriveCommand::Stop), pen: None };
        }

        let over_x = (relx > 0 && dx > 0) || (relx < 0 && dx < 0);
        if over_x {
            proof {
                lemma_mul_bound(
                    x_pos as int - x1 as int,
                    len_p as int,
                    0x1_0000_0000,
                    0x4_0000_0000,
                );
            }
            let base = (x_pos as i128 - x1 as i128) * len_p;
            self.progress_num = if dx > 0 { base } else { -base };
            self.progress_den = if dx >= 0 { dx as i128 } else { -(dx as i128) };
        }
        proof {
            lemma_mul_bound(self.spec_den(), len_p as int, 0x1_0000_0000, 0x4_0000_0000);
        }
        let dden2 = self.progress_den * len_p;
        proof {
            lemma_mul_bound(
                y_pos as int - y1 as int,
                dden2 as int,
                0x1_0000_0000,
                (0x1_0000_0000 * 0x4_0000_0000) as int,
            );
            lemma_mul_bound(dy as int, self.spec_num(), 0x1_0000_0000, PROGRESS_LIMIT as int);
        }
        let rely2 = (y_pos as i128 - y1 as i128) * dden2 - dy as i128 * self.progress_num;
        let over_y = (rely2 > 0 && dy > 0) || (rely2 < 0 && dy < 0);
        if over_y {
            proof {
                lemma_mul_bound(
                    y_pos as int - y1 as int,
                    len_p as int,
                    0x1_0000_0000,
                    0x4_0000_0000,
                );
            }
            let base = (y_pos as i128 - y1 as i128) * len_p;
            self.progress_num = if dy > 0 { base } else { -base };
            self.progress_den = if dy >= 0 { dy as i128 } else { -(dy as i128) };
        }
        TickOutput { x: None, y: None, pen: None }
    }
}

/// Law: a tick over a current segment with no commanded y motion
/// never asks the y axis to move: the y request is a brake or absent,
/// whatever the positions, the clock and the queue state.
pub proof fn lemma_pure_x_tick_never_drives_y(pre: MotionController, post: MotionController,
    cx: int, cy: int, now: int, r: TickOutput)
    requires
        MotionController::tick_rel(pre, post, cx, cy, now, r),
        seg_dy(pre.spec_curr()) == 0,
    ensures
        r.y is None || r.y == Some(DriveCommand::Stop),
{
}

/// Law: when both axes lag their expected intermediate point, the y
/// axis is corrected first: the tick stops x and drives y alone.
pub proof fn lemma_y_correction_has_priority(pre: MotionController, post: MotionController,
    cx: int, cy: int, now: int, r: TickOutput)
    requires
        MotionController::tick_rel(pre, post, cx, cy, now, r),
        pre.spec_wrapper().spec_sequence().spec_running(),
        pre.spec_wrapper().spec_sequence().spec_list().len() > 1,
        !(pre.spec_timer().spec_status() && now < pre.spec_timer().spec_end()),
        !seg_arrived(pre.spec_curr(), cx, cy),
        ({
            let seg = pre.spec_curr();
            let rely = rel_scaled(cy, seg.spec_start().1, seg_dy(seg), pre.spec_num(),
                pre.spec_den(), seg_path_len(seg));
            (rely < 0 && seg_dy(seg) > 0) || (rely > 0 && seg_dy(seg) < 0)
        }),
        ({
            let seg = pre.spec_curr();
            let relx = rel_scaled(cx, seg.spec_start().0, seg_dx(seg), pre.spec_num(),
                pre.spec_den(), seg_path_len(seg));
            (relx < 0 && seg_dx(seg) > 0) || (relx > 0 && seg_dx(seg) < 0)
        }),
    ensures
        r.x == Some(DriveCommand::Stop),
        r.y == Some(drive_for(sign_s(seg_dy(pre.spec_curr())), Y_DUTY)),
{
}

/// Law: when the x axis has overshot the expected point (and neither
/// axis lags, so the drift-correction outcome applies, and y does not
/// overshoot the realigned point in turn), the tick recomputes the
/// progress fraction from x's actual position: afterwards the x axis
/// is exactly on the expected intermediate point of the new progress.
pub proof fn lemma_drift_correction_realigns_x(pre: MotionController, post: MotionController,
    cx: int, cy: int, now: int, r: TickOutput)
    requires
        MotionController::tick_rel(pre, post, cx, cy, now, r),
        pre.spec_wrapper().spec_sequence().spec_running(),
        pre.spec_wrapper().spec_sequence().spec_list().len() > 1,
        !(pre.spec_timer().spec_status() && now < pre.spec_timer().spec_end()),
        !seg_arrived(pre.spec_curr(), cx, cy),
        ({
            let seg = pre.spec_curr();
            let dx = seg_dx(seg);
            let dy = seg_dy(seg);
            let len = seg_path_len(seg);
            let relx = rel_scaled(cx, seg.spec_start().0, dx, pre.spec_num(), pre.spec_den(), len);
            let rely = rel_scaled(cy, seg.spec_start().1, dy, pre.spec_num(), pre.spec_den(), len);
            let n1 = (cx - seg.spec_start().0) * len * sign_s(dx);
            let d1 = if dx >= 0 { dx } else { -dx };
            let rely1 = rel_scaled(cy, seg.spec_start().1, dy, n1, d1, len);
            &&& !(relx == 0 && rely == 0)
            &&& !((rely < 0 && dy > 0) || (rely > 0 && dy < 0))
            &&& !((relx < 0 && dx > 0) || (relx > 0 && dx < 0))
            &&& ((relx > 0 && dx > 0) || (relx < 0 && dx < 0))
            &&& !((rely1 > 0 && dy > 0) || (rely1 < 0 && dy < 0))
        }),
    ensures
        post.spec_num() == (cx - pre.spec_curr().spec_start().0) * seg_path_len(pre.spec_curr())
            * sign_s(seg_dx(pre.spec_curr())),
        rel_scaled(
            cx,
            pre.spec_curr().spec_start().0,
            seg_dx(pre.spec_curr()),
            post.spec_num(),
            post.spec_den(),
            seg_path_len(pre.spec_curr()),
        ) == 0,
        r.x is None,
        r.y is None,
{
    let seg = pre.spec_curr();
    let dx = seg_dx(seg);
    let len = seg_path_len(seg);
    let a = cx - seg.spec_start().0;
    let s = sign_s(dx);
    let d1 = if dx >= 0 { dx } else { -dx };
    assert(a * (d1 * len) - dx * (a * len * s) == 0) by (nonlinear_arith)
        requires
            (dx > 0 && s == 1 && d1 == dx) || (dx < 0 && s == -1 && d1 == -dx),
    ;
}

/// Law: once progress is realigned so that the x axis sits exactly on
/// its expected intermediate point, a tick over a segment with no
/// commanded y motion whose y reading is off its expected coordinate
/// leaves the progress fraction untouched and issues no request: the
/// drift correction is idempotent across repeated ticks with the same
/// readings, so it cannot oscillate.  (With both axes exactly on the
/// expected point the tick instead advances progress one step, by
/// design, so that case is excluded here.)
pub proof fn lemma_realigned_tick_keeps_progress(pre: MotionController, post: MotionController,
    cx: int, cy: int, now: int, r: TickOutput)
    requires
        MotionController::tick_rel(pre, post, cx, cy, now, r),
        pre.spec_wrapper().spec_sequence().spec_running(),
        pre.spec_wrapper().spec_sequence().spec_list().len() > 1,
        !(pre.spec_timer().spec_status() && now < pre.spec_timer().spec_end()),
        !seg_arrived(pre.spec_curr(), cx, cy),
        seg_dy(pre.spec_curr()) == 0,
        rel_scaled(cx, pre.spec_curr().spec_start().0, seg_dx(pre.spec_curr()), pre.spec_num(),
            pre.spec_den(), seg_path_len(pre.spec_curr())) == 0,
        rel_scaled(cy, pre.spec_curr().spec_start().1, seg_dy(pre.spec_curr()), pre.spec_num(),
            pre.spec_den(), seg_path_len(pre.spec_curr())) != 0,
    ensures
        post.spec_num() == pre.spec_num(),
        post.spec_den() == pre.spec_den(),
        r.x is None,
        r.y is None,
        r.pen is None,
{
}

} // verus!
