//! Bounded trajectory queue: an ordered backlog of motion segments
//! with a cursor and a running flag.
//!
//! The queue is never empty: it is seeded with a single origin segment
//! at creation and reseeded by `clear_sequence`.  The cursor always
//! indexes a valid element, and each appended segment starts where the
//! previous one ends.  The backlog itself lives in a fixed-capacity
//! `heapless::Vec` of 1024 entries; the queue reports a capacity error
//! instead of dropping a segment when it is full.

use vstd::prelude::*;
use crate::interpolator::{Interpolation, Interpolator};
use crate::pen::PenPosition;

verus! {

/// Capacity of the trajectory queue.
pub const SEQUENCE_CAPACITY: usize = 1024;

/// One queued motion segment: endpoints in pulses, the pen state to
/// hold while the segment is traced, and the path geometry.
#[derive(Clone, Copy)]
pub struct SequenceVector {
    start_x: i32,
    start_y: i32,
    end_x: i32,
    end_y: i32,
    pen: PenPosition,
    pub interpolator: Interpolator,
}

impl SequenceVector {
    /// Start point, in pulses.
    pub closed spec fn spec_start(self) -> (int, int) {
        (self.start_x as int, self.start_y as int)
    }

    /// End point, in pulses.
    pub closed spec fn spec_end(self) -> (int, int) {
        (self.end_x as int, self.end_y as int)
    }

    /// Pen state held while the segment is traced.
    pub closed spec fn spec_pen(self) -> PenPosition {
        self.pen
    }

    /// The geometry the segment was built with.
    pub closed spec fn spec_interp(self) -> Interpolator {
        self.interpolator
    }

    /// The segment's geometry agrees with its endpoints.
    pub open spec fn wf(self) -> bool {
        &&& self.spec_interp().wf()
        &&& self.spec_interp().spec_start() == self.spec_start()
        &&& self.spec_interp().spec_end() == self.spec_end()
    }

    /// Builds a segment and its geometry.
    pub fn new(end_x: i32, end_y: i32, pen: PenPosition, start_x: i32, start_y: i32, method:
        Interpolation) -> (r: SequenceVector)
        ensures
            r.wf(),
            r.spec_start() == (start_x as int, start_y as int),
            r.spec_end() == (end_x as int, end_y as int),
            r.spec_pen() == pen,
            r.spec_interp().spec_method() == method,
    {
        let interpolator = Interpolator::new((start_x, start_y), (end_x, end_y), method);
        SequenceVector { start_x, start_y, end_x, end_y, pen, interpolator }
    }

    /// End coordinate on the x axis.
    pub fn end_x(&self) -> (r: i32)
        ensures
            r as int == self.spec_end().0,
    {
        self.end_x
    }

    /// End coordinate on the y axis.
    pub fn end_y(&self) -> (r: i32)
        ensures
            r as int == self.spec_end().1,
    {
        self.end_y
    }

    /// Start point.
    pub fn start(&self) -> (r: (i32, i32))
        ensures
            (r.0 as int, r.1 as int) == self.spec_start(),
    {
        (self.start_x, self.start_y)
    }

    /// End point.
    pub fn end(&self) -> (r: (i32, i32))
        ensures
            (r.0 as int, r.1 as int) == self.spec_end(),
    {
        (self.end_x, self.end_y)
    }

    /// Pen state held while the segment is traced.
    pub fn pen(&self) -> (r: PenPosition)
        ensures
            r == self.spec_pen(),
    {
        self.pen
    }
}

/// Fixed-capacity backing store for the queued segments.  The store is
/// opaque to the verifier; its contents are named by `store_seq` and
/// every access goes through the trusted wrappers below, whose
/// contracts state what `heapless::Vec` does.
#[verifier::external_body]
pub struct SegmentStore {
    inner: heapless::Vec<SequenceVector, heapless::consts::U1024>,
}

/// The segments held by a store, oldest first.
pub uninterp spec fn store_seq(s: &SegmentStore) -> Seq<SequenceVector>;

/// Relies on heapless::Vec::new: a newly constructed vector is empty.
#[verifier::external_body]
fn store_new() -> (r: SegmentStore)
    ensures
        store_seq(&r) == Seq::<SequenceVector>::empty(),
{
    SegmentStore { inner: heapless::Vec::new() }
}

/// Relies on the slice `len` reached through heapless::Vec's `Deref`:
/// the number of stored segments.
#[verifier::external_body]
fn store_len(s: &SegmentStore) -> (r: usize)
    ensures
        r == store_seq(s).len(),
{
    s.inner.len()
}

/// Relies on heapless::Vec::push: the item is appended while the
/// vector is below its fixed capacity of 1024, and handed back
/// unchanged once the vector is full.
#[verifier::external_body]
fn store_push(s: &mut SegmentStore, v: SequenceVector) -> (r: Result<(), ()>)
    ensures
        store_seq(old(s)).len() < 1024 ==> r is Ok && store_seq(final(s)) == store_seq(old(s)).push(v),
        store_seq(old(s)).len() >= 1024 ==> r is Err && store_seq(final(s)) == store_seq(old(s)),
{
    match s.inner.push(v) {
        Ok(()) => Ok(()),
        Err(_) => Err(()),
    }
}

/// Relies on slice indexing reached through heapless::Vec's `Deref`:
/// the `i`-th stored segment.
#[verifier::external_body]
fn store_get(s: &SegmentStore, i: usize) -> (r: SequenceVector)
    requires
        i < store_seq(s).len(),
    ensures
        r == store_seq(s)[i as int],
{
    s.inner[i]
}

/// Relies on heapless::Vec::clear: every stored segment is removed.
#[verifier::external_body]
fn store_clear(s: &mut SegmentStore)
    ensures
        store_seq(final(s)) == Seq::<SequenceVector>::empty(),
{
    s.inner.clear()
}

/// Ordered backlog of motion segments with a cursor.
pub struct Sequence {
    sequence_list: SegmentStore,
    curr_sequence: usize,
    sequence_is_running: bool,
}

impl Sequence {
    /// The queued segments, oldest first.
    pub closed spec fn spec_list(self) -> Seq<SequenceVector> {
        store_seq(&self.sequence_list)
    }

    /// Index of the segment currently being traced.
    pub closed spec fn spec_cursor(self) -> int {
        self.curr_sequence as int
    }

    /// Whether the queue is started.
    pub closed spec fn spec_running(self) -> bool {
        self.sequence_is_running
    }

    /// The queue invariant: never empty, never over capacity, the
    /// cursor indexes a valid segment, every segment's geometry agrees
    /// with its endpoints, and each segment starts at the end of the
    /// one before it.
    pub open spec fn wf(self) -> bool {
        &&& 1 <= self.spec_list().len() <= 1024
        &&& 0 <= self.spec_cursor() < self.spec_list().len()
        &&& forall|k: int| 0 <= k < self.spec_list().len() ==> (#[trigger] self.spec_list()[k]).wf()
        &&& forall|k: int|
            1 <= k < self.spec_list().len() ==> (#[trigger] self.spec_list()[k]).spec_start()
                == self.spec_list()[k - 1].spec_end()
    }

    /// A stopped queue seeded with a single origin segment.
    pub fn new() -> (r: Sequence)
        ensures
            r.wf(),
            r.spec_list().len() == 1,
            r.spec_cursor() == 0,
            !r.spec_running(),
            r.spec_list()[0].spec_start() == (0int, 0int),
            r.spec_list()[0].spec_end() == (0int, 0int),
            r.spec_list()[0].spec_pen() == PenPosition::Default,
            r.spec_list()[0].spec_interp().spec_method() == Interpolation::Linear,
    {
        let mut sequence_list = store_new();
        let seed = SequenceVector::new(0, 0, PenPosition::Default, 0, 0, Interpolation::Linear);
        let _ = store_push(&mut sequence_list, seed);
        Sequence { sequence_list, curr_sequence: 0, sequence_is_running: false }
    }

    /// Appends a segment from the queue's current last end point to
    /// `(x, y)`.  Fails with a capacity error when 1024 segments are
    /// queued; nothing is dropped silently.
    pub fn add_pos(&mut self, x: i32, y: i32, pen: PenPosition, method: Interpolation) -> (r:
        Result<(), ()>)
        requires
            old(self).wf(),
        ensures
            final(self).wf(),
            final(self).spec_cursor() == old(self).spec_cursor(),
            final(self).spec_running() == old(self).spec_running(),
            r is Ok <==> old(self).spec_list().len() < 1024,
            old(self).spec_list().len() < 1024 ==> {
                let s = final(self).spec_list().last();
                &&& final(self).spec_list() == old(self).spec_list().push(s)
                &&& s.spec_start() == old(self).spec_list().last().spec_end()
                &&& s.spec_end() == (x as int, y as int)
                &&& s.spec_pen() == pen
                &&& s.spec_interp().spec_method() == method
            },
            old(self).spec_list().len() >= 1024 ==> final(self).spec_list() == old(self).spec_list(),
    {
        let len = store_len(&self.sequence_list);
        let (prev_x, prev_y) = if len == 0 {
            (x, y)
        } else {
            let prev = store_get(&self.sequence_list, len - 1);
            (prev.end_x(), prev.end_y())
        };
        let seg = SequenceVector::new(x, y, pen, prev_x, prev_y, method);
        match store_push(&mut self.sequence_list, seg) {
            Ok(()) => Ok(()),
            Err(()) => Err(()),
        }
    }

    /// The segment the cursor points at.
    pub fn curr_pos(&self) -> (r: SequenceVector)
        requires
            self.wf(),
        ensures
            r == self.spec_list()[self.spec_cursor()],
    {
        store_get(&self.sequence_list, self.curr_sequence)
    }

    /// The number of queued segments; at least one.
    pub fn sequence_len(&self) -> (r: usize)
        ensures
            r == self.spec_list().len(),
    {
        store_len(&self.sequence_list)
    }

    /// The segment the cursor points at.
    pub fn curr_sqv(&self) -> (r: SequenceVector)
        requires
            self.wf(),
        ensures
            r == self.spec_list()[self.spec_cursor()],
    {
        self.curr_pos()
    }

    /// Moves the cursor to the next segment and returns that segment's
    /// end point; at the tail it returns `None` and leaves the cursor
    /// unchanged.
    pub fn advance(&mut self) -> (r: Option<(i32, i32)>)
        requires
            old(self).wf(),
        ensures
            final(self).wf(),
            final(self).spec_list() == old(self).spec_list(),
            final(self).spec_running() == old(self).spec_running(),
            old(self).spec_cursor() + 1 < old(self).spec_list().len() ==> {
                &&& final(self).spec_cursor() == old(self).spec_cursor() + 1
                &&& r matches Some(p) && (p.0 as int, p.1 as int) == old(self).spec_list()[old(self)
                    .spec_cursor() + 1].spec_end()
            },
            old(self).spec_cursor() + 1 >= old(self).spec_list().len() ==> r is None
                && final(self).spec_cursor() == old(self).spec_cursor(),
    {
        let new_curr_sq = self.curr_sequence + 1;
        if new_curr_sq < store_len(&self.sequence_list) {
            self.curr_sequence = new_curr_sq;
            let sqv = store_get(&self.sequence_list, new_curr_sq);
            Some((sqv.end_x(), sqv.end_y()))
        } else {
            None
        }
    }

    /// Moves the cursor to `idx` if a segment exists there and returns
    /// that segment; otherwise leaves the cursor unchanged.
    pub fn skip_to(&mut self, idx: usize) -> (r: Option<SequenceVector>)
        requires
            old(self).wf(),
        ensures
            final(self).wf(),
            final(self).spec_list() == old(self).spec_list(),
            final(self).spec_running() == old(self).spec_running(),
            idx < old(self).spec_list().len() ==> final(self).spec_cursor() == idx && r
                == Some(old(self).spec_list()[idx as int]),
            idx >= old(self).spec_list().len() ==> r is None && final(self).spec_cursor() == old(
                self,
            ).spec_cursor(),
    {
        if idx < store_len(&self.sequence_list) {
            self.curr_sequence = idx;
            Some(store_get(&self.sequence_list, idx))
        } else {
            None
        }
    }

    /// Whether the queue is started.
    pub fn is_running(&self) -> (r: bool)
        ensures
            r == self.spec_running(),
    {
        self.sequence_is_running
    }

    /// Starts the queue; contents and cursor are untouched.
    pub fn start_sequence(&mut self)
        ensures
            final(self).spec_running(),
            final(self).spec_list() == old(self).spec_list(),
            final(self).spec_cursor() == old(self).spec_cursor(),
    {
        self.sequence_is_running = true;
    }

    /// Stops the queue; contents and cursor are untouched.
    pub fn stop_sequence(&mut self)
        ensures
            !final(self).spec_running(),
            final(self).spec_list() == old(self).spec_list(),
            final(self).spec_cursor() == old(self).spec_cursor(),
    {
        self.sequence_is_running = false;
    }

    /// Whether the cursor still points at the seed segment.
    pub fn is_starting_sequence(&self) -> (r: bool)
        ensures
            r == (self.spec_cursor() == 0),
    {
        self.curr_sequence == 0
    }

    /// Whether another segment can be appended.
    pub fn has_free_space(&self) -> (r: bool)
        ensures
            r == (self.spec_list().len() < 1024),
    {
        store_len(&self.sequence_list) < 1024
    }

    /// The most recently appended segment.
    pub fn last_pos(&self) -> (r: SequenceVector)
        requires
            self.wf(),
        ensures
            r == self.spec_list().last(),
    {
        let len = store_len(&self.sequence_list);
        store_get(&self.sequence_list, len - 1)
    }

    /// Discards all segments and reseeds the queue with a single
    /// segment whose start and end are `initial_pos`, carrying over
    /// the interpolation method of the previously current segment;
    /// the cursor returns to the head.
    pub fn clear_sequence(&mut self, initial_pos: (i32, i32))
        requires
            old(self).wf(),
        ensures
            final(self).wf(),
            final(self).spec_list().len() == 1,
            final(self).spec_cursor() == 0,
            final(self).spec_running() == old(self).spec_running(),
            final(self).spec_list()[0].spec_start() == (initial_pos.0 as int, initial_pos.1 as int),
            final(self).spec_list()[0].spec_end() == (initial_pos.0 as int, initial_pos.1 as int),
            final(self).spec_list()[0].spec_pen() == PenPosition::Default,
            final(self).spec_list()[0].spec_interp().spec_method() == old(self).spec_list()[old(
                self,
            ).spec_cursor()].spec_interp().spec_method(),
    {
        let last_pos = store_get(&self.sequence_list, self.curr_sequence);
        let method = last_pos.interpolator.interpolation_method();
        store_clear(&mut self.sequence_list);
        self.curr_sequence = 0;
        let seed = SequenceVector::new(
            initial_pos.0,
            initial_pos.1,
            PenPosition::Default,
            initial_pos.0,
            initial_pos.1,
            method,
        );
        let _ = store_push(&mut self.sequence_list, seed);
    }
}

/// Law: a well-formed queue never reports zero segments.
pub proof fn lemma_queue_never_empty(q: Sequence)
    requires
        q.wf(),
    ensures
        q.spec_list().len() >= 1,
{
}

/// Law: every linear segment of a well-formed queue, the seed and
/// each appended one alike, has length `max(|dx|, |dy|)` of its
/// endpoint delta.
pub proof fn lemma_queued_linear_length(q: Sequence, k: int)
    requires
        q.wf(),
        0 <= k < q.spec_list().len(),
        q.spec_list()[k].spec_interp().spec_method() is Linear,
    ensures
        q.spec_list()[k].spec_interp().spec_len() == crate::interpolator::chebyshev_s(
            q.spec_list()[k].spec_start(),
            q.spec_list()[k].spec_end(),
        ),
{
}

} // verus!
