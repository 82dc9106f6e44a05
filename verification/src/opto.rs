//! Interrupt-driven quadrature decoder for a two-channel optical
//! sensor pair.
//!
//! Each sensor edge calls `isr`, which reads the two channel states
//! through the `OptoGpio` pins and steps the position up or down.  A
//! periodic `tick` with the current time decays the direction to
//! stationary when no edge has arrived for a while.

use vstd::prelude::*;

verus! {

/// Decoded direction of the last observed movement.
#[derive(Debug, Clone, Copy, PartialEq, Eq, Structural)]
pub enum DecodedDir {
    Positive,
    Negative,
    Stationary,
}

/// The two channel states of a quadrature sensor pair.  An
/// implementation defines what each channel reads as the spec-level
/// observations `spec_a` and `spec_b`, and its executable reads
/// return exactly those.
pub trait OptoGpio {
    spec fn spec_a(&self) -> bool;

    spec fn spec_b(&self) -> bool;

    fn opto_a_state(&self) -> (r: bool)
        ensures
            r == self.spec_a(),
    ;

    fn opto_b_state(&self) -> (r: bool)
        ensures
            r == self.spec_b(),
    ;
}

/// Quadrature decoder state over a sensor pair `T`.
pub struct OptoDecoder<T: OptoGpio + Sized> {
    pub pins: T,
    pos: i32,
    pass_by_duration: u64,
    last_pass_by: u64,
    dir: DecodedDir,
}

impl<T: OptoGpio + Sized> OptoDecoder<T> {
    /// The sensor pair the decoder reads.
    pub closed spec fn spec_pins(self) -> T {
        self.pins
    }

    /// Decoded position, in pulses.
    pub closed spec fn spec_pos(self) -> int {
        self.pos as int
    }

    /// Time between the two most recent edges, in microseconds.
    pub closed spec fn spec_pass_by_duration(self) -> u64 {
        self.pass_by_duration
    }

    /// Time of the most recent edge, in microseconds.
    pub closed spec fn spec_last_pass_by(self) -> u64 {
        self.last_pass_by
    }

    /// Decoded direction of the last observed movement.
    pub closed spec fn spec_dir(self) -> DecodedDir {
        self.dir
    }

    /// A decoder at position zero, stationary.
    pub fn new(opto: T) -> (r: OptoDecoder<T>)
        ensures
            r.spec_pos() == 0,
            r.spec_pass_by_duration() == 0,
            r.spec_last_pass_by() == 0,
            r.spec_dir() == DecodedDir::Stationary,
    {
        OptoDecoder {
            pins: opto,
            pos: 0i32,
            pass_by_duration: 0u64,
            last_pass_by: 0u64,
            dir: DecodedDir::Stationary,
        }
    }

    /// Decoded position, in pulses.
    pub fn pos(&self) -> (r: i32)
        ensures
            r == self.spec_pos(),
    {
        self.pos
    }

    /// Time between the two most recent edges, in microseconds.
    pub fn pass_by_duration(&self) -> (r: u64)
        ensures
            r == self.spec_pass_by_duration(),
    {
        self.pass_by_duration
    }

    /// Decoded direction of the last observed movement.
    pub fn dir(&self) -> (r: DecodedDir)
        ensures
            r == self.spec_dir(),
    {
        self.dir
    }

    /// Re-bases the decoded position.
    pub fn calibrate_pos(&mut self, base: i32)
        ensures
            final(self).spec_pos() == base,
            final(self).spec_pass_by_duration() == old(self).spec_pass_by_duration(),
            final(self).spec_last_pass_by() == old(self).spec_last_pass_by(),
            final(self).spec_dir() == old(self).spec_dir(),
    {
        self.pos = base;
    }

    /// Decays the decoded direction to stationary once 50 ms pass
    /// without an edge.  Meant to run repeatedly; `now` is the
    /// monotonic clock in microseconds.
    pub fn tick(&mut self, now: u64)
        requires
            now >= old(self).spec_last_pass_by(),
        ensures
            final(self).spec_pos() == old(self).spec_pos(),
            final(self).spec_last_pass_by() == old(self).spec_last_pass_by(),
            now - old(self).spec_last_pass_by() > 50_000 ==> {
                &&& final(self).spec_pass_by_duration() == 0
                &&& final(self).spec_dir() == DecodedDir::Stationary
            },
            now - old(self).spec_last_pass_by() <= 50_000 ==> {
                &&& final(self).spec_pass_by_duration() == old(self).spec_pass_by_duration()
                &&& final(self).spec_dir() == old(self).spec_dir()
            },
    {
        if now - self.last_pass_by > 50_000 {
            self.pass_by_duration = 0;
            self.dir = DecodedDir::Stationary;
        }
    }

    /// Interrupt service routine, one call per sensor edge: steps the
    /// position down when the two channel states differ and up when
    /// they agree, and records the direction.
    pub fn isr(&mut self)
        requires
            i32::MIN < old(self).spec_pos() < i32::MAX,
        ensures
            old(self).spec_pins().spec_a() != old(self).spec_pins().spec_b()
                ==> final(self).spec_pos() == old(self).spec_pos() - 1
                && final(self).spec_dir() == DecodedDir::Negative,
            old(self).spec_pins().spec_a() == old(self).spec_pins().spec_b()
                ==> final(self).spec_pos() == old(self).spec_pos() + 1
                && final(self).spec_dir() == DecodedDir::Positive,
            final(self).spec_pins() == old(self).spec_pins(),
            final(self).spec_pass_by_duration() == old(self).spec_pass_by_duration(),
            final(self).spec_last_pass_by() == old(self).spec_last_pass_by(),
    {
        if self.pins.opto_a_state() != self.pins.opto_b_state() {
            self.pos = self.pos - 1;
            self.dir = DecodedDir::Negative;
        } else {
            self.pos = self.pos + 1;
            self.dir = DecodedDir::Positive;
        }
    }
}

} // verus!
