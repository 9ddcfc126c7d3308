//! The counter bank shared by the sampling side, which adds encoder ticks,
//! and the transmitting side, which reads all counts once per period; and
//! the decisions each side takes per tick and per period.

use vstd::prelude::*;

use core::sync::atomic::Ordering;
use portable_atomic::AtomicI32;

use crate::types::{Packet, SensorDataPacket, create_sensor_packet};
use crate::MAX_ENCODERS;

verus! {

/// `portable_atomic::AtomicI32`, one counter cell; opaque here.
#[verifier::external_type_specification]
#[verifier::external_body]
pub struct ExAtomicI32(portable_atomic::AtomicI32);

/// Relies on `portable_atomic::AtomicI32::new`: an atomic cell holding `v`.
pub assume_specification[ portable_atomic::AtomicI32::new ](v: i32) -> portable_atomic::AtomicI32;

/// Relies on `portable_atomic::AtomicI32::load`: reads the cell in one
/// indivisible step; it panics on a `Release` or `AcqRel` ordering. The value
/// depends on the other side's updates, so nothing is promised of it here.
pub assume_specification[ portable_atomic::AtomicI32::load ](
    a: &portable_atomic::AtomicI32,
    order: core::sync::atomic::Ordering,
) -> i32
    requires
        !(order is Release),
        !(order is AcqRel),
;

/// Relies on `portable_atomic::AtomicI32::fetch_add`: adds to the cell in
/// one indivisible step, wrapping on overflow, and returns the previous value.
pub assume_specification[ portable_atomic::AtomicI32::fetch_add ](
    a: &portable_atomic::AtomicI32,
    val: i32,
    order: core::sync::atomic::Ordering,
) -> i32;

/// What the encoder-sampling primitive reports for one channel on one poll.
#[derive(Clone, Copy, Debug, PartialEq, Eq, Structural)]
pub enum Direction {
    Clockwise,
    Anticlockwise,
    Stationary,
}

/// The change a reported direction makes to the channel's count.
pub open spec fn delta_spec(d: Direction) -> int {
    match d {
        Direction::Clockwise => 1,
        Direction::Anticlockwise => -1,
        Direction::Stationary => 0,
    }
}

/// The change a reported direction makes to the channel's count.
pub fn delta_of(d: Direction) -> (r: i32)
    ensures
        r == delta_spec(d),
{
    match d {
        Direction::Clockwise => 1,
        Direction::Anticlockwise => -1,
        Direction::Stationary => 0,
    }
}

/// One cell per encoder channel, each updated and read atomically; no lock
/// is taken, and a snapshot makes no promise of cross-cell consistency.
pub struct CounterBank {
    cells: [AtomicI32; MAX_ENCODERS],
}

impl CounterBank {
    /// A bank with every count at zero.
    pub fn new() -> Self {
        CounterBank {
            cells: [
                AtomicI32::new(0),
                AtomicI32::new(0),
                AtomicI32::new(0),
                AtomicI32::new(0),
                AtomicI32::new(0),
                AtomicI32::new(0),
                AtomicI32::new(0),
                AtomicI32::new(0),
            ],
        }
    }

    /// Adds `delta` (+1 or -1) to the count of `channel`, in one atomic step.
    pub fn apply_delta(&self, channel: usize, delta: i32)
        requires
            channel < MAX_ENCODERS,
            delta == 1 || delta == -1,
    {
        self.cells[channel].fetch_add(delta, Ordering::SeqCst);
    }

    /// Applies what the sampling primitive reported for `channel`: +1 for
    /// clockwise, -1 for anticlockwise, nothing otherwise.
    pub fn record(&self, channel: usize, d: Direction)
        requires
            channel < MAX_ENCODERS,
    {
        let delta = delta_of(d);
        if delta != 0 {
            self.apply_delta(channel, delta);
        }
    }

    /// Reads every count, each in one atomic load, in channel order.
    pub fn snapshot(&self) -> [i32; MAX_ENCODERS] {
        let mut out = [0i32; MAX_ENCODERS];
        let mut i: usize = 0;
        while i < MAX_ENCODERS
            invariant
                i <= MAX_ENCODERS,
            decreases MAX_ENCODERS - i,
        {
            out[i] = self.cells[i].load(Ordering::SeqCst);
            i = i + 1;
        }
        out
    }
}

/// The transmitting side's work for one period, given the counts it read:
/// the report to send, and the sequence number of the next one, which wraps
/// silently past `u32::MAX`.
pub fn next_report(seq: u32, counts: [i32; MAX_ENCODERS]) -> (r: (Packet, u32))
    ensures
        r.0 == Packet::SensorData(SensorDataPacket { seq, encoders: counts }),
        r.1 == (if seq == u32::MAX { 0 } else { seq + 1 }),
{
    let packet = create_sensor_packet(seq, counts);
    (packet, seq.wrapping_add(1))
}

} // verus!
