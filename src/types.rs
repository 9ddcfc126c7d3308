//! The packets exchanged between sensor node and host.

use vstd::prelude::*;

use crate::MAX_ENCODERS;

verus! {

/// Channel id of a reset command that addresses every channel.
pub const RESET_ALL_CHANNELS: u8 = 255;

/// One periodic report: a sequence number and the cumulative count of each
/// encoder channel, in channel order.
#[derive(Clone, Copy, Debug, Eq)]
pub struct SensorDataPacket {
    pub seq: u32,
    pub encoders: [i32; MAX_ENCODERS],
}

/// Asks the node to reset one channel, or all of them (`RESET_ALL_CHANNELS`).
#[derive(Clone, Copy, Debug, PartialEq, Eq, Structural)]
pub struct ResetCommand {
    pub encoder_id: u8,
}

/// Everything that can travel inside a frame.
#[derive(Clone, Copy, Debug, Eq)]
pub enum Packet {
    SensorData(SensorDataPacket),
    Reset(ResetCommand),
    Ping { timestamp: u32 },
    Pong { timestamp: u32 },
}

fn same_counts(a: &[i32; MAX_ENCODERS], b: &[i32; MAX_ENCODERS]) -> (r: bool)
    ensures
        r == (a@ == b@),
{
    let mut i: usize = 0;
    while i < MAX_ENCODERS
        invariant
            i <= MAX_ENCODERS,
            a@.len() == MAX_ENCODERS,
            b@.len() == MAX_ENCODERS,
            forall|j: int| 0 <= j < i ==> a@[j] == b@[j],
        decreases MAX_ENCODERS - i,
    {
        if a[i] != b[i] {
            return false;
        }
        i = i + 1;
    }
    assert(a@ =~= b@);
    true
}

impl PartialEq for SensorDataPacket {
    fn eq(&self, o: &SensorDataPacket) -> (r: bool) {
        self.seq == o.seq && same_counts(&self.encoders, &o.encoders)
    }
}

impl vstd::std_specs::cmp::PartialEqSpecImpl for SensorDataPacket {
    open spec fn obeys_eq_spec() -> bool {
        true
    }

    open spec fn eq_spec(&self, o: &SensorDataPacket) -> bool {
        self.seq == o.seq && self.encoders@ == o.encoders@
    }
}

impl PartialEq for Packet {
    fn eq(&self, o: &Packet) -> (r: bool) {
        match (self, o) {
            (Packet::SensorData(a), Packet::SensorData(b)) => a.eq(b),
            (Packet::Reset(a), Packet::Reset(b)) => a.encoder_id == b.encoder_id,
            (Packet::Ping { timestamp: a }, Packet::Ping { timestamp: b }) => *a == *b,
            (Packet::Pong { timestamp: a }, Packet::Pong { timestamp: b }) => *a == *b,
            _ => false,
        }
    }
}

impl vstd::std_specs::cmp::PartialEqSpecImpl for Packet {
    open spec fn obeys_eq_spec() -> bool {
        true
    }

    open spec fn eq_spec(&self, o: &Packet) -> bool {
        match (*self, *o) {
            (Packet::SensorData(a), Packet::SensorData(b)) => a.seq == b.seq && a.encoders@
                == b.encoders@,
            (Packet::Reset(a), Packet::Reset(b)) => a == b,
            (Packet::Ping { timestamp: a }, Packet::Ping { timestamp: b }) => a == b,
            (Packet::Pong { timestamp: a }, Packet::Pong { timestamp: b }) => a == b,
            _ => false,
        }
    }
}

/// Absolute value of a count, as a mathematical integer.
pub open spec fn magnitude(x: i32) -> int {
    if x < 0 { -(x as int) } else { x as int }
}

/// Sum of the absolute values of a sequence of counts.
pub open spec fn magnitude_sum(s: Seq<i32>) -> int
    decreases s.len(),
{
    if s.len() == 0 { 0 } else { magnitude_sum(s.drop_last()) + magnitude(s.last()) }
}

impl SensorDataPacket {
    pub fn new(seq: u32, encoders: [i32; MAX_ENCODERS]) -> (r: Self)
        ensures
            r.seq == seq,
            r.encoders == encoders,
    {
        Self { seq, encoders }
    }

    /// Total distance travelled by all channels: the sum of the absolute
    /// counts. The caller guarantees the sum fits an `i32`.
    pub fn total_movement(&self) -> (r: i32)
        requires
            magnitude_sum(self.encoders@) <= i32::MAX,
        ensures
            r == magnitude_sum(self.encoders@),
    {
        let mut acc: i64 = 0;
        let mut i: usize = 0;
        while i < MAX_ENCODERS
            invariant
                i <= MAX_ENCODERS,
                self.encoders@.len() == MAX_ENCODERS,
                acc == magnitude_sum(self.encoders@.subrange(0, i as int)),
                0 <= acc <= i * 0x8000_0000,
            decreases MAX_ENCODERS - i,
        {
            let x = self.encoders[i];
            let m: i64 = if x < 0 { -(x as i64) } else { x as i64 };
            proof {
                let pre = self.encoders@.subrange(0, i as int + 1);
                assert(pre.drop_last() =~= self.encoders@.subrange(0, i as int));
            }
            acc = acc + m;
            i = i + 1;
        }
        proof {
            assert(self.encoders@.subrange(0, MAX_ENCODERS as int) =~= self.encoders@);
        }
        acc as i32
    }

    /// True when some channel's count differs from `previous`.
    pub fn has_movement(&self, previous: &SensorDataPacket) -> (r: bool)
        ensures
            r == exists|i: int| 0 <= i < MAX_ENCODERS && self.encoders[i] != previous.encoders[i],
    {
        let mut i: usize = 0;
        while i < MAX_ENCODERS
            invariant
                i <= MAX_ENCODERS,
                forall|j: int| 0 <= j < i ==> self.encoders[j] == previous.encoders[j],
            decreases MAX_ENCODERS - i,
        {
            if self.encoders[i] != previous.encoders[i] {
                return true;
            }
            i = i + 1;
        }
        false
    }
}

impl ResetCommand {
    pub fn single(encoder_id: u8) -> (r: Self)
        ensures
            r.encoder_id == encoder_id,
    {
        Self { encoder_id }
    }

    pub fn all() -> (r: Self)
        ensures
            r.encoder_id == RESET_ALL_CHANNELS,
    {
        Self { encoder_id: RESET_ALL_CHANNELS }
    }

    pub fn resets_all(&self) -> (r: bool)
        ensures
            r == (self.encoder_id == RESET_ALL_CHANNELS),
    {
        self.encoder_id == RESET_ALL_CHANNELS
    }
}

/// A sensor report with the given sequence number and counts.
pub fn create_sensor_packet(seq: u32, encoders: [i32; MAX_ENCODERS]) -> (r: Packet)
    ensures
        r == Packet::SensorData(SensorDataPacket { seq, encoders }),
{
    Packet::SensorData(SensorDataPacket::new(seq, encoders))
}

/// A reset command for the given channel id.
pub fn create_reset_packet(encoder_id: u8) -> (r: Packet)
    ensures
        r == Packet::Reset(ResetCommand { encoder_id }),
{
    Packet::Reset(ResetCommand { encoder_id })
}

} // verus!
