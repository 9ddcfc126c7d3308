//! Wire protocol shared between a rotary-encoder sensor node and its host:
//! packet types, the fixed-size checksummed frame that carries a
//! byte-stuffed payload, and the counter bank that the sampling side fills
//! and the transmitting side reads.

pub mod counters;
pub mod frame;
pub mod stuffing;
pub mod types;

use vstd::prelude::*;

pub use types::{Packet, ResetCommand, SensorDataPacket, create_reset_packet, create_sensor_packet};

verus! {

/// Number of encoder channels; one counter per channel.
pub const MAX_ENCODERS: usize = 8;

/// Size in bytes of every frame on the wire.
pub const BUFFER_SIZE: usize = 64;

/// Same as `BUFFER_SIZE`, under the name the host side uses.
pub const PACKET_SIZE: usize = 64;

/// Version of the wire protocol.
pub const PROTOCOL_VERSION: u8 = 1;

} // verus!
