//! The fixed-size frame: a sync header, a length byte, a COBS-stuffed
//! payload with its zero delimiter, zero padding, and a big-endian
//! CRC-16/KERMIT over header, length byte and stuffed payload.

use vstd::prelude::*;

use crate::stuffing::{
    cobs_decoding, cobs_encoding, cobs_stuff, cobs_unstuff, crc16_kermit, kermit_checksum,
};
use crate::BUFFER_SIZE;

verus! {

/// Marker that opens every frame; a receiver that lost alignment scans for it.
pub const SYNC_HEADER: [u8; 4] = [0xAA, 0x55, 0xAA, 0x55];

pub const SYNC_HEADER_LEN: usize = 4;

pub const LENGTH_FIELD_LEN: usize = 1;

pub const CRC_LEN: usize = 2;

/// Offset of the stuffed payload; the length byte sits just before it.
pub const PAYLOAD_START: usize = SYNC_HEADER_LEN + LENGTH_FIELD_LEN;

/// Most stuffed bytes (delimiter included) that fit between length byte and checksum.
pub const MAX_COBS_LEN: usize = BUFFER_SIZE - PAYLOAD_START - CRC_LEN;

/// Offset of the two checksum bytes.
pub const CRC_START: usize = BUFFER_SIZE - CRC_LEN;

/// Longest payload whose stuffed form fits a frame.
pub const MAX_PAYLOAD_LEN: usize = MAX_COBS_LEN - 2;

pub open spec fn sync_header() -> Seq<u8> {
    seq![0xAAu8, 0x55u8, 0xAAu8, 0x55u8]
}

/// What a payload occupies in the frame: its COBS encoding and the zero delimiter.
pub open spec fn stuffed(payload: Seq<u8>) -> Seq<u8> {
    cobs_encoding(payload).push(0u8)
}

/// The checksummed part of the frame for a payload: header, length byte, stuffed payload.
pub open spec fn checked_part(payload: Seq<u8>) -> Seq<u8> {
    sync_header() + seq![stuffed(payload).len() as u8] + stuffed(payload)
}

/// A checksum as two bytes, most significant first.
pub open spec fn be_bytes(c: u16) -> Seq<u8> {
    seq![(c / 256) as u8, (c % 256) as u8]
}

/// The frame that carries a payload.
pub open spec fn frame_of(payload: Seq<u8>) -> Seq<u8> {
    let body = checked_part(payload);
    body + Seq::new((CRC_START - body.len()) as nat, |i: int| 0u8) + be_bytes(crc16_kermit(body))
}

/// The length byte of a frame.
pub open spec fn length_field(buf: Seq<u8>) -> int {
    buf[SYNC_HEADER_LEN as int] as int
}

/// Size, header and length byte are all acceptable.
pub open spec fn well_shaped(buf: Seq<u8>) -> bool {
    &&& buf.len() == BUFFER_SIZE
    &&& buf.subrange(0, SYNC_HEADER_LEN as int) == sync_header()
    &&& 1 <= length_field(buf) <= MAX_COBS_LEN
}

/// The checksum a frame carries in its last two bytes.
pub open spec fn stored_checksum(buf: Seq<u8>) -> u16 {
    (buf[CRC_START as int] as int * 256 + buf[CRC_START as int + 1] as int) as u16
}

/// The bytes the checksum covers, as the length byte gives them.
pub open spec fn checked_region(buf: Seq<u8>) -> Seq<u8> {
    buf.subrange(0, PAYLOAD_START + length_field(buf))
}

/// The stuffed payload, as the length byte gives it.
pub open spec fn stuffed_region(buf: Seq<u8>) -> Seq<u8> {
    buf.subrange(PAYLOAD_START as int, PAYLOAD_START + length_field(buf))
}

/// The payload a received frame carries, or `None` where the frame is rejected.
pub open spec fn unframe(buf: Seq<u8>) -> Option<Seq<u8>> {
    if !well_shaped(buf) {
        None
    } else if stored_checksum(buf) != crc16_kermit(checked_region(buf)) {
        None
    } else {
        cobs_decoding(stuffed_region(buf))
    }
}

/// Builds the frame that carries `payload`, a serialized packet.
pub fn encode_frame(payload: &[u8]) -> (r: [u8; BUFFER_SIZE])
    requires
        payload@.len() <= MAX_PAYLOAD_LEN,
    ensures
        r@ == frame_of(payload@),
        r@.len() == BUFFER_SIZE,
        forall|j: int|
            PAYLOAD_START <= j < PAYLOAD_START + r@[SYNC_HEADER_LEN as int] - 1 ==> r@[j] != 0u8,
        unframe(r@) == Some(payload@),
{
    let mut buf = [0u8; BUFFER_SIZE];
    buf[0] = 0xAA;
    buf[1] = 0x55;
    buf[2] = 0xAA;
    buf[3] = 0x55;
    let enc = cobs_stuff(payload);
    let n = enc.len();
    let used = n + 1;
    buf[SYNC_HEADER_LEN] = used as u8;
    let mut i: usize = 0;
    while i < n
        invariant
            n == enc@.len(),
            n + 1 == used <= MAX_COBS_LEN,
            i <= n,
            buf@.len() == BUFFER_SIZE,
            buf@.subrange(0, SYNC_HEADER_LEN as int) == sync_header(),
            buf@[SYNC_HEADER_LEN as int] == used as u8,
            forall|j: int| 0 <= j < i ==> buf@[PAYLOAD_START + j] == enc@[j],
            forall|j: int| PAYLOAD_START + i <= j < BUFFER_SIZE ==> buf@[j] == 0u8,
        decreases n - i,
    {
        buf[PAYLOAD_START + i] = enc[i];
        i = i + 1;
        assert(buf@.subrange(0, SYNC_HEADER_LEN as int) =~= sync_header());
    }
    let end = PAYLOAD_START + used;
    let crc = kermit_checksum(&buf[0..end]);
    let ghost pre = buf@;
    buf[CRC_START] = (crc / 256) as u8;
    buf[CRC_START + 1] = (crc % 256) as u8;
    proof {
        let body = checked_part(payload@);
        let f = frame_of(payload@);
        assert(stuffed(payload@) =~= enc@.push(0u8));
        assert(pre.subrange(0, end as int) =~= body);
        assert(f.len() == BUFFER_SIZE);
        assert forall|j: int| 0 <= j < BUFFER_SIZE implies buf@[j] == f[j] by {
            if j < end {
                assert(pre.subrange(0, end as int)[j] == body[j]);
            }
        }
        assert(buf@ =~= f);
        assert(checked_region(buf@) =~= body);
        assert(stuffed_region(buf@) =~= stuffed(payload@));
        assert(buf@.subrange(0, SYNC_HEADER_LEN as int) =~= sync_header());
        assert(well_shaped(buf@));
        assert(stored_checksum(buf@) == crc) by (nonlinear_arith)
            requires
                buf@[CRC_START as int] == (crc / 256) as u8,
                buf@[CRC_START as int + 1] == (crc % 256) as u8,
        ;
    }
    buf
}

/// Checks size, sync header and length byte; gives the stuffed length.
pub fn stuffed_length(buf: &[u8]) -> (r: Option<usize>)
    ensures
        r is Some <==> well_shaped(buf@),
        r is Some ==> r.unwrap() == length_field(buf@),
{
    if buf.len() != BUFFER_SIZE {
        return None;
    }
    if buf[0] != 0xAA || buf[1] != 0x55 || buf[2] != 0xAA || buf[3] != 0x55 {
        proof {
            assert(buf@.subrange(0, SYNC_HEADER_LEN as int) != sync_header()) by {
                let h = buf@.subrange(0, SYNC_HEADER_LEN as int);
                assert(h[0] == buf@[0] && h[1] == buf@[1] && h[2] == buf@[2] && h[3] == buf@[3]);
            }
        }
        return None;
    }
    assert(buf@.subrange(0, SYNC_HEADER_LEN as int) =~= sync_header());
    let len = buf[SYNC_HEADER_LEN] as usize;
    if len == 0 || len > MAX_COBS_LEN {
        return None;
    }
    Some(len)
}

/// Compares the checksum a frame carries with one computed over it.
pub fn checksum_matches(buf: &[u8], computed: u16) -> (r: bool)
    requires
        buf@.len() == BUFFER_SIZE,
    ensures
        r == (stored_checksum(buf@) == computed),
{
    let stored: u16 = buf[CRC_START] as u16 * 256 + buf[CRC_START + 1] as u16;
    stored == computed
}

/// The payload a received frame carries, or `None` where the frame is
/// rejected: wrong size, wrong sync header, a length byte of 0 or above
/// `MAX_COBS_LEN`, a checksum mismatch, or stuffed bytes that do not decode.
pub fn decode_frame(buf: &[u8]) -> (r: Option<Vec<u8>>)
    ensures
        r is Some <==> unframe(buf@) is Some,
        r is Some ==> unframe(buf@) == Some(r.unwrap()@),
{
    let len = match stuffed_length(buf) {
        Some(l) => l,
        None => return None,
    };
    let end = PAYLOAD_START + len;
    let crc = kermit_checksum(&buf[0..end]);
    if !checksum_matches(buf, crc) {
        return None;
    }
    cobs_unstuff(&buf[PAYLOAD_START..end])
}

/// A frame whose length is not `BUFFER_SIZE` is rejected, whatever it holds.
pub proof fn lemma_wrong_size_rejected(buf: Seq<u8>)
    requires
        buf.len() != BUFFER_SIZE,
    ensures
        unframe(buf) is None,
{
}

/// Changing any byte of the sync header of a full-size frame to another
/// value makes the frame rejected, whatever the rest holds.
pub proof fn lemma_header_guard(buf: Seq<u8>, i: int, v: u8)
    requires
        buf.len() == BUFFER_SIZE,
        0 <= i < SYNC_HEADER_LEN,
        v != sync_header()[i],
    ensures
        unframe(buf.update(i, v)) is None,
{
    let b = buf.update(i, v);
    assert(b.subrange(0, SYNC_HEADER_LEN as int)[i] == v);
}

/// A length byte of 0, or of one more than `MAX_COBS_LEN`, makes a frame
/// rejected, whatever the rest holds.
pub proof fn lemma_length_guard(buf: Seq<u8>)
    requires
        buf.len() == BUFFER_SIZE,
    ensures
        unframe(buf.update(SYNC_HEADER_LEN as int, 0u8)) is None,
        unframe(buf.update(SYNC_HEADER_LEN as int, (MAX_COBS_LEN + 1) as u8)) is None,
{
    assert(length_field(buf.update(SYNC_HEADER_LEN as int, 0u8)) == 0);
    assert(length_field(buf.update(SYNC_HEADER_LEN as int, (MAX_COBS_LEN + 1) as u8))
        == MAX_COBS_LEN + 1);
}

/// Changing either stored checksum byte of an accepted frame to another
/// value makes the frame rejected: the checksummed bytes stay the same while
/// the stored checksum no longer matches them.
pub proof fn lemma_stored_checksum_guard(buf: Seq<u8>, k: int, v: u8)
    requires
        unframe(buf) is Some,
        0 <= k < CRC_LEN,
        v != buf[CRC_START + k],
    ensures
        unframe(buf.update(CRC_START + k, v)) is None,
{
    let b = buf.update(CRC_START + k, v);
    assert(length_field(b) == length_field(buf));
    assert(b.subrange(0, SYNC_HEADER_LEN as int) =~= buf.subrange(0, SYNC_HEADER_LEN as int));
    assert(checked_region(b) =~= checked_region(buf));
    let h0 = buf[CRC_START as int];
    let l0 = buf[CRC_START as int + 1];
    let h1 = b[CRC_START as int];
    let l1 = b[CRC_START as int + 1];
    assert(h0 != h1 || l0 != l1);
    assert((h0 as int * 256 + l0 as int) as u16 != (h1 as int * 256 + l1 as int) as u16)
        by (nonlinear_arith)
        requires
            h0 != h1 || l0 != l1,
    ;
}

} // verus!
