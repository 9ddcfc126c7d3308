//! The two transforms the frame borrows from outside crates: COBS byte
//! stuffing (`cobs`) and the CRC-16/KERMIT checksum (`crc`).

use vstd::prelude::*;

verus! {

/// COBS encoding of a byte string, without the trailing zero delimiter.
pub uninterp spec fn cobs_encoding(s: Seq<u8>) -> Seq<u8>;

/// COBS decoding of one zero-terminated frame: `None` where the bytes are
/// not a well-formed encoding.
pub uninterp spec fn cobs_decoding(s: Seq<u8>) -> Option<Seq<u8>>;

/// CRC-16/KERMIT checksum of a byte string.
pub uninterp spec fn crc16_kermit(s: Seq<u8>) -> u16;

/// Relies on `cobs::encode_vec`: the COBS encoding of `source`, without a
/// sentinel. The encoding holds no zero byte. An input shorter than 254
/// bytes holds no full 254-byte run, so the encoding adds exactly one code
/// byte; and `cobs::decode_vec` turns the encoding followed by a zero back
/// into `source`.
#[verifier::external_body]
pub(crate) fn cobs_stuff(source: &[u8]) -> (r: Vec<u8>)
    ensures
        r@ == cobs_encoding(source@),
        forall|i: int| 0 <= i < r@.len() ==> r@[i] != 0u8,
        source@.len() < 254 ==> r@.len() == source@.len() + 1,
        cobs_decoding(r@.push(0u8)) == Some(source@),
{
    cobs::encode_vec(source)
}

/// Relies on `cobs::decode_vec`: decodes the first zero-terminated COBS
/// frame of `source`, or fails.
#[verifier::external_body]
pub(crate) fn cobs_unstuff(source: &[u8]) -> (r: Option<Vec<u8>>)
    ensures
        r is Some <==> cobs_decoding(source@) is Some,
        r is Some ==> cobs_decoding(source@) == Some(r.unwrap()@),
{
    cobs::decode_vec(source).ok()
}

/// Relies on `crc::Crc::<u16>::checksum` with the `crc::CRC_16_KERMIT`
/// parameters.
#[verifier::external_body]
pub(crate) fn kermit_checksum(bytes: &[u8]) -> (r: u16)
    ensures
        r == crc16_kermit(bytes@),
{
    crc::Crc::<u16>::new(&crc::CRC_16_KERMIT).checksum(bytes)
}

} // verus!
