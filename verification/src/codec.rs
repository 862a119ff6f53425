//! Fixed-layout decoding of device measurement records.

use vstd::prelude::*;
use vstd::bytes::{spec_u64_from_le_bytes, u64_from_le_bytes};
use vstd::slice::slice_subrange;

verus! {

/// Number of bytes in one on-wire measurement record: two 64-bit words.
pub const RECORD_BYTES: usize = 16;

/// One decoded measurement: a timestamp and a value, taken from a single
/// full 16-byte transfer. Both words are little-endian on the wire, the
/// device's native layout; a cross-endian producer is not supported.
#[derive(Debug, Clone, Copy, PartialEq, Eq, Structural)]
pub struct MeasurementRecord {
    pub timestamp: u64,
    pub value: u64,
}

/// The record encoded in a full 16-byte buffer: the timestamp occupies
/// bytes 0..8 and the value bytes 8..16, each little-endian.
pub open spec fn spec_decode(data: Seq<u8>) -> MeasurementRecord
    recommends
        data.len() == RECORD_BYTES,
{
    MeasurementRecord {
        timestamp: spec_u64_from_le_bytes(data.subrange(0, 8)),
        value: spec_u64_from_le_bytes(data.subrange(8, 16)),
    }
}

/// Decode one measurement record from the bytes a device read handed back.
/// Anything but a full 16-byte buffer yields no record at all, never a
/// record with partial or zeroed fields.
pub fn decode_record(data: &[u8]) -> (r: Option<MeasurementRecord>)
    ensures
        data@.len() == RECORD_BYTES ==> r == Some(spec_decode(data@)),
        data@.len() != RECORD_BYTES ==> r is None,
{
    if data.len() == RECORD_BYTES {
        let timestamp = u64_from_le_bytes(slice_subrange(data, 0, 8));
        let value = u64_from_le_bytes(slice_subrange(data, 8, 16));
        Some(MeasurementRecord { timestamp, value })
    } else {
        None
    }
}

} // verus!
