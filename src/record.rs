//! The baseline point record: thirty bytes per point.

use vstd::prelude::*;
use crate::header::FormatError;
use crate::little_endian::{le_at, signed16, signed32, i16_at, i32_at, u16_at, u64_at};

verus! {

/// Length in bytes of one baseline point record.
pub const POINT_RECORD_LEN: usize = 30;

/// One point record as stored in the file. `gps_time` holds the IEEE-754
/// binary64 bit pattern of the time; `return_info` and `flags` are packed bytes
/// whose sub-fields the accessor methods extract.
#[derive(Debug, Clone, Copy, PartialEq, Eq, Structural)]
pub struct PointRecord {
    pub x: i32,
    pub y: i32,
    pub z: i32,
    pub intensity: u16,
    pub return_info: u8,
    pub flags: u8,
    pub classification: u8,
    pub user_data: u8,
    pub scan_angle: i16,
    pub point_source_id: u16,
    pub gps_time: u64,
}

/// Each field of `r` holds the bytes at its place in the record that starts at
/// byte `at` of `b`, little-endian.
pub open spec fn record_matches(r: PointRecord, b: Seq<u8>, at: int) -> bool {
    &&& 0 <= at
    &&& at + POINT_RECORD_LEN <= b.len()
    &&& r.x as int == signed32(le_at(b, at, 4))
    &&& r.y as int == signed32(le_at(b, at + 4, 4))
    &&& r.z as int == signed32(le_at(b, at + 8, 4))
    &&& r.intensity as nat == le_at(b, at + 12, 2)
    &&& r.return_info == b[at + 14]
    &&& r.flags == b[at + 15]
    &&& r.classification == b[at + 16]
    &&& r.user_data == b[at + 17]
    &&& r.scan_angle as int == signed16(le_at(b, at + 18, 2))
    &&& r.point_source_id as nat == le_at(b, at + 20, 2)
    &&& r.gps_time as nat == le_at(b, at + 22, 8)
}

/// Decodes the point record that starts at byte `at` of `bytes`.
///
/// Fails with `Truncated` exactly when fewer than `POINT_RECORD_LEN` bytes
/// remain there; this marks the end of the point data.
pub fn read_point_record(bytes: &[u8], at: usize) -> (r: Result<PointRecord, FormatError>)
    ensures
        at + POINT_RECORD_LEN <= bytes@.len() ==> (r matches Ok(p) && record_matches(
            p,
            bytes@,
            at as int,
        )),
        at + POINT_RECORD_LEN > bytes@.len() ==> r == Err::<PointRecord, FormatError>(
            FormatError::Truncated {
                position: at,
                available: if at <= bytes@.len() {
                    (bytes@.len() - at) as usize
                } else {
                    0usize
                },
            },
        ),
{
    let len: usize = bytes.len();
    if at > len {
        return Err(FormatError::Truncated { position: at, available: 0 });
    }
    if len - at < POINT_RECORD_LEN {
        return Err(FormatError::Truncated { position: at, available: len - at });
    }
    Ok(PointRecord {
        x: i32_at(bytes, at),
        y: i32_at(bytes, at + 4),
        z: i32_at(bytes, at + 8),
        intensity: u16_at(bytes, at + 12),
        return_info: bytes[at + 14],
        flags: bytes[at + 15],
        classification: bytes[at + 16],
        user_data: bytes[at + 17],
        scan_angle: i16_at(bytes, at + 18),
        point_source_id: u16_at(bytes, at + 20),
        gps_time: u64_at(bytes, at + 22),
    })
}

impl PointRecord {
    /// The return number: the low four bits of `return_info`.
    pub fn return_number(&self) -> (r: u8)
        ensures
            r == self.return_info & 0x0f,
            r == self.return_info % 16,
    {
        let b = self.return_info;
        assert(b & 0x0f == b % 16) by (bit_vector);
        b & 0x0f
    }

    /// The number of returns of the pulse: the high four bits of `return_info`.
    pub fn number_of_returns(&self) -> (r: u8)
        ensures
            r == (self.return_info >> 4) & 0x0f,
            r == self.return_info / 16,
    {
        let b = self.return_info;
        assert((b >> 4) & 0x0f == b / 16) by (bit_vector);
        (b >> 4) & 0x0f
    }

    /// The scanner channel: the low two bits of `flags`.
    pub fn scanner_channel(&self) -> (r: u8)
        ensures
            r == self.flags & 0x03,
            r == self.flags % 4,
    {
        let b = self.flags;
        assert(b & 0x03 == b % 4) by (bit_vector);
        b & 0x03
    }

    /// The scan direction flag: bit 6 of `flags`.
    pub fn scan_direction_flag(&self) -> (r: bool)
        ensures
            r == (self.flags & 0x40 != 0),
            r == ((self.flags / 64) % 2 == 1),
    {
        let b = self.flags;
        assert((b & 0x40 != 0) == ((b / 64) % 2 == 1)) by (bit_vector);
        b & 0x40 != 0
    }

    /// The edge-of-flight-line flag: bit 7 of `flags`.
    pub fn edge_of_flight_line(&self) -> (r: bool)
        ensures
            r == (self.flags & 0x80 != 0),
            r == (self.flags >= 128),
    {
        let b = self.flags;
        assert((b & 0x80 != 0) == (b >= 128)) by (bit_vector);
        b & 0x80 != 0
    }
}

} // verus!
