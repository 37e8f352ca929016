//! Reading every point of a LAS file held in memory.

use vstd::prelude::*;
use crate::header::{
    has_signature, header_consistent, header_fault, header_matches, read_las_file_header,
    FormatError, LasFileHeader, HEADER_LEN,
};
use crate::little_endian::le_at;
use crate::record::{read_point_record, record_matches, PointRecord, POINT_RECORD_LEN};

verus! {

/// A decoded file: its header and its point records, in file order.
pub struct LasPointData {
    pub header: LasFileHeader,
    pub records: Vec<PointRecord>,
}

/// Where the point data of `b` starts, as its header declares.
pub open spec fn point_data_start(b: Seq<u8>) -> int {
    le_at(b, 96, 4) as int
}

/// How many complete records fit between the start of the point data and the
/// end of `b`; a shorter tail is not counted.
pub open spec fn record_count(b: Seq<u8>) -> nat {
    ((b.len() - point_data_start(b)) / POINT_RECORD_LEN as int) as nat
}

/// Decodes the header of `bytes`, moves to the point data that it declares, and
/// decodes records there until fewer than `POINT_RECORD_LEN` bytes remain.
///
/// A short tail ends the records without an error. Fails as
/// `read_las_file_header` does (a truncated header, a wrong signature, a header
/// that breaks its layout), and with `SeekFailed` when the point data would start
/// past the end of `bytes`. The header it returns is always consistent.
pub fn read_points(bytes: &[u8]) -> (r: Result<LasPointData, FormatError>)
    ensures
        bytes@.len() < HEADER_LEN ==> r == Err::<LasPointData, FormatError>(
            FormatError::HeaderTruncated { available: bytes@.len() as usize },
        ),
        bytes@.len() >= HEADER_LEN && !has_signature(bytes@) ==> r == Err::<
            LasPointData,
            FormatError,
        >(FormatError::InvalidSignature),
        bytes@.len() >= HEADER_LEN && has_signature(bytes@) && header_fault(bytes@) is Some ==> r
            == Err::<LasPointData, FormatError>(
            FormatError::InvalidHeaderField { field: header_fault(bytes@)->Some_0 },
        ),
        bytes@.len() >= HEADER_LEN && has_signature(bytes@) && header_fault(bytes@) is None
            && point_data_start(bytes@) > bytes@.len() ==> r == Err::<LasPointData, FormatError>(
            FormatError::SeekFailed {
                offset: point_data_start(bytes@) as u32,
                length: bytes@.len() as usize,
            },
        ),
        bytes@.len() >= HEADER_LEN && has_signature(bytes@) && header_fault(bytes@) is None
            && point_data_start(bytes@) <= bytes@.len() ==> (r matches Ok(d) && header_matches(d.header, bytes@)
            && d.records@.len() == record_count(bytes@) && forall|i: int|
            0 <= i < d.records@.len() ==> #[trigger] record_matches(
                d.records@[i],
                bytes@,
                point_data_start(bytes@) + POINT_RECORD_LEN * i,
            )),
        r matches Ok(d) ==> header_consistent(d.header),
{
    let header = match read_las_file_header(bytes) {
        Ok(h) => h,
        Err(e) => {
            return Err(e);
        },
    };
    let len: usize = bytes.len();
    let start: usize = header.offset_to_point_data as usize;
    if start > len {
        return Err(FormatError::SeekFailed { offset: header.offset_to_point_data, length: len });
    }
    let ghost b = bytes@;
    let mut records: Vec<PointRecord> = Vec::new();
    let mut pos: usize = start;
    loop
        invariant
            b == bytes@,
            len == b.len(),
            start == point_data_start(b),
            start <= pos <= len,
            pos == start + POINT_RECORD_LEN * records@.len(),
            forall|i: int|
                0 <= i < records@.len() ==> #[trigger] record_matches(
                    records@[i],
                    b,
                    start + POINT_RECORD_LEN * i,
                ),
        ensures
            len - pos < POINT_RECORD_LEN,
            pos == start + POINT_RECORD_LEN * records@.len(),
            forall|i: int|
                0 <= i < records@.len() ==> #[trigger] record_matches(
                    records@[i],
                    b,
                    start + POINT_RECORD_LEN * i,
                ),
        decreases len - pos,
    {
        // Truncation is the only error a record read reports: it ends the data.
        match read_point_record(bytes, pos) {
            Ok(p) => {
                records.push(p);
                pos = pos + POINT_RECORD_LEN;
            },
            Err(_) => {
                break;
            },
        }
    }
    let n = records.len();
    assert(n == record_count(b)) by (nonlinear_arith)
        requires
            pos == start + 30 * n,
            start <= pos <= len,
            len - pos < 30,
            record_count(b) == (len - start) / 30,
    ;
    Ok(LasPointData { header, records })
}

/// A point-data region of `n` complete records and a tail shorter than one
/// record holds exactly `n` points.
pub proof fn lemma_short_tail_not_counted(b: Seq<u8>, n: nat, tail: nat)
    requires
        b.len() == point_data_start(b) + POINT_RECORD_LEN * n + tail,
        tail < POINT_RECORD_LEN,
    ensures
        record_count(b) == n,
{
    let s = point_data_start(b);
    assert((b.len() - s) / 30 == n) by (nonlinear_arith)
        requires
            b.len() - s == 30 * n + tail,
            0 <= tail < 30,
    ;
}

/// A point-data region that starts at the end of the file holds no points.
pub proof fn lemma_empty_point_data(b: Seq<u8>)
    requires
        point_data_start(b) == b.len(),
    ensures
        record_count(b) == 0,
{
}

} // verus!
