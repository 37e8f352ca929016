//! The fixed LAS file header.

use vstd::prelude::*;
use crate::little_endian::{le_at, le_bytes, lemma_le_bytes_of_value, u16_at, u32_at, u64_at};

verus! {

/// Length in bytes of the fixed header prefix that is decoded.
pub const HEADER_LEN: usize = 247;

/// Why a LAS byte buffer could not be decoded.
#[derive(Debug, Clone, Copy, PartialEq, Eq, Structural)]
pub enum FormatError {
    /// The buffer holds fewer bytes than the fixed header needs.
    HeaderTruncated { available: usize },
    /// The first four bytes are not `LASF`.
    InvalidSignature,
    /// The declared offset of the point data lies beyond the end of the buffer.
    SeekFailed { offset: u32, length: usize },
    /// Fewer bytes remain at `position` than one point record needs.
    Truncated { position: usize, available: usize },
    /// The header breaks the layout that every LAS header keeps; `field` is the
    /// first field found at fault.
    InvalidHeaderField { field: HeaderField },
}

/// A header field that can break the header's layout.
#[derive(Debug, Clone, Copy, PartialEq, Eq, Structural)]
pub enum HeaderField {
    /// `offset_to_point_data` is below `header_size`: point data would overlap the header.
    OffsetToPointData,
    /// `x_scale_factor` is zero.
    XScaleFactor,
    /// `y_scale_factor` is zero.
    YScaleFactor,
    /// `z_scale_factor` is zero.
    ZScaleFactor,
}

/// The header of a LAS file. Each floating-point field holds the IEEE-754
/// binary64 bit pattern of its value, exactly as stored in the file.
#[derive(Debug, Clone, Copy)]
pub struct LasFileHeader {
    pub signature: [u8; 4],
    pub file_source_id: u16,
    pub global_encoding: u16,
    pub project_id_guid_data_1: u32,
    pub project_id_guid_data_2: u16,
    pub project_id_guid_data_3: u16,
    pub project_id_guid_data_4: [u8; 8],
    pub version_major: u8,
    pub version_minor: u8,
    pub system_identifier: [u8; 32],
    pub generating_software: [u8; 32],
    pub file_creation_day_of_year: u16,
    pub file_creation_year: u16,
    pub header_size: u16,
    pub offset_to_point_data: u32,
    pub number_of_variable_length_records: u32,
    pub point_data_record_format: u8,
    pub point_data_record_length: u16,
    pub legacy_number_of_point_records: u32,
    pub legacy_number_of_points_by_return: [u32; 5],
    pub x_scale_factor: u64,
    pub y_scale_factor: u64,
    pub z_scale_factor: u64,
    pub x_offset: u64,
    pub y_offset: u64,
    pub z_offset: u64,
    pub max_x: u64,
    pub max_y: u64,
    pub max_z: u64,
    pub min_x: u64,
    pub min_y: u64,
    pub min_z: u64,
    pub start_of_waveform_data_packet_record: u64,
    pub start_of_first_extended_variable_length_record: u64,
    pub number_of_extended_variable_length_records: u32,
}

/// The ASCII bytes `L A S F` that open every LAS file.
pub open spec fn las_signature() -> Seq<u8> {
    seq![0x4cu8, 0x41u8, 0x53u8, 0x46u8]
}

/// `b` starts with the LAS signature.
pub open spec fn has_signature(b: Seq<u8>) -> bool {
    b.len() >= 4 && b.subrange(0, 4) == las_signature()
}

/// The binary64 value with bit pattern `bits` is zero, of either sign: every
/// bit but the sign bit is clear.
pub open spec fn f64_bits_are_zero(bits: nat) -> bool {
    bits % 0x8000_0000_0000_0000 == 0
}

/// What a well-formed header holds: the LAS signature, point data that starts
/// no earlier than the header ends, and a non-zero scale on every axis.
pub open spec fn header_consistent(h: LasFileHeader) -> bool {
    &&& h.signature@ == las_signature()
    &&& h.offset_to_point_data >= h.header_size
    &&& !f64_bits_are_zero(h.x_scale_factor as nat)
    &&& !f64_bits_are_zero(h.y_scale_factor as nat)
    &&& !f64_bits_are_zero(h.z_scale_factor as nat)
}

/// The first field, in the order point offset, x, y and z scale, at which the
/// header bytes of `b` break the layout; `None` where there is none.
pub open spec fn header_fault(b: Seq<u8>) -> Option<HeaderField> {
    if le_at(b, 96, 4) < le_at(b, 94, 2) {
        Some(HeaderField::OffsetToPointData)
    } else if f64_bits_are_zero(le_at(b, 131, 8)) {
        Some(HeaderField::XScaleFactor)
    } else if f64_bits_are_zero(le_at(b, 139, 8)) {
        Some(HeaderField::YScaleFactor)
    } else if f64_bits_are_zero(le_at(b, 147, 8)) {
        Some(HeaderField::ZScaleFactor)
    } else {
        None
    }
}

/// Sign bit of a binary64 bit pattern.
const F64_SIGN_BIT: u64 = 0x8000_0000_0000_0000;

impl LasFileHeader {
    /// Whether this header is well formed: see `header_consistent`.
    pub fn is_consistent(&self) -> (r: bool)
        ensures
            r == header_consistent(*self),
    {
        let sig = self.signature;
        let sig_ok = sig[0] == 0x4c && sig[1] == 0x41 && sig[2] == 0x53 && sig[3] == 0x46;
        proof {
            if sig_ok {
                assert(self.signature@ =~= las_signature());
            }
        }
        sig_ok && self.offset_to_point_data >= self.header_size as u32
            && self.x_scale_factor % F64_SIGN_BIT != 0 && self.y_scale_factor % F64_SIGN_BIT != 0
            && self.z_scale_factor % F64_SIGN_BIT != 0
    }
}

/// Each field of `h` holds the bytes at its place in `b`, little-endian.
pub open spec fn header_matches(h: LasFileHeader, b: Seq<u8>) -> bool {
    &&& b.len() >= HEADER_LEN
    &&& h.signature@ == b.subrange(0, 4)
    &&& h.file_source_id as nat == le_at(b, 4, 2)
    &&& h.global_encoding as nat == le_at(b, 6, 2)
    &&& h.project_id_guid_data_1 as nat == le_at(b, 8, 4)
    &&& h.project_id_guid_data_2 as nat == le_at(b, 12, 2)
    &&& h.project_id_guid_data_3 as nat == le_at(b, 14, 2)
    &&& h.project_id_guid_data_4@ == b.subrange(16, 24)
    &&& h.version_major == b[24]
    &&& h.version_minor == b[25]
    &&& h.system_identifier@ == b.subrange(26, 58)
    &&& h.generating_software@ == b.subrange(58, 90)
    &&& h.file_creation_day_of_year as nat == le_at(b, 90, 2)
    &&& h.file_creation_year as nat == le_at(b, 92, 2)
    &&& h.header_size as nat == le_at(b, 94, 2)
    &&& h.offset_to_point_data as nat == le_at(b, 96, 4)
    &&& h.number_of_variable_length_records as nat == le_at(b, 100, 4)
    &&& h.point_data_record_format == b[104]
    &&& h.point_data_record_length as nat == le_at(b, 105, 2)
    &&& h.legacy_number_of_point_records as nat == le_at(b, 107, 4)
    &&& h.legacy_number_of_points_by_return@.len() == 5
    &&& forall|k: int|
        0 <= k < 5 ==> #[trigger] h.legacy_number_of_points_by_return@[k] as nat == le_at(
            b,
            111 + 4 * k,
            4,
        )
    &&& h.x_scale_factor as nat == le_at(b, 131, 8)
    &&& h.y_scale_factor as nat == le_at(b, 139, 8)
    &&& h.z_scale_factor as nat == le_at(b, 147, 8)
    &&& h.x_offset as nat == le_at(b, 155, 8)
    &&& h.y_offset as nat == le_at(b, 163, 8)
    &&& h.z_offset as nat == le_at(b, 171, 8)
    &&& h.max_x as nat == le_at(b, 179, 8)
    &&& h.max_y as nat == le_at(b, 187, 8)
    &&& h.max_z as nat == le_at(b, 195, 8)
    &&& h.min_x as nat == le_at(b, 203, 8)
    &&& h.min_y as nat == le_at(b, 211, 8)
    &&& h.min_z as nat == le_at(b, 219, 8)
    &&& h.start_of_waveform_data_packet_record as nat == le_at(b, 227, 8)
    &&& h.start_of_first_extended_variable_length_record as nat == le_at(b, 235, 8)
    &&& h.number_of_extended_variable_length_records as nat == le_at(b, 243, 4)
}

/// The bytes of `h` in file order: the header as a LAS file stores it.
pub open spec fn header_bytes(h: LasFileHeader) -> Seq<u8> {
    h.signature@ + le_bytes(h.file_source_id as nat, 2) + le_bytes(h.global_encoding as nat, 2)
        + le_bytes(h.project_id_guid_data_1 as nat, 4) + le_bytes(h.project_id_guid_data_2 as nat, 2)
        + le_bytes(h.project_id_guid_data_3 as nat, 2) + h.project_id_guid_data_4@
        + seq![h.version_major] + seq![h.version_minor] + h.system_identifier@
        + h.generating_software@ + le_bytes(h.file_creation_day_of_year as nat, 2)
        + le_bytes(h.file_creation_year as nat, 2) + le_bytes(h.header_size as nat, 2)
        + le_bytes(h.offset_to_point_data as nat, 4)
        + le_bytes(h.number_of_variable_length_records as nat, 4)
        + seq![h.point_data_record_format] + le_bytes(h.point_data_record_length as nat, 2)
        + le_bytes(h.legacy_number_of_point_records as nat, 4)
        + le_bytes(h.legacy_number_of_points_by_return@[0] as nat, 4)
        + le_bytes(h.legacy_number_of_points_by_return@[1] as nat, 4)
        + le_bytes(h.legacy_number_of_points_by_return@[2] as nat, 4)
        + le_bytes(h.legacy_number_of_points_by_return@[3] as nat, 4)
        + le_bytes(h.legacy_number_of_points_by_return@[4] as nat, 4)
        + le_bytes(h.x_scale_factor as nat, 8) + le_bytes(h.y_scale_factor as nat, 8)
        + le_bytes(h.z_scale_factor as nat, 8) + le_bytes(h.x_offset as nat, 8)
        + le_bytes(h.y_offset as nat, 8) + le_bytes(h.z_offset as nat, 8)
        + le_bytes(h.max_x as nat, 8) + le_bytes(h.max_y as nat, 8) + le_bytes(h.max_z as nat, 8)
        + le_bytes(h.min_x as nat, 8) + le_bytes(h.min_y as nat, 8) + le_bytes(h.min_z as nat, 8)
        + le_bytes(h.start_of_waveform_data_packet_record as nat, 8)
        + le_bytes(h.start_of_first_extended_variable_length_record as nat, 8)
        + le_bytes(h.number_of_extended_variable_length_records as nat, 4)
}

/// A field read little-endian from bytes `at .. at + n` writes back to those bytes.
proof fn lemma_field_bytes(b: Seq<u8>, at: int, n: int, v: nat)
    requires
        0 <= at,
        0 <= n,
        at + n <= b.len(),
        v == le_at(b, at, n),
    ensures
        le_bytes(v, n as nat) == b.subrange(at, at + n),
{
    lemma_le_bytes_of_value(b.subrange(at, at + n));
}

/// Round trip: a header decoded from `b`, written back out, gives the bytes
/// of `b` that it was decoded from.
pub proof fn lemma_header_round_trip(h: LasFileHeader, b: Seq<u8>)
    requires
        header_matches(h, b),
    ensures
        header_bytes(h) == b.subrange(0, HEADER_LEN as int),
{
    lemma_field_bytes(b, 4, 2, h.file_source_id as nat);
    lemma_field_bytes(b, 6, 2, h.global_encoding as nat);
    lemma_field_bytes(b, 8, 4, h.project_id_guid_data_1 as nat);
    lemma_field_bytes(b, 12, 2, h.project_id_guid_data_2 as nat);
    lemma_field_bytes(b, 14, 2, h.project_id_guid_data_3 as nat);
    lemma_field_bytes(b, 90, 2, h.file_creation_day_of_year as nat);
    lemma_field_bytes(b, 92, 2, h.file_creation_year as nat);
    lemma_field_bytes(b, 94, 2, h.header_size as nat);
    lemma_field_bytes(b, 96, 4, h.offset_to_point_data as nat);
    lemma_field_bytes(b, 100, 4, h.number_of_variable_length_records as nat);
    lemma_field_bytes(b, 105, 2, h.point_data_record_length as nat);
    lemma_field_bytes(b, 107, 4, h.legacy_number_of_point_records as nat);
    assert(h.legacy_number_of_points_by_return@[0] as nat == le_at(b, 111, 4));
    assert(h.legacy_number_of_points_by_return@[1] as nat == le_at(b, 115, 4));
    assert(h.legacy_number_of_points_by_return@[2] as nat == le_at(b, 119, 4));
    assert(h.legacy_number_of_points_by_return@[3] as nat == le_at(b, 123, 4));
    assert(h.legacy_number_of_points_by_return@[4] as nat == le_at(b, 127, 4));
    lemma_field_bytes(b, 111, 4, h.legacy_number_of_points_by_return@[0] as nat);
    lemma_field_bytes(b, 115, 4, h.legacy_number_of_points_by_return@[1] as nat);
    lemma_field_bytes(b, 119, 4, h.legacy_number_of_points_by_return@[2] as nat);
    lemma_field_bytes(b, 123, 4, h.legacy_number_of_points_by_return@[3] as nat);
    lemma_field_bytes(b, 127, 4, h.legacy_number_of_points_by_return@[4] as nat);
    lemma_field_bytes(b, 131, 8, h.x_scale_factor as nat);
    lemma_field_bytes(b, 139, 8, h.y_scale_factor as nat);
    lemma_field_bytes(b, 147, 8, h.z_scale_factor as nat);
    lemma_field_bytes(b, 155, 8, h.x_offset as nat);
    lemma_field_bytes(b, 163, 8, h.y_offset as nat);
    lemma_field_bytes(b, 171, 8, h.z_offset as nat);
    lemma_field_bytes(b, 179, 8, h.max_x as nat);
    lemma_field_bytes(b, 187, 8, h.max_y as nat);
    lemma_field_bytes(b, 195, 8, h.max_z as nat);
    lemma_field_bytes(b, 203, 8, h.min_x as nat);
    lemma_field_bytes(b, 211, 8, h.min_y as nat);
    lemma_field_bytes(b, 219, 8, h.min_z as nat);
    lemma_field_bytes(b, 227, 8, h.start_of_waveform_data_packet_record as nat);
    lemma_field_bytes(b, 235, 8, h.start_of_first_extended_variable_length_record as nat);
    lemma_field_bytes(b, 243, 4, h.number_of_extended_variable_length_records as nat);
    assert(seq![h.version_major] =~= b.subrange(24, 25));
    assert(seq![h.version_minor] =~= b.subrange(25, 26));
    assert(seq![h.point_data_record_format] =~= b.subrange(104, 105));
    assert(header_bytes(h) =~= b.subrange(0, HEADER_LEN as int));
}

/// The bytes `at .. at + N` of `b`, as an array.
fn byte_array<const N: usize>(b: &[u8], at: usize) -> (r: [u8; N])
    requires
        at + N <= b@.len(),
    ensures
        r@ == b@.subrange(at as int, at + N),
{
    let len: usize = b.len();
    let mut r: [u8; N] = [0u8; N];
    let mut i: usize = 0;
    while i < N
        invariant
            len == b@.len(),
            at + N <= len,
            i <= N,
            r@.len() == N,
            forall|k: int| 0 <= k < i ==> r@[k] == b@[at + k],
        decreases N - i,
    {
        r[i] = b[at + i];
        i = i + 1;
    }
    assert(r@ =~= b@.subrange(at as int, at + N));
    r
}

/// Decodes the fixed header at the start of `bytes`.
///
/// Fails with `HeaderTruncated` when fewer than `HEADER_LEN` bytes are there,
/// otherwise with `InvalidSignature` when the first four bytes are not `LASF`, and
/// otherwise with `InvalidHeaderField` when the header breaks its layout
/// (`header_fault`). A header it returns is always consistent.
pub fn read_las_file_header(bytes: &[u8]) -> (r: Result<LasFileHeader, FormatError>)
    ensures
        bytes@.len() < HEADER_LEN ==> r == Err::<LasFileHeader, FormatError>(
            FormatError::HeaderTruncated { available: bytes@.len() as usize },
        ),
        bytes@.len() >= HEADER_LEN && !has_signature(bytes@) ==> r == Err::<
            LasFileHeader,
            FormatError,
        >(FormatError::InvalidSignature),
        bytes@.len() >= HEADER_LEN && has_signature(bytes@) && header_fault(bytes@) is Some ==> r
            == Err::<LasFileHeader, FormatError>(
            FormatError::InvalidHeaderField { field: header_fault(bytes@)->Some_0 },
        ),
        bytes@.len() >= HEADER_LEN && has_signature(bytes@) && header_fault(bytes@) is None ==> (
        r matches Ok(h) && header_matches(h, bytes@)),
        r matches Ok(h) ==> header_consistent(h),
{
    let len: usize = bytes.len();
    if len < HEADER_LEN {
        return Err(FormatError::HeaderTruncated { available: len });
    }
    if !(bytes[0] == 0x4c && bytes[1] == 0x41 && bytes[2] == 0x53 && bytes[3] == 0x46) {
        proof {
            if has_signature(bytes@) {
                assert(bytes@.subrange(0, 4)[0] == bytes@[0]);
                assert(bytes@.subrange(0, 4)[1] == bytes@[1]);
                assert(bytes@.subrange(0, 4)[2] == bytes@[2]);
                assert(bytes@.subrange(0, 4)[3] == bytes@[3]);
            }
        }
        return Err(FormatError::InvalidSignature);
    }
    assert(bytes@.subrange(0, 4) =~= las_signature());
    let by_return: [u32; 5] = [
        u32_at(bytes, 111),
        u32_at(bytes, 115),
        u32_at(bytes, 119),
        u32_at(bytes, 123),
        u32_at(bytes, 127),
    ];
    let h = LasFileHeader {
        signature: byte_array::<4>(bytes, 0),
        file_source_id: u16_at(bytes, 4),
        global_encoding: u16_at(bytes, 6),
        project_id_guid_data_1: u32_at(bytes, 8),
        project_id_guid_data_2: u16_at(bytes, 12),
        project_id_guid_data_3: u16_at(bytes, 14),
        project_id_guid_data_4: byte_array::<8>(bytes, 16),
        version_major: bytes[24],
        version_minor: bytes[25],
        system_identifier: byte_array::<32>(bytes, 26),
        generating_software: byte_array::<32>(bytes, 58),
        file_creation_day_of_year: u16_at(bytes, 90),
        file_creation_year: u16_at(bytes, 92),
        header_size: u16_at(bytes, 94),
        offset_to_point_data: u32_at(bytes, 96),
        number_of_variable_length_records: u32_at(bytes, 100),
        point_data_record_format: bytes[104],
        point_data_record_length: u16_at(bytes, 105),
        legacy_number_of_point_records: u32_at(bytes, 107),
        legacy_number_of_points_by_return: by_return,
        x_scale_factor: u64_at(bytes, 131),
        y_scale_factor: u64_at(bytes, 139),
        z_scale_factor: u64_at(bytes, 147),
        x_offset: u64_at(bytes, 155),
        y_offset: u64_at(bytes, 163),
        z_offset: u64_at(bytes, 171),
        max_x: u64_at(bytes, 179),
        max_y: u64_at(bytes, 187),
        max_z: u64_at(bytes, 195),
        min_x: u64_at(bytes, 203),
        min_y: u64_at(bytes, 211),
        min_z: u64_at(bytes, 219),
        start_of_waveform_data_packet_record: u64_at(bytes, 227),
        start_of_first_extended_variable_length_record: u64_at(bytes, 235),
        number_of_extended_variable_length_records: u32_at(bytes, 243),
    };
    assert(forall|k: int|
        0 <= k < 5 ==> #[trigger] h.legacy_number_of_points_by_return@[k] as nat == le_at(
            bytes@,
            111 + 4 * k,
            4,
        ));
    if h.offset_to_point_data < h.header_size as u32 {
        return Err(FormatError::InvalidHeaderField { field: HeaderField::OffsetToPointData });
    }
    if h.x_scale_factor % F64_SIGN_BIT == 0 {
        return Err(FormatError::InvalidHeaderField { field: HeaderField::XScaleFactor });
    }
    if h.y_scale_factor % F64_SIGN_BIT == 0 {
        return Err(FormatError::InvalidHeaderField { field: HeaderField::YScaleFactor });
    }
    if h.z_scale_factor % F64_SIGN_BIT == 0 {
        return Err(FormatError::InvalidHeaderField { field: HeaderField::ZScaleFactor });
    }
    Ok(h)
}

} // verus!
