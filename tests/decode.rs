use cloud_glimpse::{
    read_las_file_header, read_point_record, read_points, FormatError, HeaderField, LasFileHeader,
    PointRecord, HEADER_LEN, POINT_RECORD_LEN,
};

struct HeaderSpec {
    header_size: u16,
    offset_to_point_data: u32,
    scales: [f64; 3],
    offsets: [f64; 3],
}

fn standard_spec(offset_to_point_data: u32) -> HeaderSpec {
    HeaderSpec {
        header_size: HEADER_LEN as u16,
        offset_to_point_data,
        scales: [0.01, 0.01, 0.01],
        offsets: [0.0, 0.0, 0.0],
    }
}

fn header_bytes(spec: &HeaderSpec) -> Vec<u8> {
    let mut b: Vec<u8> = Vec::new();
    b.extend_from_slice(b"LASF");
    b.extend_from_slice(&0x1234u16.to_le_bytes());
    b.extend_from_slice(&0x0001u16.to_le_bytes());
    b.extend_from_slice(&0xdead_beefu32.to_le_bytes());
    b.extend_from_slice(&0x0102u16.to_le_bytes());
    b.extend_from_slice(&0x0304u16.to_le_bytes());
    b.extend_from_slice(&[1, 2, 3, 4, 5, 6, 7, 8]);
    b.push(1);
    b.push(4);
    let mut system = [0u8; 32];
    system[..5].copy_from_slice(b"LIDAR");
    b.extend_from_slice(&system);
    let mut software = [0u8; 32];
    software[..4].copy_from_slice(b"test");
    b.extend_from_slice(&software);
    b.extend_from_slice(&200u16.to_le_bytes());
    b.extend_from_slice(&2023u16.to_le_bytes());
    b.extend_from_slice(&spec.header_size.to_le_bytes());
    b.extend_from_slice(&spec.offset_to_point_data.to_le_bytes());
    b.extend_from_slice(&0u32.to_le_bytes());
    b.push(1);
    b.extend_from_slice(&28u16.to_le_bytes());
    b.extend_from_slice(&70_000u32.to_le_bytes());
    for k in 0..5u32 {
        b.extend_from_slice(&(k * 1000 + 7).to_le_bytes());
    }
    for s in spec.scales {
        b.extend_from_slice(&s.to_le_bytes());
    }
    for o in spec.offsets {
        b.extend_from_slice(&o.to_le_bytes());
    }
    for v in [10.5f64, 20.5, 30.5, -1.5, -2.5, -3.5] {
        b.extend_from_slice(&v.to_le_bytes());
    }
    b.extend_from_slice(&0x0102_0304_0506_0708u64.to_le_bytes());
    b.extend_from_slice(&0x1112_1314_1516_1718u64.to_le_bytes());
    b.extend_from_slice(&3u32.to_le_bytes());
    assert_eq!(b.len(), HEADER_LEN);
    b
}

fn record_bytes(x: i32, y: i32, z: i32) -> Vec<u8> {
    let mut b: Vec<u8> = Vec::new();
    b.extend_from_slice(&x.to_le_bytes());
    b.extend_from_slice(&y.to_le_bytes());
    b.extend_from_slice(&z.to_le_bytes());
    b.extend_from_slice(&0xbeefu16.to_le_bytes());
    b.push(0x37);
    b.push(0xc3);
    b.push(2);
    b.push(9);
    b.extend_from_slice(&(-300i16).to_le_bytes());
    b.extend_from_slice(&0x4321u16.to_le_bytes());
    b.extend_from_slice(&123.25f64.to_le_bytes());
    assert_eq!(b.len(), POINT_RECORD_LEN);
    b
}

fn encode_header(h: &LasFileHeader) -> Vec<u8> {
    let mut b: Vec<u8> = Vec::new();
    b.extend_from_slice(&h.signature);
    b.extend_from_slice(&h.file_source_id.to_le_bytes());
    b.extend_from_slice(&h.global_encoding.to_le_bytes());
    b.extend_from_slice(&h.project_id_guid_data_1.to_le_bytes());
    b.extend_from_slice(&h.project_id_guid_data_2.to_le_bytes());
    b.extend_from_slice(&h.project_id_guid_data_3.to_le_bytes());
    b.extend_from_slice(&h.project_id_guid_data_4);
    b.push(h.version_major);
    b.push(h.version_minor);
    b.extend_from_slice(&h.system_identifier);
    b.extend_from_slice(&h.generating_software);
    b.extend_from_slice(&h.file_creation_day_of_year.to_le_bytes());
    b.extend_from_slice(&h.file_creation_year.to_le_bytes());
    b.extend_from_slice(&h.header_size.to_le_bytes());
    b.extend_from_slice(&h.offset_to_point_data.to_le_bytes());
    b.extend_from_slice(&h.number_of_variable_length_records.to_le_bytes());
    b.push(h.point_data_record_format);
    b.extend_from_slice(&h.point_data_record_length.to_le_bytes());
    b.extend_from_slice(&h.legacy_number_of_point_records.to_le_bytes());
    for n in h.legacy_number_of_points_by_return {
        b.extend_from_slice(&n.to_le_bytes());
    }
    for v in [
        h.x_scale_factor,
        h.y_scale_factor,
        h.z_scale_factor,
        h.x_offset,
        h.y_offset,
        h.z_offset,
        h.max_x,
        h.max_y,
        h.max_z,
        h.min_x,
        h.min_y,
        h.min_z,
        h.start_of_waveform_data_packet_record,
        h.start_of_first_extended_variable_length_record,
    ] {
        b.extend_from_slice(&v.to_le_bytes());
    }
    b.extend_from_slice(&h.number_of_extended_variable_length_records.to_le_bytes());
    b
}

fn sample_record() -> PointRecord {
    PointRecord {
        x: 0,
        y: 0,
        z: 0,
        intensity: 0,
        return_info: 0,
        flags: 0,
        classification: 0,
        user_data: 0,
        scan_angle: 0,
        point_source_id: 0,
        gps_time: 0,
    }
}

#[test]
fn header_fields_decode_little_endian() {
    let bytes = header_bytes(&standard_spec(HEADER_LEN as u32));
    let h = read_las_file_header(&bytes).unwrap();
    assert_eq!(&h.signature, b"LASF");
    assert_eq!(h.file_source_id, 0x1234);
    assert_eq!(h.global_encoding, 1);
    assert_eq!(h.project_id_guid_data_1, 0xdead_beef);
    assert_eq!(h.project_id_guid_data_2, 0x0102);
    assert_eq!(h.project_id_guid_data_3, 0x0304);
    assert_eq!(h.project_id_guid_data_4, [1, 2, 3, 4, 5, 6, 7, 8]);
    assert_eq!((h.version_major, h.version_minor), (1, 4));
    assert_eq!(&h.system_identifier[..5], b"LIDAR");
    assert_eq!(&h.generating_software[..4], b"test");
    assert_eq!(h.file_creation_day_of_year, 200);
    assert_eq!(h.file_creation_year, 2023);
    assert_eq!(h.header_size, 247);
    assert_eq!(h.offset_to_point_data, 247);
    assert_eq!(h.point_data_record_format, 1);
    assert_eq!(h.point_data_record_length, 28);
    assert_eq!(h.legacy_number_of_point_records, 70_000);
    assert_eq!(h.legacy_number_of_points_by_return, [7, 1007, 2007, 3007, 4007]);
    assert_eq!(f64::from_bits(h.x_scale_factor), 0.01);
    assert_eq!(f64::from_bits(h.max_x), 10.5);
    assert_eq!(f64::from_bits(h.min_z), -3.5);
    assert_eq!(h.start_of_waveform_data_packet_record, 0x0102_0304_0506_0708);
    assert_eq!(h.start_of_first_extended_variable_length_record, 0x1112_1314_1516_1718);
    assert_eq!(h.number_of_extended_variable_length_records, 3);
}

#[test]
fn header_round_trip_reproduces_bytes() {
    let mut bytes = header_bytes(&standard_spec(HEADER_LEN as u32));
    bytes.extend_from_slice(&[9, 9, 9]);
    let h = read_las_file_header(&bytes).unwrap();
    assert_eq!(encode_header(&h), bytes[..HEADER_LEN].to_vec());
}

#[test]
fn short_source_is_header_truncated() {
    let bytes = header_bytes(&standard_spec(HEADER_LEN as u32));
    for n in [0usize, 3, 4, 100, HEADER_LEN - 1] {
        assert_eq!(
            read_las_file_header(&bytes[..n]).unwrap_err(),
            FormatError::HeaderTruncated { available: n }
        );
    }
}

#[test]
fn wrong_signature_is_rejected() {
    let mut bytes = header_bytes(&standard_spec(HEADER_LEN as u32));
    bytes[3] = b'G';
    assert_eq!(read_las_file_header(&bytes).unwrap_err(), FormatError::InvalidSignature);
    bytes[..4].copy_from_slice(b"lasf");
    assert_eq!(read_points(&bytes).err(), Some(FormatError::InvalidSignature));
}

#[test]
fn scale_and_offset_give_real_coordinate() {
    let spec = HeaderSpec {
        header_size: HEADER_LEN as u16,
        offset_to_point_data: HEADER_LEN as u32,
        scales: [0.01, 0.5, 1.0],
        offsets: [100.0, -4.0, 0.0],
    };
    let mut bytes = header_bytes(&spec);
    bytes.extend_from_slice(&record_bytes(500, 8, -2));
    let data = read_points(&bytes).unwrap();
    let h = &data.header;
    let r = &data.records[0];
    let x = r.x as f64 * f64::from_bits(h.x_scale_factor) + f64::from_bits(h.x_offset);
    let y = r.y as f64 * f64::from_bits(h.y_scale_factor) + f64::from_bits(h.y_offset);
    let z = r.z as f64 * f64::from_bits(h.z_scale_factor) + f64::from_bits(h.z_offset);
    assert!((x - 105.0).abs() < 1e-9);
    assert_eq!(y, 0.0);
    assert_eq!(z, -2.0);
}

#[test]
fn short_tail_ends_points_without_error() {
    let mut bytes = header_bytes(&standard_spec(HEADER_LEN as u32));
    for i in 0..3 {
        bytes.extend_from_slice(&record_bytes(i, -i, 10 * i));
    }
    bytes.extend_from_slice(&[0u8; 29]);
    let data = read_points(&bytes).unwrap();
    assert_eq!(data.records.len(), 3);
    assert_eq!(data.records[2].x, 2);
    assert_eq!(data.records[2].y, -2);
    assert_eq!(data.records[2].z, 20);
}

#[test]
fn point_data_at_end_of_file_is_empty() {
    let bytes = header_bytes(&standard_spec(HEADER_LEN as u32));
    let data = read_points(&bytes).unwrap();
    assert!(data.records.is_empty());
}

#[test]
fn point_data_skips_to_declared_offset() {
    let mut bytes = header_bytes(&standard_spec(HEADER_LEN as u32 + 5));
    bytes.extend_from_slice(&[0xff; 5]);
    bytes.extend_from_slice(&record_bytes(-7, 11, 13));
    let data = read_points(&bytes).unwrap();
    assert_eq!(data.records.len(), 1);
    assert_eq!((data.records[0].x, data.records[0].y, data.records[0].z), (-7, 11, 13));
}

#[test]
fn offset_past_end_is_seek_failed() {
    let bytes = header_bytes(&standard_spec(HEADER_LEN as u32 + 1));
    assert_eq!(
        read_points(&bytes).err(),
        Some(FormatError::SeekFailed { offset: HEADER_LEN as u32 + 1, length: HEADER_LEN })
    );
}

#[test]
fn read_points_reports_header_truncation() {
    assert_eq!(
        read_points(&[b'L', b'A', b'S', b'F']).err(),
        Some(FormatError::HeaderTruncated { available: 4 })
    );
}

#[test]
fn record_fields_decode_little_endian() {
    let mut bytes = vec![0xaau8; 3];
    bytes.extend_from_slice(&record_bytes(-123_456, 0x0102_0304, i32::MIN));
    let r = read_point_record(&bytes, 3).unwrap();
    assert_eq!(r.x, -123_456);
    assert_eq!(r.y, 0x0102_0304);
    assert_eq!(r.z, i32::MIN);
    assert_eq!(r.intensity, 0xbeef);
    assert_eq!(r.return_info, 0x37);
    assert_eq!(r.flags, 0xc3);
    assert_eq!(r.classification, 2);
    assert_eq!(r.user_data, 9);
    assert_eq!(r.scan_angle, -300);
    assert_eq!(r.point_source_id, 0x4321);
    assert_eq!(f64::from_bits(r.gps_time), 123.25);
}

#[test]
fn short_record_is_truncated() {
    let bytes = record_bytes(1, 2, 3);
    assert_eq!(
        read_point_record(&bytes[..29], 0).unwrap_err(),
        FormatError::Truncated { position: 0, available: 29 }
    );
    assert_eq!(
        read_point_record(&bytes, 1).unwrap_err(),
        FormatError::Truncated { position: 1, available: 29 }
    );
    assert_eq!(
        read_point_record(&bytes, 40).unwrap_err(),
        FormatError::Truncated { position: 40, available: 0 }
    );
}

#[test]
fn return_info_nibbles() {
    let r = PointRecord { return_info: 0x37, ..sample_record() };
    assert_eq!(r.return_number(), 7);
    assert_eq!(r.number_of_returns(), 3);
    let r = PointRecord { return_info: 0xf0, ..sample_record() };
    assert_eq!(r.return_number(), 0);
    assert_eq!(r.number_of_returns(), 15);
}

#[test]
fn flag_bits() {
    let r = PointRecord { flags: 0xc3, ..sample_record() };
    assert_eq!(r.scanner_channel(), 3);
    assert!(r.scan_direction_flag());
    assert!(r.edge_of_flight_line());
    let r = PointRecord { flags: 0x3e, ..sample_record() };
    assert_eq!(r.scanner_channel(), 2);
    assert!(!r.scan_direction_flag());
    assert!(!r.edge_of_flight_line());
}

#[test]
fn header_consistency() {
    let bytes = header_bytes(&standard_spec(HEADER_LEN as u32));
    let h = read_las_file_header(&bytes).unwrap();
    assert!(h.is_consistent());
    let zero_scale = LasFileHeader { y_scale_factor: 0.0f64.to_bits(), ..h };
    assert!(!zero_scale.is_consistent());
    let negative_zero = LasFileHeader { z_scale_factor: (-0.0f64).to_bits(), ..h };
    assert!(!negative_zero.is_consistent());
    let early = LasFileHeader { offset_to_point_data: 100, ..h };
    assert!(!early.is_consistent());
    let unsigned = LasFileHeader { signature: *b"LASG", ..h };
    assert!(!unsigned.is_consistent());
}

fn decode_fault(spec: &HeaderSpec) -> FormatError {
    read_las_file_header(&header_bytes(spec)).unwrap_err()
}

#[test]
fn zero_scale_is_rejected() {
    for (axis, field) in
        [(0, HeaderField::XScaleFactor), (1, HeaderField::YScaleFactor), (2, HeaderField::ZScaleFactor)]
    {
        let mut spec = standard_spec(HEADER_LEN as u32);
        spec.scales[axis] = 0.0;
        assert_eq!(decode_fault(&spec), FormatError::InvalidHeaderField { field });
        spec.scales[axis] = -0.0;
        assert_eq!(decode_fault(&spec), FormatError::InvalidHeaderField { field });
    }
    let mut tiny = standard_spec(HEADER_LEN as u32);
    tiny.scales[0] = f64::from_bits(1);
    assert!(read_las_file_header(&header_bytes(&tiny)).is_ok());
}

#[test]
fn point_data_inside_header_is_rejected() {
    let early = HeaderSpec { header_size: 375, ..standard_spec(300) };
    assert_eq!(
        decode_fault(&early),
        FormatError::InvalidHeaderField { field: HeaderField::OffsetToPointData }
    );
    let both = HeaderSpec { header_size: 375, scales: [0.0, 0.0, 0.0], ..standard_spec(300) };
    assert_eq!(
        decode_fault(&both),
        FormatError::InvalidHeaderField { field: HeaderField::OffsetToPointData }
    );
}

#[test]
fn signature_followed_by_zeros_is_rejected() {
    let mut bytes = b"LASF".to_vec();
    bytes.extend_from_slice(&[0u8; HEADER_LEN - 4]);
    assert_eq!(
        read_las_file_header(&bytes).unwrap_err(),
        FormatError::InvalidHeaderField { field: HeaderField::XScaleFactor }
    );
    assert_eq!(
        read_points(&bytes).err(),
        Some(FormatError::InvalidHeaderField { field: HeaderField::XScaleFactor })
    );
}
