//! Decoding of LAS point-cloud files held in memory: the fixed file header,
//! the baseline point records, and the read loop over the point-data region.

pub mod header;
pub mod little_endian;
pub mod reader;
pub mod record;

pub use header::{read_las_file_header, FormatError, HeaderField, LasFileHeader, HEADER_LEN};
pub use reader::{read_points, LasPointData};
pub use record::{read_point_record, PointRecord, POINT_RECORD_LEN};
