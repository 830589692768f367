//! A small library for sorting media files into a destination tree organized
//! by capture date and, when available, the originating device.
//!
//! The pipeline computes, for each source file, a destination of the form
//! `imgsorted/<date>[/<device>]/<file name>`: the date segment is the UTC
//! modification date in `YYYY.MM.DD` form (or the sentinel `no date`), and the
//! device segment is the trimmed `Model` field of the file's embedded
//! metadata, when one can be parsed. Directory creation and the actual file
//! copy are driven by the caller; the outcome of each step is reported through
//! the types of `outcome`.

pub mod date;
pub mod exif;
pub mod outcome;
pub mod plan;
pub mod text;
pub mod utils;
