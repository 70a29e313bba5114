//! The per-section and per-segment records a backend fills while parsing.
//! Every field is a plain value; the byte windows are copied out of the
//! input buffer once, at parse time.

use vstd::prelude::*;

use crate::model::Relocation;
use crate::model::SectionKind;

verus! {

/// One section of a parsed file.
#[derive(Debug)]
pub struct SectionRecord {
    /// Backend-defined section number.
    pub index: usize,
    /// The section name, when the format records one.
    pub name: Option<String>,
    /// The containing segment's name; only Mach-O-style formats set it.
    pub segment_name: Option<String>,
    /// Virtual address.
    pub address: u64,
    /// Memory footprint in bytes; may exceed the stored bytes.
    pub size: u64,
    /// Alignment, a power of two or zero.
    pub align: u64,
    /// The format-independent classification of the section.
    pub kind: SectionKind,
    /// The stored bytes of the section.
    pub data: Vec<u8>,
    /// The decompressed bytes, when the section is stored compressed and
    /// its stream inflates; `None` otherwise, and the raw bytes stand in.
    pub uncompressed: Option<Vec<u8>>,
    /// The relocations applied to this section, as (offset, entry) pairs
    /// in on-disk order.
    pub relocs: Vec<(u64, Relocation)>,
}

/// One loadable region of a parsed file.
#[derive(Debug)]
pub struct SegmentRecord {
    /// The segment name, when the format records one.
    pub name: Option<String>,
    /// Virtual address.
    pub address: u64,
    /// Memory footprint in bytes.
    pub size: u64,
    /// Alignment, a power of two or zero.
    pub align: u64,
    /// The stored bytes of the segment.
    pub data: Vec<u8>,
}

} // verus!
