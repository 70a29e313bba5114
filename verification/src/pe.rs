//! The PE/COFF backend: turns the plain values handed over by the decoder
//! into section records. PE images carry no symbol table the library
//! reads, so the symbol lists stay empty; the section table doubles as the
//! segment list.

use vstd::prelude::*;

use crate::classify;
use crate::decode;
use crate::model::Machine;
use crate::model::Symbol;
use crate::records::SectionRecord;
use crate::records::SegmentRecord;
use crate::util;

verus! {

/// A parsed PE image. PE is always little-endian.
#[derive(Debug)]
pub struct PeFile {
    pub is_64: bool,
    pub machine: Machine,
    pub entry: u64,
    pub image_base: u64,
    pub sections: Vec<SectionRecord>,
    pub segments: Vec<SegmentRecord>,
    pub symbols: Vec<Symbol>,
    pub dynamic_symbols: Vec<Symbol>,
    pub has_debug: bool,
}

impl PeFile {
    /// Parse a PE image: accepted exactly when the decoder accepts the
    /// buffer. On success the bitness, machine and entry reflect the
    /// optional-header magic, the COFF machine field and the entry point
    /// RVA.
    pub fn parse(data: &[u8]) -> (r: Result<PeFile, String>)
        ensures
            r is Ok <==> decode::pe_parseable(data@),
            r matches Ok(f) ==> {
                &&& f.is_64 == decode::pe_is_64_of(data@)
                &&& f.machine == classify::spec_pe_machine(decode::pe_machine_of(data@))
                &&& f.entry == decode::pe_entry_of(data@)
            },
    {
        let (p, hdr) = match decode::pe_parse(data) {
            Ok(p) => p,
            Err(e) => {
                return Err(e);
            },
        };
        let machine = classify::pe_machine(hdr.machine);

        let mut sections: Vec<SectionRecord> = Vec::new();
        let mut segments: Vec<SegmentRecord> = Vec::new();
        let nsec = decode::pe_section_count(&p);
        for i in 0..nsec {
            match decode::pe_section(&p, i) {
                Some(sec) => {
                    let bytes = util::copy_window(
                        data,
                        sec.pointer_to_raw_data as u64,
                        sec.size_of_raw_data as u64,
                    );
                    let seg_name = match &sec.name {
                        Some(n) => Some(n.clone()),
                        None => None,
                    };
                    segments.push(
                        SegmentRecord {
                            name: seg_name,
                            address: sec.virtual_address as u64,
                            size: sec.virtual_size as u64,
                            align: 0,
                            data: bytes.clone(),
                        },
                    );
                    sections.push(
                        SectionRecord {
                            index: i,
                            name: sec.name,
                            segment_name: None,
                            address: sec.virtual_address as u64,
                            size: sec.virtual_size as u64,
                            align: 0,
                            kind: classify::pe_section_kind(sec.characteristics),
                            data: bytes,
                            uncompressed: None,
                            relocs: Vec::new(),
                        },
                    );
                },
                None => (),
            }
        }

        Ok(
            PeFile {
                is_64: hdr.is_64,
                machine,
                entry: hdr.entry,
                image_base: hdr.image_base,
                sections,
                segments,
                symbols: Vec::new(),
                dynamic_symbols: Vec::new(),
                has_debug: hdr.has_debug,
            },
        )
    }
}

} // verus!
