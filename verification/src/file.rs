//! The unified file façade: a tagged union over the four backends, with
//! wrappers for sections, segments and the iterators, all forwarding to
//! the active variant.

use vstd::prelude::*;
use vstd::string::StringExecFns;

use crate::decode;
use crate::elf::ElfFile;
use crate::macho::MachOFile;
use crate::model::Format;
use crate::model::Machine;
use crate::model::Relocation;
use crate::model::SectionIndex;
use crate::model::SectionKind;
use crate::model::Symbol;
use crate::model::SymbolIndex;
use crate::model::sym_eq;
use crate::pe::PeFile;
use crate::records::SectionRecord;
use crate::records::SegmentRecord;
use crate::sniff;
use crate::sniff::MagicHint;
use crate::symbolmap;
use crate::symbolmap::SymbolMap;
use crate::util;
use crate::wasm::WasmFile;

verus! {

/// An object file: one backend, tagged by format.
#[derive(Debug)]
pub struct File {
    inner: FileInternal,
}

#[derive(Debug)]
enum FileInternal {
    Elf(ElfFile),
    MachO(MachOFile),
    Pe(PeFile),
    Wasm(WasmFile),
}

/// The record `rec` carries the name `n`.
pub open spec fn sec_name_is(rec: SectionRecord, n: Seq<char>) -> bool {
    rec.name matches Some(s) && s@ == n
}

impl File {
    /// The format of the file, with its bitness.
    pub closed spec fn spec_format(&self) -> Format {
        match self.inner {
            FileInternal::Elf(ref f) => if f.is_64 {
                Format::Elf64
            } else {
                Format::Elf32
            },
            FileInternal::MachO(ref f) => if f.is_64 {
                Format::MachO64
            } else {
                Format::MachO32
            },
            FileInternal::Pe(ref f) => if f.is_64 {
                Format::Pe64
            } else {
                Format::Pe32
            },
            FileInternal::Wasm(_) => Format::Wasm,
        }
    }

    /// The machine of the file.
    pub closed spec fn spec_machine(&self) -> Machine {
        match self.inner {
            FileInternal::Elf(ref f) => f.machine,
            FileInternal::MachO(ref f) => f.machine,
            FileInternal::Pe(ref f) => f.machine,
            FileInternal::Wasm(_) => Machine::Other,
        }
    }

    /// The byte order of the file; PE and Wasm are always little-endian.
    pub closed spec fn spec_little_endian(&self) -> bool {
        match self.inner {
            FileInternal::Elf(ref f) => f.little_endian,
            FileInternal::MachO(ref f) => f.little_endian,
            FileInternal::Pe(_) => true,
            FileInternal::Wasm(_) => true,
        }
    }

    /// The program entry address; zero when the format has none.
    pub closed spec fn spec_entry(&self) -> u64 {
        match self.inner {
            FileInternal::Elf(ref f) => f.entry,
            FileInternal::MachO(ref f) => f.entry,
            FileInternal::Pe(ref f) => f.entry,
            FileInternal::Wasm(_) => 0,
        }
    }

    /// The sections of the active backend, in on-disk order.
    pub closed spec fn sections_seq(&self) -> Seq<SectionRecord> {
        match self.inner {
            FileInternal::Elf(ref f) => f.sections@,
            FileInternal::MachO(ref f) => f.sections@,
            FileInternal::Pe(ref f) => f.sections@,
            FileInternal::Wasm(ref f) => f.sections@,
        }
    }

    /// The segments of the active backend, in on-disk order.
    pub closed spec fn segments_seq(&self) -> Seq<SegmentRecord> {
        match self.inner {
            FileInternal::Elf(ref f) => f.segments@,
            FileInternal::MachO(ref f) => f.segments@,
            FileInternal::Pe(ref f) => f.segments@,
            FileInternal::Wasm(ref f) => f.segments@,
        }
    }

    /// The static symbol table of the active backend, in on-disk order.
    pub closed spec fn symbols_seq(&self) -> Seq<Symbol> {
        match self.inner {
            FileInternal::Elf(ref f) => f.symbols@,
            FileInternal::MachO(ref f) => f.symbols@,
            FileInternal::Pe(ref f) => f.symbols@,
            FileInternal::Wasm(ref f) => f.symbols@,
        }
    }

    /// The dynamic symbol table; empty when the format has none.
    pub closed spec fn dynamic_symbols_seq(&self) -> Seq<Symbol> {
        match self.inner {
            FileInternal::Elf(ref f) => f.dynamic_symbols@,
            FileInternal::MachO(ref f) => f.dynamic_symbols@,
            FileInternal::Pe(ref f) => f.dynamic_symbols@,
            FileInternal::Wasm(ref f) => f.dynamic_symbols@,
        }
    }

    /// The Mach-O UUID bytes, when an LC_UUID command was present.
    pub closed spec fn spec_uuid(&self) -> Option<Vec<u8>> {
        match self.inner {
            FileInternal::MachO(ref f) => f.uuid,
            _ => None,
        }
    }

    /// The ELF build-ID note payload, when one was present.
    pub closed spec fn spec_build_id(&self) -> Option<Vec<u8>> {
        match self.inner {
            FileInternal::Elf(ref f) => f.build_id,
            _ => None,
        }
    }

    /// The ELF debug-link name and CRC, when one was present.
    pub closed spec fn spec_debuglink(&self) -> Option<(Vec<u8>, u32)> {
        match self.inner {
            FileInternal::Elf(ref f) => f.debuglink,
            _ => None,
        }
    }

    /// Whether the format-specific debug-information heuristic fired.
    pub closed spec fn spec_has_debug_symbols(&self) -> bool {
        match self.inner {
            FileInternal::Elf(ref f) => f.has_debug,
            FileInternal::MachO(ref f) => f.has_debug,
            FileInternal::Pe(ref f) => f.has_debug,
            FileInternal::Wasm(_) => false,
        }
    }

    /// Parse the raw file data: fewer than 16 bytes are rejected, a Wasm
    /// preamble goes to the Wasm backend, and otherwise the 16-byte magic
    /// sniff picks the backend, so magic collisions are impossible. Backend
    /// diagnostics propagate unchanged.
    pub fn parse(data: &[u8]) -> (r: Result<File, String>)
        ensures
            data@.len() < 16 ==> (r matches Err(e) && e@ == "File too short"@),
            data@.len() >= 16 && sniff::is_wasm_magic(data@) ==> (r is Ok
                <==> crate::wasm::wasm_module_wf(data@)) && (r matches Ok(f) ==> {
                &&& f.spec_format() == Format::Wasm
                &&& f.spec_machine() == Machine::Other
                &&& f.spec_little_endian()
                &&& f.spec_entry() == 0
                &&& f.spec_uuid() is None
                &&& f.spec_build_id() is None
                &&& f.spec_debuglink() is None
            }),
            data@.len() >= 16 && !sniff::is_wasm_magic(data@) ==> {
                let h = sniff::classify_magic(data@);
                &&& (h matches MagicHint::Elf { .. } ==> (r is Ok <==> decode::elf_parseable(
                    data@,
                )) && (r matches Ok(f) ==> {
                    &&& f.spec_format() == (if data@[4] == 2u8 {
                        Format::Elf64
                    } else {
                        Format::Elf32
                    })
                    &&& f.spec_little_endian() == (data@[5] == 1u8)
                    &&& f.spec_machine() == crate::classify::spec_elf_machine(
                        crate::elf::elf_header_machine(data@) as u16,
                    )
                    &&& (data@[4] != 2u8 || crate::elf::elf_header_entry(data@) <= usize::MAX
                        ==> f.spec_entry() == crate::elf::elf_header_entry(data@))
                    &&& f.spec_uuid() is None
                    &&& match f.spec_build_id() {
                        Some(v) => crate::elf::elf_build_id_of(data@) == Some(v@),
                        None => crate::elf::elf_build_id_of(data@) is None,
                    }
                    &&& match crate::elf::elf_debuglink_section_of(data@) {
                        Some(sec) => crate::elf::debuglink_matches(sec, f.spec_debuglink()),
                        None => f.spec_debuglink() is None,
                    }
                }))
                &&& (h matches MagicHint::Mach { .. } ==> (r is Ok
                    <==> crate::macho::macho_commands_checked(data@) && decode::macho_parseable(
                    data@,
                )) && (r matches Ok(f) ==> {
                    &&& f.spec_format() == (if sniff::macho_magic_is_64(data@) {
                        Format::MachO64
                    } else {
                        Format::MachO32
                    })
                    &&& f.spec_little_endian() == sniff::macho_magic_is_lsb(data@)
                    &&& f.spec_machine() == crate::classify::spec_macho_machine(
                        crate::macho::macho_header_cputype(data@) as u32,
                    )
                    &&& f.spec_entry() == decode::macho_entry_of(data@)
                    &&& (match f.spec_uuid() {
                        Some(v) => crate::macho::macho_uuid_of_bytes(data@) == Some(v@)
                            && v@.len() == 16,
                        None => crate::macho::macho_uuid_of_bytes(data@) is None,
                    })
                    &&& f.spec_build_id() is None
                    &&& f.spec_debuglink() is None
                }))
                &&& (h is Pe ==> (r is Ok <==> decode::pe_parseable(data@)) && (r matches Ok(f)
                    ==> {
                    &&& f.spec_format() == (if decode::pe_is_64_of(data@) {
                        Format::Pe64
                    } else {
                        Format::Pe32
                    })
                    &&& f.spec_little_endian()
                    &&& f.spec_machine() == crate::classify::spec_pe_machine(
                        decode::pe_machine_of(data@),
                    )
                    &&& f.spec_entry() == decode::pe_entry_of(data@)
                    &&& f.spec_uuid() is None
                    &&& f.spec_build_id() is None
                    &&& f.spec_debuglink() is None
                }))
                &&& ((h is MachFat || h is Te || h is Coff || h is Archive || h is Unknown) ==> (
                r matches Err(e) && e@ == "Unknown file magic"@))
                &&& (h is Error ==> (r matches Err(e) && e@ == "Could not parse file magic"@))
            },
    {
        if data.len() < 16 {
            return Err(String::from_str("File too short"));
        }
        match parse_wasm(data) {
            Ok(Some(f)) => {
                return Ok(f);
            },
            Ok(None) => (),
            Err(e) => {
                return Err(e);
            },
        }
        match decode::peek_hint(data) {
            MagicHint::Elf { .. } => match ElfFile::parse(data) {
                Ok(f) => Ok(File { inner: FileInternal::Elf(f) }),
                Err(e) => Err(e),
            },
            MagicHint::Mach { .. } => match MachOFile::parse(data) {
                Ok(f) => Ok(File { inner: FileInternal::MachO(f) }),
                Err(e) => Err(e),
            },
            MagicHint::Pe => match PeFile::parse(data) {
                Ok(f) => Ok(File { inner: FileInternal::Pe(f) }),
                Err(e) => Err(e),
            },
            MagicHint::Error => Err(String::from_str("Could not parse file magic")),
            _ => Err(String::from_str("Unknown file magic")),
        }
    }

    /// Return the file format.
    pub fn format(&self) -> (r: Format)
        ensures
            r == self.spec_format(),
    {
        match &self.inner {
            FileInternal::Elf(f) => if f.is_64 {
                Format::Elf64
            } else {
                Format::Elf32
            },
            FileInternal::MachO(f) => if f.is_64 {
                Format::MachO64
            } else {
                Format::MachO32
            },
            FileInternal::Pe(f) => if f.is_64 {
                Format::Pe64
            } else {
                Format::Pe32
            },
            FileInternal::Wasm(_) => Format::Wasm,
        }
    }

    /// Return the machine type.
    pub fn machine(&self) -> (r: Machine)
        ensures
            r == self.spec_machine(),
    {
        match &self.inner {
            FileInternal::Elf(f) => f.machine,
            FileInternal::MachO(f) => f.machine,
            FileInternal::Pe(f) => f.machine,
            FileInternal::Wasm(_) => Machine::Other,
        }
    }

    /// Return true for little-endian files; PE and Wasm always are.
    pub fn is_little_endian(&self) -> (r: bool)
        ensures
            r == self.spec_little_endian(),
    {
        match &self.inner {
            FileInternal::Elf(f) => f.little_endian,
            FileInternal::MachO(f) => f.little_endian,
            FileInternal::Pe(_) => true,
            FileInternal::Wasm(_) => true,
        }
    }

    /// The program entry address, or zero when the format has none.
    pub fn entry(&self) -> (r: u64)
        ensures
            r == self.spec_entry(),
    {
        match &self.inner {
            FileInternal::Elf(f) => f.entry,
            FileInternal::MachO(f) => f.entry,
            FileInternal::Pe(f) => f.entry,
            FileInternal::Wasm(_) => 0,
        }
    }

    /// The sections, as a vector of records.
    fn sections_vec(&self) -> (r: &Vec<SectionRecord>)
        ensures
            r@ == self.sections_seq(),
    {
        match &self.inner {
            FileInternal::Elf(f) => &f.sections,
            FileInternal::MachO(f) => &f.sections,
            FileInternal::Pe(f) => &f.sections,
            FileInternal::Wasm(f) => &f.sections,
        }
    }

    /// The segments, as a vector of records.
    fn segments_vec(&self) -> (r: &Vec<SegmentRecord>)
        ensures
            r@ == self.segments_seq(),
    {
        match &self.inner {
            FileInternal::Elf(f) => &f.segments,
            FileInternal::MachO(f) => &f.segments,
            FileInternal::Pe(f) => &f.segments,
            FileInternal::Wasm(f) => &f.segments,
        }
    }

    /// The static symbols, as a vector.
    fn symbols_vec(&self) -> (r: &Vec<Symbol>)
        ensures
            r@ == self.symbols_seq(),
    {
        match &self.inner {
            FileInternal::Elf(f) => &f.symbols,
            FileInternal::MachO(f) => &f.symbols,
            FileInternal::Pe(f) => &f.symbols,
            FileInternal::Wasm(f) => &f.symbols,
        }
    }

    /// The dynamic symbols, as a vector.
    fn dynamic_symbols_vec(&self) -> (r: &Vec<Symbol>)
        ensures
            r@ == self.dynamic_symbols_seq(),
    {
        match &self.inner {
            FileInternal::Elf(f) => &f.dynamic_symbols,
            FileInternal::MachO(f) => &f.dynamic_symbols,
            FileInternal::Pe(f) => &f.dynamic_symbols,
            FileInternal::Wasm(f) => &f.dynamic_symbols,
        }
    }

    /// Iterate over the segments, in on-disk order.
    pub fn segments<'a>(&'a self) -> (r: SegmentIterator<'a>)
        ensures
            r.segs@ == self.segments_seq(),
            r.pos == 0,
    {
        SegmentIterator { segs: self.segments_vec(), pos: 0 }
    }

    /// Iterate over the sections, in on-disk order.
    pub fn sections<'a>(&'a self) -> (r: SectionIterator<'a>)
        ensures
            r.secs@ == self.sections_seq(),
            r.pos == 0,
    {
        SectionIterator { secs: self.sections_vec(), pos: 0 }
    }

    /// The first section named `section_name`, in iteration order, if any
    /// section carries that name.
    pub fn section_by_name<'a>(&'a self, section_name: &str) -> (r: Option<Section<'a>>)
        ensures
            match r {
                Some(s) => exists|i: int|
                    {
                        &&& 0 <= i < self.sections_seq().len()
                        &&& *s.rec == self.sections_seq()[i]
                        &&& sec_name_is(self.sections_seq()[i], section_name@)
                        &&& forall|j: int|
                            0 <= j < i ==> !sec_name_is(
                                #[trigger] self.sections_seq()[j],
                                section_name@,
                            )
                    },
                None => forall|i: int|
                    0 <= i < self.sections_seq().len() ==> !sec_name_is(
                        #[trigger] self.sections_seq()[i],
                        section_name@,
                    ),
            },
    {
        let want = String::from_str(section_name);
        let secs = self.sections_vec();
        let n = secs.len();
        for i in 0..n
            invariant
                n == secs@.len(),
                secs@ == self.sections_seq(),
                want@ == section_name@,
                forall|j: int| 0 <= j < i ==> !sec_name_is(#[trigger] secs@[j], section_name@),
        {
            match &secs[i].name {
                Some(sn) => {
                    if *sn == want {
                        return Some(Section { rec: &secs[i] });
                    }
                },
                None => (),
            }
        }
        None
    }

    /// The section numbered `index`, if any; backends number sections
    /// their own way, so the number is matched, not used as a position.
    pub fn section_by_index<'a>(&'a self, index: SectionIndex) -> (r: Option<Section<'a>>)
        ensures
            match r {
                Some(s) => exists|i: int|
                    {
                        &&& 0 <= i < self.sections_seq().len()
                        &&& *s.rec == self.sections_seq()[i]
                        &&& self.sections_seq()[i].index == index.0
                    },
                None => forall|i: int|
                    0 <= i < self.sections_seq().len() ==> (#[trigger] self.sections_seq()[i]).index
                        != index.0,
            },
    {
        let secs = self.sections_vec();
        let n = secs.len();
        for i in 0..n
            invariant
                n == secs@.len(),
                secs@ == self.sections_seq(),
                forall|j: int| 0 <= j < i ==> (#[trigger] secs@[j]).index != index.0,
        {
            if secs[i].index == index.0 {
                return Some(Section { rec: &secs[i] });
            }
        }
        None
    }

    /// The bytes of the first section named `section_name`, if any, with
    /// any compression undone, as `uncompressed_data` serves them.
    pub fn section_data_by_name<'a>(&'a self, section_name: &str) -> (r: Option<&'a [u8]>)
        ensures
            match r {
                Some(d) => exists|i: int|
                    {
                        &&& 0 <= i < self.sections_seq().len()
                        &&& sec_name_is(self.sections_seq()[i], section_name@)
                        &&& d@ == (match self.sections_seq()[i].uncompressed {
                            Some(v) => v@,
                            None => self.sections_seq()[i].data@,
                        })
                        &&& forall|j: int|
                            0 <= j < i ==> !sec_name_is(
                                #[trigger] self.sections_seq()[j],
                                section_name@,
                            )
                    },
                None => forall|i: int|
                    0 <= i < self.sections_seq().len() ==> !sec_name_is(
                        #[trigger] self.sections_seq()[i],
                        section_name@,
                    ),
            },
    {
        match self.section_by_name(section_name) {
            Some(s) => Some(s.uncompressed_data()),
            None => None,
        }
    }

    /// Iterate over the static symbol table, yielding each symbol exactly
    /// once, paired with its index in table order.
    pub fn symbols<'a>(&'a self) -> (r: SymbolIterator<'a>)
        ensures
            r.syms@ == self.symbols_seq(),
            r.pos == 0,
    {
        SymbolIterator { syms: self.symbols_vec(), pos: 0 }
    }

    /// Iterate over the dynamic symbol table; empty when the format has
    /// none.
    pub fn dynamic_symbols<'a>(&'a self) -> (r: SymbolIterator<'a>)
        ensures
            r.syms@ == self.dynamic_symbols_seq(),
            r.pos == 0,
    {
        SymbolIterator { syms: self.dynamic_symbols_vec(), pos: 0 }
    }

    /// The symbol at position `index` of the static table: exactly the
    /// symbol the iterator yields for that index.
    pub fn symbol_by_index(&self, index: SymbolIndex) -> (r: Option<Symbol>)
        ensures
            index.0 < self.symbols_seq().len() ==> (r matches Some(s) && sym_eq(
                s,
                self.symbols_seq()[index.0 as int],
            )),
            index.0 >= self.symbols_seq().len() ==> r is None,
    {
        let syms = self.symbols_vec();
        if index.0 < syms.len() {
            Some(syms[index.0].clone())
        } else {
            None
        }
    }

    /// Build the address→symbol map over the static symbol table: exactly
    /// the admitted symbols, sorted by ascending address, ties in table
    /// order.
    pub fn symbol_map(&self) -> (r: SymbolMap)
        ensures
            r.wf(),
            r@ == symbolmap::spec_symbol_map(self.symbols_seq()),
            forall|i: int|
                0 <= i < r@.len() ==> symbolmap::has_symbol(self.symbols_seq(), #[trigger] r@[i])
                    && symbolmap::admitted(r@[i]),
            forall|j: int|
                0 <= j < self.symbols_seq().len() && symbolmap::admitted(
                    #[trigger] self.symbols_seq()[j],
                ) ==> symbolmap::has_symbol(r@, self.symbols_seq()[j]),
    {
        SymbolMap::from_symbols(self.symbols_vec())
    }

    /// Whether the file carries debug information: for ELF a section named
    /// `.debug_*`, for Mach-O a STAB symbol or a `__DWARF` segment, for PE
    /// a debug directory entry.
    pub fn has_debug_symbols(&self) -> (r: bool)
        ensures
            r == self.spec_has_debug_symbols(),
    {
        match &self.inner {
            FileInternal::Elf(f) => f.has_debug,
            FileInternal::MachO(f) => f.has_debug,
            FileInternal::Pe(f) => f.has_debug,
            FileInternal::Wasm(_) => false,
        }
    }

    /// The Mach-O UUID, when the file is Mach-O and an LC_UUID command was
    /// present; `None` on every other format. The returned value wraps
    /// exactly the stored UUID bytes.
    pub fn mach_uuid(&self) -> (r: Option<uuid::Uuid>)
        ensures
            r is Some <==> (self.spec_uuid() matches Some(v) && v@.len() == 16),
            r matches Some(u) ==> (self.spec_uuid() matches Some(v) && decode::uuid_bytes(u)
                == v@),
    {
        match &self.inner {
            FileInternal::MachO(f) => match &f.uuid {
                Some(bytes) => decode::uuid_from_slice(bytes.as_slice()),
                None => None,
            },
            _ => None,
        }
    }

    /// The ELF build-ID note payload; `None` on every other format and
    /// when the note is absent.
    pub fn build_id<'a>(&'a self) -> (r: Option<&'a [u8]>)
        ensures
            match r {
                Some(d) => self.spec_build_id() matches Some(v) && d@ == v@,
                None => self.spec_build_id() is None,
            },
    {
        match &self.inner {
            FileInternal::Elf(f) => match &f.build_id {
                Some(v) => Some(v.as_slice()),
                None => None,
            },
            _ => None,
        }
    }

    /// The ELF debug-link file name and CRC; `None` on every other format
    /// and when the section is absent.
    pub fn gnu_debuglink<'a>(&'a self) -> (r: Option<(&'a [u8], u32)>)
        ensures
            match r {
                Some(p) => self.spec_debuglink() matches Some(q) && p.0@ == q.0@ && p.1 == q.1,
                None => self.spec_debuglink() is None,
            },
    {
        match &self.inner {
            FileInternal::Elf(f) => match &f.debuglink {
                Some(p) => Some((p.0.as_slice(), p.1)),
                None => None,
            },
            _ => None,
        }
    }
}

/// A symbol iterator yields each table position exactly once, under the
/// index `SymbolIndex(position)` — that is its contract — and distinct
/// positions carry distinct indices; `symbol_by_index` on a yielded index
/// names the same table entry, as both contracts speak of
/// `symbols_seq()[index]`.
pub proof fn lemma_symbol_indices_unique(i: usize, j: usize)
    requires
        i != j,
    ensures
        SymbolIndex(i) != SymbolIndex(j),
{
}

/// Dispatch a Wasm preamble to the Wasm backend: `Ok(None)` when the
/// buffer does not open with the Wasm magic.
fn parse_wasm(data: &[u8]) -> (r: Result<Option<File>, String>)
    requires
        data@.len() >= 16,
    ensures
        match r {
            Ok(Some(f)) => sniff::is_wasm_magic(data@) && crate::wasm::wasm_module_wf(data@)
                && f.spec_format() == Format::Wasm,
            Ok(None) => !sniff::is_wasm_magic(data@),
            Err(_) => sniff::is_wasm_magic(data@) && !crate::wasm::wasm_module_wf(data@),
        },
{
    let b0 = *vstd::slice::slice_index_get(data, 0);
    let b1 = *vstd::slice::slice_index_get(data, 1);
    let b2 = *vstd::slice::slice_index_get(data, 2);
    let b3 = *vstd::slice::slice_index_get(data, 3);
    if b0 == 0x00 && b1 == 0x61 && b2 == 0x73 && b3 == 0x6d {
        match WasmFile::parse(data) {
            Ok(w) => Ok(Some(File { inner: FileInternal::Wasm(w) })),
            Err(e) => Err(e),
        }
    } else {
        Ok(None)
    }
}

/// A section of a `File`: a borrowed view of one section record.
#[derive(Debug)]
pub struct Section<'a> {
    pub rec: &'a SectionRecord,
}

impl<'a> Section<'a> {
    /// The index that identifies this section within its file.
    pub fn index(&self) -> (r: SectionIndex)
        ensures
            r == SectionIndex(self.rec.index),
    {
        SectionIndex(self.rec.index)
    }

    /// The virtual address of the section.
    pub fn address(&self) -> (r: u64)
        ensures
            r == self.rec.address,
    {
        self.rec.address
    }

    /// The memory footprint of the section; may exceed the stored bytes.
    pub fn size(&self) -> (r: u64)
        ensures
            r == self.rec.size,
    {
        self.rec.size
    }

    /// The alignment of the section, a power of two or zero.
    pub fn align(&self) -> (r: u64)
        ensures
            r == self.rec.align,
    {
        self.rec.align
    }

    /// The stored bytes of the section.
    pub fn data(&self) -> (r: &'a [u8])
        ensures
            r@ == self.rec.data@,
    {
        self.rec.data.as_slice()
    }

    /// The bytes of `[address, address + size)` when that window sits
    /// inside both the section's address range and its stored bytes;
    /// `None` otherwise, overflow included.
    pub fn data_range(&self, address: u64, size: u64) -> (r: Option<&'a [u8]>)
        ensures
            match r {
                Some(d) => {
                    &&& self.rec.address <= address
                    &&& address - self.rec.address + size <= self.rec.size
                    &&& address - self.rec.address + size <= self.rec.data@.len()
                    &&& d@ == self.rec.data@.subrange(
                        address - self.rec.address,
                        address - self.rec.address + size,
                    )
                    &&& d@.len() == size
                },
                None => !{
                    &&& self.rec.address <= address
                    &&& address - self.rec.address + size <= self.rec.size
                    &&& address - self.rec.address + size <= self.rec.data@.len()
                },
            },
    {
        if address >= self.rec.address {
            let off: u64 = address - self.rec.address;
            if size <= u64::MAX - off && off + size <= self.rec.size {
                return util::data_range(self.rec.data.as_slice(), self.rec.address, address, size);
            }
        }
        None
    }

    /// The section bytes with the compression undone, when the section is
    /// stored compressed (ELF `SHF_COMPRESSED`, Mach-O `__zdebug_*`) and
    /// its stream inflates; otherwise, a malformed stream included, the
    /// raw bytes unchanged.
    pub fn uncompressed_data(&self) -> (r: &'a [u8])
        ensures
            match self.rec.uncompressed {
                Some(v) => r@ == v@,
                None => r@ == self.rec.data@,
            },
    {
        match &self.rec.uncompressed {
            Some(v) => v.as_slice(),
            None => self.rec.data.as_slice(),
        }
    }

    /// The name of the section, when the format records one.
    pub fn name(&self) -> (r: Option<&'a str>)
        ensures
            match r {
                Some(n) => self.rec.name matches Some(m) && m@ == n@,
                None => self.rec.name is None,
            },
    {
        match &self.rec.name {
            Some(n) => Some(n.as_str()),
            None => None,
        }
    }

    /// The name of the segment holding this section; only Mach-O-style
    /// formats record one.
    pub fn segment_name(&self) -> (r: Option<&'a str>)
        ensures
            match r {
                Some(n) => self.rec.segment_name matches Some(m) && m@ == n@,
                None => self.rec.segment_name is None,
            },
    {
        match &self.rec.segment_name {
            Some(n) => Some(n.as_str()),
            None => None,
        }
    }

    /// The format-independent kind of the section.
    pub fn kind(&self) -> (r: SectionKind)
        ensures
            r == self.rec.kind,
    {
        self.rec.kind
    }

    /// Iterate over the relocations of this section, in on-disk order.
    pub fn relocations(&self) -> (r: RelocationIterator<'a>)
        ensures
            r.relocs@ == self.rec.relocs@,
            r.pos == 0,
    {
        RelocationIterator { relocs: &self.rec.relocs, pos: 0 }
    }
}

/// A segment of a `File`: a borrowed view of one segment record.
#[derive(Debug)]
pub struct Segment<'a> {
    pub rec: &'a SegmentRecord,
}

impl<'a> Segment<'a> {
    /// The virtual address of the segment.
    pub fn address(&self) -> (r: u64)
        ensures
            r == self.rec.address,
    {
        self.rec.address
    }

    /// The memory footprint of the segment.
    pub fn size(&self) -> (r: u64)
        ensures
            r == self.rec.size,
    {
        self.rec.size
    }

    /// The alignment of the segment, a power of two or zero.
    pub fn align(&self) -> (r: u64)
        ensures
            r == self.rec.align,
    {
        self.rec.align
    }

    /// The stored bytes of the segment.
    pub fn data(&self) -> (r: &'a [u8])
        ensures
            r@ == self.rec.data@,
    {
        self.rec.data.as_slice()
    }

    /// The bytes of `[address, address + size)` when that window sits
    /// inside the stored bytes; `None` otherwise, overflow included.
    pub fn data_range(&self, address: u64, size: u64) -> (r: Option<&'a [u8]>)
        ensures
            match r {
                Some(d) => {
                    &&& util::range_in_data(self.rec.data@.len(), self.rec.address, address, size)
                    &&& d@ == self.rec.data@.subrange(
                        address - self.rec.address,
                        address - self.rec.address + size,
                    )
                    &&& d@.len() == size
                },
                None => !util::range_in_data(self.rec.data@.len(), self.rec.address, address, size),
            },
    {
        util::data_range(self.rec.data.as_slice(), self.rec.address, address, size)
    }

    /// The name of the segment, when the format records one.
    pub fn name(&self) -> (r: Option<&'a str>)
        ensures
            match r {
                Some(n) => self.rec.name matches Some(m) && m@ == n@,
                None => self.rec.name is None,
            },
    {
        match &self.rec.name {
            Some(n) => Some(n.as_str()),
            None => None,
        }
    }
}

/// An iterator over the segments of a `File`: single-pass and finite; an
/// exhausted iterator keeps returning `None`.
#[derive(Debug)]
pub struct SegmentIterator<'a> {
    pub segs: &'a Vec<SegmentRecord>,
    pub pos: usize,
}

impl<'a> SegmentIterator<'a> {
    /// The next segment, in on-disk order.
    pub fn next(&mut self) -> (r: Option<Segment<'a>>)
        ensures
            final(self).segs == old(self).segs,
            old(self).pos < old(self).segs@.len() ==> {
                &&& r matches Some(s) && *s.rec == old(self).segs@[old(self).pos as int]
                &&& final(self).pos == old(self).pos + 1
            },
            old(self).pos >= old(self).segs@.len() ==> r is None && final(self).pos == old(
                self,
            ).pos,
    {
        if self.pos < self.segs.len() {
            let s = Segment { rec: &self.segs[self.pos] };
            self.pos = self.pos + 1;
            Some(s)
        } else {
            None
        }
    }
}

/// An iterator over the sections of a `File`: single-pass and finite; an
/// exhausted iterator keeps returning `None`.
#[derive(Debug)]
pub struct SectionIterator<'a> {
    pub secs: &'a Vec<SectionRecord>,
    pub pos: usize,
}

impl<'a> SectionIterator<'a> {
    /// The next section, in on-disk order.
    pub fn next(&mut self) -> (r: Option<Section<'a>>)
        ensures
            final(self).secs == old(self).secs,
            old(self).pos < old(self).secs@.len() ==> {
                &&& r matches Some(s) && *s.rec == old(self).secs@[old(self).pos as int]
                &&& final(self).pos == old(self).pos + 1
            },
            old(self).pos >= old(self).secs@.len() ==> r is None && final(self).pos == old(
                self,
            ).pos,
    {
        if self.pos < self.secs.len() {
            let s = Section { rec: &self.secs[self.pos] };
            self.pos = self.pos + 1;
            Some(s)
        } else {
            None
        }
    }
}

/// An iterator over a symbol table: yields each entry exactly once, as
/// the pair of its table index and the symbol record; indices ascend, so
/// no index repeats. An exhausted iterator keeps returning `None`.
#[derive(Debug)]
pub struct SymbolIterator<'a> {
    pub syms: &'a Vec<Symbol>,
    pub pos: usize,
}

impl<'a> SymbolIterator<'a> {
    /// The next (index, symbol) pair, in table order.
    pub fn next(&mut self) -> (r: Option<(SymbolIndex, Symbol)>)
        ensures
            final(self).syms == old(self).syms,
            old(self).pos < old(self).syms@.len() ==> {
                &&& r matches Some(p) && p.0 == SymbolIndex(old(self).pos) && sym_eq(
                    p.1,
                    old(self).syms@[old(self).pos as int],
                )
                &&& final(self).pos == old(self).pos + 1
            },
            old(self).pos >= old(self).syms@.len() ==> r is None && final(self).pos == old(
                self,
            ).pos,
    {
        if self.pos < self.syms.len() {
            let idx = SymbolIndex(self.pos);
            let sym = self.syms[self.pos].clone();
            self.pos = self.pos + 1;
            Some((idx, sym))
        } else {
            None
        }
    }
}

/// An iterator over the relocations of a section: yields (offset within
/// the section, relocation) pairs in on-disk order. An exhausted iterator
/// keeps returning `None`.
#[derive(Debug)]
pub struct RelocationIterator<'a> {
    pub relocs: &'a Vec<(u64, Relocation)>,
    pub pos: usize,
}

impl<'a> RelocationIterator<'a> {
    /// The next (offset, relocation) pair, in on-disk order.
    pub fn next(&mut self) -> (r: Option<(u64, Relocation)>)
        ensures
            final(self).relocs == old(self).relocs,
            old(self).pos < old(self).relocs@.len() ==> {
                &&& r matches Some(p) && p.0 == old(self).relocs@[old(self).pos as int].0 && p.1
                    == old(self).relocs@[old(self).pos as int].1
                &&& final(self).pos == old(self).pos + 1
            },
            old(self).pos >= old(self).relocs@.len() ==> r is None && final(self).pos == old(
                self,
            ).pos,
    {
        if self.pos < self.relocs.len() {
            let off = self.relocs[self.pos].0;
            let rel = self.relocs[self.pos].1.clone();
            self.pos = self.pos + 1;
            Some((off, rel))
        } else {
            None
        }
    }
}

} // verus!
