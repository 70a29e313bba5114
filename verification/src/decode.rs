//! The byte-level decoders of the goblin crate, behind trusted items.
//!
//! Each wrapper here hands the fields of one parsed structure over as
//! plain values; everything done with those values afterwards is verified
//! library code. Nothing below the wrappers is checked by the verifier, so
//! each one carries a note naming the goblin item it relies on.

use vstd::prelude::*;

use crate::sniff::MagicHint;
use crate::sniff::classify_magic;

verus! {

/// Whether goblin::elf::Elf::parse accepts the buffer; its result depends
/// on the bytes alone.
pub uninterp spec fn elf_parseable(s: Seq<u8>) -> bool;

/// Whether goblin::mach::MachO::parse accepts the buffer; its result
/// depends on the bytes alone.
pub uninterp spec fn macho_parseable(s: Seq<u8>) -> bool;

/// The entry address goblin::mach::MachO::parse derives from the LC_MAIN
/// or LC_UNIXTHREAD command; a function of the bytes alone.
pub uninterp spec fn macho_entry_of(s: Seq<u8>) -> u64;

/// Whether goblin::pe::PE::parse accepts the buffer; its result depends on
/// the bytes alone.
pub uninterp spec fn pe_parseable(s: Seq<u8>) -> bool;

/// The bitness goblin::pe::PE::parse reads from the optional-header magic
/// (PE32+ against PE32); a function of the bytes alone.
pub uninterp spec fn pe_is_64_of(s: Seq<u8>) -> bool;

/// The COFF header machine field goblin::pe::PE::parse reads; a function
/// of the bytes alone.
pub uninterp spec fn pe_machine_of(s: Seq<u8>) -> u16;

/// The entry point RVA goblin::pe::PE::parse reads from the optional
/// header; a function of the bytes alone.
pub uninterp spec fn pe_entry_of(s: Seq<u8>) -> u64;

#[verifier::external_type_specification]
#[verifier::external_body]
pub struct ExElf<'a>(goblin::elf::Elf<'a>);

#[verifier::external_type_specification]
#[verifier::external_body]
pub struct ExMachO<'a>(goblin::mach::MachO<'a>);

#[verifier::external_type_specification]
#[verifier::external_body]
pub struct ExPe<'a>(goblin::pe::PE<'a>);

#[verifier::external_type_specification]
#[verifier::external_body]
pub struct ExUuid(uuid::Uuid);

/// Relies on goblin::peek_bytes: it classifies a 16-byte prefix by the
/// magics alone, in the order written in `classify_magic`, and cannot fail
/// on a full 16-byte buffer.
#[verifier::external_body]
pub fn peek_hint(data: &[u8]) -> (r: MagicHint)
    requires
        data@.len() >= 16,
    ensures
        r == classify_magic(data@),
{
    let mut bytes = [0u8; 16];
    bytes.clone_from_slice(&data[..16]);
    match goblin::peek_bytes(&bytes) {
        Ok(goblin::Hint::Elf(h)) => MagicHint::Elf { is_lsb: h.is_lsb, is_64: h.is_64 },
        Ok(goblin::Hint::Mach(h)) => MagicHint::Mach { is_lsb: h.is_lsb, is_64: h.is_64 },
        Ok(goblin::Hint::MachFat(_)) => MagicHint::MachFat,
        Ok(goblin::Hint::PE) => MagicHint::Pe,
        Ok(goblin::Hint::TE) => MagicHint::Te,
        Ok(goblin::Hint::COFF) => MagicHint::Coff,
        Ok(goblin::Hint::Archive) => MagicHint::Archive,
        Ok(_) => MagicHint::Unknown,
        Err(_) => MagicHint::Error,
    }
}

/// What zlib inflation of a byte stream yields, when the stream is valid;
/// a function of the bytes alone.
pub uninterp spec fn inflated_of(s: Seq<u8>) -> Option<Seq<u8>>;

/// Relies on miniz_oxide::inflate::decompress_to_vec_zlib: it inflates a
/// zlib stream, or reports that the stream is malformed; pure safe code
/// with no panic path of its own.
#[verifier::external_body]
pub fn inflate_zlib(data: &[u8]) -> (r: Option<Vec<u8>>)
    ensures
        match r {
            Some(v) => inflated_of(data@) == Some(v@),
            None => inflated_of(data@) is None,
        },
{
    miniz_oxide::inflate::decompress_to_vec_zlib(data).ok()
}

/// The 16 bytes a UUID value holds.
pub uninterp spec fn uuid_bytes(u: uuid::Uuid) -> Seq<u8>;

/// Relies on uuid::Uuid::from_slice: it wraps the bytes as a UUID, and
/// refuses exactly a slice that is not 16 bytes long.
#[verifier::external_body]
pub fn uuid_from_slice(bytes: &[u8]) -> (r: Option<uuid::Uuid>)
    ensures
        r is Some <==> bytes@.len() == 16,
        r matches Some(u) ==> uuid_bytes(u) == bytes@,
{
    uuid::Uuid::from_slice(bytes).ok()
}

/// The header fields of a parsed ELF file, as plain values.
pub struct RawElfHeader {
    pub is_64: bool,
    pub little_endian: bool,
    pub e_machine: u16,
    pub e_entry: u64,
}

/// One ELF section header, with its name already resolved against the
/// section-header string table.
pub struct RawElfSection {
    pub name: Option<String>,
    pub sh_type: u32,
    pub sh_flags: u64,
    pub sh_addr: u64,
    pub sh_offset: u64,
    pub sh_size: u64,
    pub sh_addralign: u64,
    pub sh_info: u32,
}

/// One ELF symbol table entry, with its name already resolved.
pub struct RawElfSym {
    pub name: Option<String>,
    pub st_info: u8,
    pub st_shndx: usize,
    pub st_value: u64,
    pub st_size: u64,
}

/// One ELF program header.
pub struct RawElfPhdr {
    pub p_type: u32,
    pub p_offset: u64,
    pub p_vaddr: u64,
    pub p_filesz: u64,
    pub p_memsz: u64,
    pub p_align: u64,
}

/// One ELF relocation entry.
pub struct RawElfReloc {
    pub r_offset: u64,
    pub r_sym: usize,
    pub r_type: u32,
    pub r_addend: Option<i64>,
}

/// Relies on goblin::elf::Elf::parse. On success, goblin derives `is_64`
/// from the class byte at offset 4 (rejecting any class other than 1 or
/// 2), `little_endian` from the data-encoding byte at offset 5 (rejecting
/// any encoding other than 1 or 2), and reads `e_machine` and `e_entry`
/// from the fixed header offsets in that byte order; the whole header must
/// be present. Goblin narrows the entry through the machine word, so its
/// value is only promised where it fits one.
#[verifier::external_body]
pub fn elf_parse<'a>(data: &'a [u8]) -> (r: Result<(goblin::elf::Elf<'a>, RawElfHeader), String>)
    ensures
        r is Ok <==> elf_parseable(data@),
        r matches Ok(p) ==> {
            &&& data@.len() >= 52
            &&& p.1.is_64 == (data@[4] == 2u8)
            &&& !p.1.is_64 ==> data@[4] == 1u8
            &&& p.1.little_endian == (data@[5] == 1u8)
            &&& data@[5] == 1u8 || data@[5] == 2u8
            &&& p.1.is_64 ==> data@.len() >= 64
            &&& p.1.e_machine == crate::elf::elf_header_machine(data@)
            &&& !p.1.is_64 ==> p.1.e_entry == crate::elf::elf_header_entry(data@)
            &&& p.1.is_64 && crate::elf::elf_header_entry(data@) <= usize::MAX ==> p.1.e_entry
                == crate::elf::elf_header_entry(data@)
        },
{
    match goblin::elf::Elf::parse(data) {
        Ok(e) => {
            let h = RawElfHeader {
                is_64: e.is_64,
                little_endian: e.little_endian,
                e_machine: e.header.e_machine,
                e_entry: e.entry,
            };
            Ok((e, h))
        },
        Err(err) => Err(format!("{}", err)),
    }
}

/// Relies on goblin::elf::Elf::section_headers being the parsed
/// section-header table.
#[verifier::external_body]
pub fn elf_section_count(e: &goblin::elf::Elf) -> usize {
    e.section_headers.len()
}

/// Relies on the fields of goblin::elf::SectionHeader and on
/// goblin::strtab::Strtab::get_at for the section name.
#[verifier::external_body]
pub fn elf_section(e: &goblin::elf::Elf, i: usize) -> Option<RawElfSection> {
    e.section_headers.get(i).map(|h| RawElfSection {
        name: e.shdr_strtab.get_at(h.sh_name).map(|s| s.to_string()),
        sh_type: h.sh_type,
        sh_flags: h.sh_flags,
        sh_addr: h.sh_addr,
        sh_offset: h.sh_offset,
        sh_size: h.sh_size,
        sh_addralign: h.sh_addralign,
        sh_info: h.sh_info,
    })
}

/// Relies on goblin::elf::Elf::syms being the static symbol table.
#[verifier::external_body]
pub fn elf_sym_count(e: &goblin::elf::Elf) -> usize {
    e.syms.len()
}

/// Relies on the fields of goblin::elf::sym::Sym and on
/// goblin::strtab::Strtab::get_at for the symbol name.
#[verifier::external_body]
pub fn elf_sym(e: &goblin::elf::Elf, i: usize) -> Option<RawElfSym> {
    e.syms.get(i).map(|s| RawElfSym {
        name: e.strtab.get_at(s.st_name).map(|n| n.to_string()),
        st_info: s.st_info,
        st_shndx: s.st_shndx,
        st_value: s.st_value,
        st_size: s.st_size,
    })
}

/// Relies on goblin::elf::Elf::dynsyms being the dynamic symbol table.
#[verifier::external_body]
pub fn elf_dynsym_count(e: &goblin::elf::Elf) -> usize {
    e.dynsyms.len()
}

/// Relies on the fields of goblin::elf::sym::Sym and on
/// goblin::strtab::Strtab::get_at against the dynamic string table.
#[verifier::external_body]
pub fn elf_dynsym(e: &goblin::elf::Elf, i: usize) -> Option<RawElfSym> {
    e.dynsyms.get(i).map(|s| RawElfSym {
        name: e.dynstrtab.get_at(s.st_name).map(|n| n.to_string()),
        st_info: s.st_info,
        st_shndx: s.st_shndx,
        st_value: s.st_value,
        st_size: s.st_size,
    })
}

/// Relies on goblin::elf::Elf::program_headers being the parsed program
/// header table.
#[verifier::external_body]
pub fn elf_phdr_count(e: &goblin::elf::Elf) -> usize {
    e.program_headers.len()
}

/// Relies on the fields of goblin::elf::ProgramHeader.
#[verifier::external_body]
pub fn elf_phdr(e: &goblin::elf::Elf, i: usize) -> Option<RawElfPhdr> {
    e.program_headers.get(i).map(|h| RawElfPhdr {
        p_type: h.p_type,
        p_offset: h.p_offset,
        p_vaddr: h.p_vaddr,
        p_filesz: h.p_filesz,
        p_memsz: h.p_memsz,
        p_align: h.p_align,
    })
}

/// Relies on goblin::elf::Elf::shdr_relocs holding one entry per
/// relocation section of a relocatable object.
#[verifier::external_body]
pub fn elf_reloc_group_count(e: &goblin::elf::Elf) -> usize {
    e.shdr_relocs.len()
}

/// Relies on goblin::elf::Elf::shdr_relocs: each entry pairs the header
/// index of the relocation section with its parsed entries, whose fields
/// goblin::elf::reloc::Reloc carries.
#[verifier::external_body]
pub fn elf_reloc_group(e: &goblin::elf::Elf, k: usize) -> Option<(usize, Vec<RawElfReloc>)> {
    e.shdr_relocs.get(k).map(|(idx, rs)| {
        let entries = rs.iter().map(|r| RawElfReloc {
            r_offset: r.r_offset,
            r_sym: r.r_sym,
            r_type: r.r_type,
            r_addend: r.r_addend,
        }).collect();
        (*idx, entries)
    })
}

/// The header fields of a parsed Mach-O file, as plain values.
pub struct RawMachHeader {
    pub is_64: bool,
    pub little_endian: bool,
    pub cputype: u32,
    pub entry: u64,
}

/// One Mach-O segment command.
pub struct RawMachSegment {
    pub name: Option<String>,
    pub vmaddr: u64,
    pub vmsize: u64,
    pub fileoff: u64,
    pub filesize: u64,
}

/// One Mach-O section, with the name of the segment it sits in.
pub struct RawMachSection {
    pub sectname: Option<String>,
    pub segname: Option<String>,
    pub addr: u64,
    pub size: u64,
    pub offset: u32,
    pub align: u32,
    pub flags: u32,
}

/// One Mach-O symbol table entry.
pub struct RawMachSym {
    pub name: String,
    pub n_type: u8,
    pub n_sect: usize,
    pub n_desc: u16,
    pub n_value: u64,
}

/// Relies on goblin::mach::MachO::parse. On success, goblin derives
/// `is_64` and `little_endian` from which of the four thin magics opens
/// the buffer, requires the full header to be present, and reads `cputype`
/// as the 32-bit word after the magic, in the magic's byte order.
///
/// goblin's entry computation subtracts the first `__TEXT` segment's file
/// offset from its address and adds the LC_MAIN entry offset with
/// unchecked machine arithmetic; the `requires` walks the load commands
/// the same way goblin does and admits only buffers on which that
/// arithmetic cannot overflow (goblin also forms each next command offset
/// in a machine word, so command sizes must fit one, which the same walk
/// enforces).
#[verifier::external_body]
pub fn macho_parse<'a>(data: &'a [u8]) -> (r: Result<
    (goblin::mach::MachO<'a>, RawMachHeader),
    String,
>)
    requires
        crate::macho::macho_commands_checked(data@),
    ensures
        r is Ok <==> macho_parseable(data@),
        r matches Ok(p) ==> {
            &&& data@.len() >= 32
            &&& crate::sniff::is_macho_magic(data@)
            &&& p.1.is_64 == crate::sniff::macho_magic_is_64(data@)
            &&& p.1.little_endian == crate::sniff::macho_magic_is_lsb(data@)
            &&& p.1.cputype == crate::macho::macho_header_cputype(data@)
            &&& p.1.entry == macho_entry_of(data@)
        },
{
    match goblin::mach::MachO::parse(data, 0) {
        Ok(m) => {
            let h = RawMachHeader {
                is_64: m.is_64,
                little_endian: m.little_endian,
                cputype: m.header.cputype,
                entry: m.entry,
            };
            Ok((m, h))
        },
        Err(err) => Err(format!("{}", err)),
    }
}

/// Relies on goblin::mach::MachO::segments.
#[verifier::external_body]
pub fn macho_segment_count(m: &goblin::mach::MachO) -> usize {
    m.segments.len()
}

/// Relies on the fields of goblin::mach::segment::Segment and on its
/// `name` accessor.
#[verifier::external_body]
pub fn macho_segment(m: &goblin::mach::MachO, i: usize) -> Option<RawMachSegment> {
    m.segments.get(i).map(|s| RawMachSegment {
        name: s.name().ok().map(|n| n.to_string()),
        vmaddr: s.vmaddr,
        vmsize: s.vmsize,
        fileoff: s.fileoff,
        filesize: s.filesize,
    })
}

/// Relies on goblin::mach::segment::Segment::sections and on the fields
/// and name accessors of goblin::mach::segment::Section. A segment whose
/// sections cannot be read yields no sections.
#[verifier::external_body]
pub fn macho_segment_sections(m: &goblin::mach::MachO, i: usize) -> Vec<RawMachSection> {
    let Some(seg) = m.segments.get(i) else { return Vec::new() };
    let Ok(sections) = seg.sections() else { return Vec::new() };
    sections.into_iter().map(|(sec, _)| RawMachSection {
        sectname: sec.name().ok().map(|n| n.to_string()),
        segname: sec.segname().ok().map(|n| n.to_string()),
        addr: sec.addr,
        size: sec.size,
        offset: sec.offset,
        align: sec.align,
        flags: sec.flags,
    }).collect()
}

/// Relies on goblin::mach::MachO::symbols and the fields of
/// goblin::mach::symbols::Nlist; entries goblin cannot read are dropped.
#[verifier::external_body]
pub fn macho_symbols(m: &goblin::mach::MachO) -> Vec<RawMachSym> {
    let Some(syms) = &m.symbols else { return Vec::new() };
    syms.iter().filter_map(|r| r.ok()).map(|(name, nl)| RawMachSym {
        name: name.to_string(),
        n_type: nl.n_type,
        n_sect: nl.n_sect,
        n_desc: nl.n_desc,
        n_value: nl.n_value,
    }).collect()
}

/// The header fields of a parsed PE image, as plain values.
pub struct RawPeHeader {
    pub is_64: bool,
    pub machine: u16,
    pub entry: u64,
    pub image_base: u64,
    pub has_debug: bool,
}

/// One PE section table entry.
pub struct RawPeSection {
    pub name: Option<String>,
    pub virtual_address: u32,
    pub virtual_size: u32,
    pub size_of_raw_data: u32,
    pub pointer_to_raw_data: u32,
    pub characteristics: u32,
}

/// Relies on goblin::pe::PE::parse: `is_64` reflects the validated
/// optional-header magic (PE32+ against PE32), `machine` the COFF header
/// machine field, `entry` the entry point RVA, `image_base` the image
/// base, and `debug_data` the debug directory; all are functions of the
/// bytes alone.
#[verifier::external_body]
pub fn pe_parse<'a>(data: &'a [u8]) -> (r: Result<(goblin::pe::PE<'a>, RawPeHeader), String>)
    ensures
        r is Ok <==> pe_parseable(data@),
        r matches Ok(p) ==> {
            &&& p.1.is_64 == pe_is_64_of(data@)
            &&& p.1.machine == pe_machine_of(data@)
            &&& p.1.entry == pe_entry_of(data@)
        },
{
    match goblin::pe::PE::parse(data) {
        Ok(p) => {
            let h = RawPeHeader {
                is_64: p.is_64,
                machine: p.header.coff_header.machine,
                entry: p.entry as u64,
                image_base: p.image_base,
                has_debug: p.debug_data.is_some(),
            };
            Ok((p, h))
        },
        Err(err) => Err(format!("{}", err)),
    }
}

/// Relies on goblin::pe::PE::sections.
#[verifier::external_body]
pub fn pe_section_count(p: &goblin::pe::PE) -> usize {
    p.sections.len()
}

/// Relies on the fields of goblin::pe::section_table::SectionTable and on
/// its `name` accessor.
#[verifier::external_body]
pub fn pe_section(p: &goblin::pe::PE, i: usize) -> Option<RawPeSection> {
    p.sections.get(i).map(|s| RawPeSection {
        name: s.name().ok().map(|n| n.to_string()),
        virtual_address: s.virtual_address,
        virtual_size: s.virtual_size,
        size_of_raw_data: s.size_of_raw_data,
        pointer_to_raw_data: s.pointer_to_raw_data,
        characteristics: s.characteristics,
    })
}

} // verus!
