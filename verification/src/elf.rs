//! The ELF backend: turns the plain values handed over by the decoder
//! into section, segment and symbol records, and parses the build-ID note
//! and the debug-link section out of the section bytes.

use vstd::prelude::*;
use vstd::slice::slice_index_get;
use vstd::slice::slice_subrange;
use vstd::slice::slice_to_vec;
use vstd::string::StringExecFns;

use crate::classify;
use crate::decode;
use crate::decode::RawElfSym;
use crate::model::Machine;
use crate::model::Relocation;
use crate::model::SectionIndex;
use crate::model::Symbol;
use crate::records::SectionRecord;
use crate::records::SegmentRecord;
use crate::util;
use crate::util::pad4;
use crate::util::u32_be_at;
use crate::util::u32_le_at;

verus! {

pub const PT_LOAD: u32 = 1;

/// The machine field of an ELF header: the 16-bit word at offset 18, in
/// the byte order the data-encoding byte at offset 5 names.
pub open spec fn elf_header_machine(s: Seq<u8>) -> int {
    if s[5] == 1u8 {
        crate::util::u16_le_at(s, 18)
    } else {
        crate::util::u16_be_at(s, 18)
    }
}

/// The entry field of an ELF header: at offset 24, eight bytes for a
/// 64-bit file and four for a 32-bit one, in the header's byte order.
pub open spec fn elf_header_entry(s: Seq<u8>) -> int {
    if s[4] == 2u8 {
        if s[5] == 1u8 {
            crate::util::u64_le_at(s, 24)
        } else {
            crate::util::u64_be_at(s, 24)
        }
    } else {
        if s[5] == 1u8 {
            crate::util::u32_le_at(s, 24)
        } else {
            crate::util::u32_be_at(s, 24)
        }
    }
}

/// A parsed ELF file.
#[derive(Debug)]
pub struct ElfFile {
    pub is_64: bool,
    pub little_endian: bool,
    pub machine: Machine,
    pub entry: u64,
    pub sections: Vec<SectionRecord>,
    pub segments: Vec<SegmentRecord>,
    pub symbols: Vec<Symbol>,
    pub dynamic_symbols: Vec<Symbol>,
    pub build_id: Option<Vec<u8>>,
    pub debuglink: Option<(Vec<u8>, u32)>,
    pub has_debug: bool,
}

/// The symbol record an ELF symbol table entry stands for: the kind from
/// the type nibble of `st_info`, global when the bind nibble says global
/// or weak, undefined exactly on a zero `st_shndx`.
pub fn elf_symbol_from_raw(raw: RawElfSym) -> (s: Symbol)
    ensures
        s.kind == classify::spec_elf_symbol_kind((raw.st_info & 0x0f) as u8),
        s.global == (raw.st_info >> 4 == classify::STB_GLOBAL || raw.st_info >> 4
            == classify::STB_WEAK),
        s.undefined == (raw.st_shndx == 0),
        s.section_index == (if raw.st_shndx == 0 {
            Option::<SectionIndex>::None
        } else {
            Some(SectionIndex(raw.st_shndx))
        }),
        s.name == raw.name,
        s.address == raw.st_value,
        s.size == raw.st_size,
{
    let bind = raw.st_info >> 4;
    Symbol {
        kind: classify::elf_symbol_kind(raw.st_info & 0x0f),
        section_index: if raw.st_shndx == 0 {
            None
        } else {
            Some(SectionIndex(raw.st_shndx))
        },
        undefined: raw.st_shndx == 0,
        global: bind == classify::STB_GLOBAL || bind == classify::STB_WEAK,
        name: raw.name,
        address: raw.st_value,
        size: raw.st_size,
    }
}

/// The section-header table offset an ELF header names, at the fixed
/// offset of each class, in the header's byte order.
pub open spec fn elf_shoff(s: Seq<u8>) -> int {
    if s[4] == 2u8 {
        crate::util::u64_at(s, 40, s[5] == 1u8)
    } else {
        crate::util::u32_at(s, 32, s[5] == 1u8)
    }
}

/// The size of one section-header table entry.
pub open spec fn elf_shentsize(s: Seq<u8>) -> int {
    crate::util::u16_at(
        s,
        if s[4] == 2u8 {
            58
        } else {
            46
        },
        s[5] == 1u8,
    )
}

/// The number of section-header table entries.
pub open spec fn elf_shnum(s: Seq<u8>) -> int {
    crate::util::u16_at(
        s,
        if s[4] == 2u8 {
            60
        } else {
            48
        },
        s[5] == 1u8,
    )
}

/// The table index of the section-name string table.
pub open spec fn elf_shstrndx(s: Seq<u8>) -> int {
    crate::util::u16_at(
        s,
        if s[4] == 2u8 {
            62
        } else {
            50
        },
        s[5] == 1u8,
    )
}

/// Where section header `i` sits in the buffer.
pub open spec fn elf_shdr_at(s: Seq<u8>, i: int) -> int {
    elf_shoff(s) + i * elf_shentsize(s)
}

/// The name offset of section header `i`.
pub open spec fn elf_shdr_name_off(s: Seq<u8>, i: int) -> int {
    crate::util::u32_at(s, elf_shdr_at(s, i), s[5] == 1u8)
}

/// The file offset of section header `i`'s bytes.
pub open spec fn elf_shdr_file_off(s: Seq<u8>, i: int) -> int {
    if s[4] == 2u8 {
        crate::util::u64_at(s, elf_shdr_at(s, i) + 24, s[5] == 1u8)
    } else {
        crate::util::u32_at(s, elf_shdr_at(s, i) + 16, s[5] == 1u8)
    }
}

/// The stored size of section header `i`'s bytes.
pub open spec fn elf_shdr_file_size(s: Seq<u8>, i: int) -> int {
    if s[4] == 2u8 {
        crate::util::u64_at(s, elf_shdr_at(s, i) + 32, s[5] == 1u8)
    } else {
        crate::util::u32_at(s, elf_shdr_at(s, i) + 20, s[5] == 1u8)
    }
}

/// The section-header table is addressable: a full header of a valid
/// class, entries at least a header wide, the whole table inside the
/// buffer, and the section-name string table named by the header inside
/// the buffer too.
pub open spec fn elf_shdrs_ok(s: Seq<u8>) -> bool {
    &&& (s[4] == 1u8 || s[4] == 2u8)
    &&& s.len() >= (if s[4] == 2u8 {
        64int
    } else {
        52
    })
    &&& elf_shentsize(s) >= (if s[4] == 2u8 {
        64int
    } else {
        40
    })
    &&& elf_shoff(s) + elf_shnum(s) * elf_shentsize(s) <= s.len()
    &&& 0 <= elf_shstrndx(s) < elf_shnum(s)
    &&& elf_shdr_file_off(s, elf_shstrndx(s)) + elf_shdr_file_size(s, elf_shstrndx(s)) <= s.len()
}

/// The NUL-terminated string at `p` is `.note.gnu.build-id`.
pub open spec fn build_id_name_at(s: Seq<u8>, p: int) -> bool {
    &&& s[p] == 0x2eu8
    &&& s[p + 1] == 0x6eu8
    &&& s[p + 2] == 0x6fu8
    &&& s[p + 3] == 0x74u8
    &&& s[p + 4] == 0x65u8
    &&& s[p + 5] == 0x2eu8
    &&& s[p + 6] == 0x67u8
    &&& s[p + 7] == 0x6eu8
    &&& s[p + 8] == 0x75u8
    &&& s[p + 9] == 0x2eu8
    &&& s[p + 10] == 0x62u8
    &&& s[p + 11] == 0x75u8
    &&& s[p + 12] == 0x69u8
    &&& s[p + 13] == 0x6cu8
    &&& s[p + 14] == 0x64u8
    &&& s[p + 15] == 0x2du8
    &&& s[p + 16] == 0x69u8
    &&& s[p + 17] == 0x64u8
    &&& s[p + 18] == 0x00u8
}

/// The NUL-terminated string at `p` is `.gnu_debuglink`.
pub open spec fn debuglink_name_at(s: Seq<u8>, p: int) -> bool {
    &&& s[p] == 0x2eu8
    &&& s[p + 1] == 0x67u8
    &&& s[p + 2] == 0x6eu8
    &&& s[p + 3] == 0x75u8
    &&& s[p + 4] == 0x5fu8
    &&& s[p + 5] == 0x64u8
    &&& s[p + 6] == 0x65u8
    &&& s[p + 7] == 0x62u8
    &&& s[p + 8] == 0x75u8
    &&& s[p + 9] == 0x67u8
    &&& s[p + 10] == 0x6cu8
    &&& s[p + 11] == 0x69u8
    &&& s[p + 12] == 0x6eu8
    &&& s[p + 13] == 0x6bu8
    &&& s[p + 14] == 0x00u8
}

/// Section `i` carries the name `.note.gnu.build-id`.
pub open spec fn section_has_build_id_name(s: Seq<u8>, i: int) -> bool {
    let stroff = elf_shdr_file_off(s, elf_shstrndx(s));
    let strsize = elf_shdr_file_size(s, elf_shstrndx(s));
    let noff = elf_shdr_name_off(s, i);
    &&& noff + 19 <= strsize
    &&& build_id_name_at(s, stroff + noff)
}

/// Section `i` carries the name `.gnu_debuglink`.
pub open spec fn section_has_debuglink_name(s: Seq<u8>, i: int) -> bool {
    let stroff = elf_shdr_file_off(s, elf_shstrndx(s));
    let strsize = elf_shdr_file_size(s, elf_shstrndx(s));
    let noff = elf_shdr_name_off(s, i);
    &&& noff + 15 <= strsize
    &&& debuglink_name_at(s, stroff + noff)
}

/// The file offset and size of the first section from `i` on named
/// `.note.gnu.build-id`.
pub open spec fn find_build_id_section(s: Seq<u8>, i: int) -> Option<(int, int)>
    decreases elf_shnum(s) - i,
{
    if i < 0 || i >= elf_shnum(s) {
        None
    } else if section_has_build_id_name(s, i) {
        Some((elf_shdr_file_off(s, i), elf_shdr_file_size(s, i)))
    } else {
        find_build_id_section(s, i + 1)
    }
}

/// The file offset and size of the first section from `i` on named
/// `.gnu_debuglink`.
pub open spec fn find_debuglink_section(s: Seq<u8>, i: int) -> Option<(int, int)>
    decreases elf_shnum(s) - i,
{
    if i < 0 || i >= elf_shnum(s) {
        None
    } else if section_has_debuglink_name(s, i) {
        Some((elf_shdr_file_off(s, i), elf_shdr_file_size(s, i)))
    } else {
        find_debuglink_section(s, i + 1)
    }
}

/// The build-ID payload the buffer carries: what the note walk yields over
/// the bytes of the first section named `.note.gnu.build-id`, when the
/// table is addressable and that section sits inside the buffer.
pub open spec fn elf_build_id_of(s: Seq<u8>) -> Option<Seq<u8>> {
    if !elf_shdrs_ok(s) {
        None
    } else {
        match find_build_id_section(s, 0) {
            None => None,
            Some(p) => if p.0 + p.1 <= s.len() {
                build_id_scan(s.subrange(p.0, p.0 + p.1), s[5] == 1u8, 0, (p.1 + 12) as nat)
            } else {
                None
            },
        }
    }
}

/// The bytes of the first section named `.gnu_debuglink`, when the table
/// is addressable and that section sits inside the buffer.
pub open spec fn elf_debuglink_section_of(s: Seq<u8>) -> Option<Seq<u8>> {
    if !elf_shdrs_ok(s) {
        None
    } else {
        match find_debuglink_section(s, 0) {
            None => None,
            Some(p) => if p.0 + p.1 <= s.len() {
                Some(s.subrange(p.0, p.0 + p.1))
            } else {
                None
            },
        }
    }
}

/// `r` is what the debug-link grammar says of `sec`: a parsed name and CRC
/// that sit in `sec`, or nothing exactly when no link fits.
pub open spec fn debuglink_matches(sec: Seq<u8>, r: Option<(Vec<u8>, u32)>) -> bool {
    match r {
        Some(p) => exists|i: int| debuglink_at(sec, i, p.0@, p.1 as int),
        None => debuglink_absent(sec),
    }
}

/// No debug link fits the section bytes: wherever the file name's NUL
/// sits, the four CRC bytes after the padding would leave the section.
pub open spec fn debuglink_absent(sec: Seq<u8>) -> bool {
    forall|i: int|
        0 <= i < sec.len() && sec[i] == 0u8 && (forall|j: int| 0 <= j < i ==> sec[j] != 0u8)
            ==> i + 1 + pad4(i + 1) + 4 > sec.len()
}

/// Read the table geometry, exactly when `elf_shdrs_ok` holds: the table
/// offset, entry size and count, and the name string table's offset and
/// size.
fn elf_table_geometry(data: &[u8]) -> (r: Option<(u64, u64, u64, u64, u64)>)
    ensures
        r is Some <==> elf_shdrs_ok(data@),
        r matches Some(g) ==> {
            &&& g.0 == elf_shoff(data@)
            &&& g.1 == elf_shentsize(data@)
            &&& g.2 == elf_shnum(data@)
            &&& g.3 == elf_shdr_file_off(data@, elf_shstrndx(data@))
            &&& g.4 == elf_shdr_file_size(data@, elf_shstrndx(data@))
        },
{
    let len: usize = data.len();
    if len < 52 {
        return None;
    }
    let b4 = *slice_index_get(data, 4);
    let le = *slice_index_get(data, 5) == 1;
    if !(b4 == 1 || b4 == 2) {
        return None;
    }
    let is64 = b4 == 2;
    if is64 && len < 64 {
        return None;
    }
    let shoff: u64 = if is64 {
        util::read_u64(data, 40, le)
    } else {
        util::read_u32(data, 32, le) as u64
    };
    let ent: u64 = if is64 {
        util::read_u16(data, 58, le) as u64
    } else {
        util::read_u16(data, 46, le) as u64
    };
    let shnum: u64 = if is64 {
        util::read_u16(data, 60, le) as u64
    } else {
        util::read_u16(data, 48, le) as u64
    };
    let strndx: u64 = if is64 {
        util::read_u16(data, 62, le) as u64
    } else {
        util::read_u16(data, 50, le) as u64
    };
    if ent < (if is64 {
        64
    } else {
        40
    }) {
        return None;
    }
    // both counts fit 16 bits, so the product fits a machine word
    proof {
        assert(shnum * ent <= 0xffff * 0xffff) by (nonlinear_arith)
            requires
                0 <= shnum <= 0xffff,
                0 <= ent <= 0xffff,
        ;
    }
    let table: u64 = shnum * ent;
    if shoff > len as u64 || table > len as u64 - shoff {
        return None;
    }
    if strndx >= shnum {
        return None;
    }
    proof {
        assert((strndx + 1) * ent <= shnum * ent) by (nonlinear_arith)
            requires
                strndx + 1 <= shnum,
                0 <= ent,
        ;
        assert(strndx * ent + ent == (strndx + 1) * ent) by (nonlinear_arith);
    }
    let base: usize = (shoff + strndx * ent) as usize;
    let stroff: u64 = if is64 {
        util::read_u64(data, base + 24, le)
    } else {
        util::read_u32(data, base + 16, le) as u64
    };
    let strsize: u64 = if is64 {
        util::read_u64(data, base + 32, le)
    } else {
        util::read_u32(data, base + 20, le) as u64
    };
    if stroff > len as u64 || strsize > len as u64 - stroff {
        return None;
    }
    Some((shoff, ent, shnum, stroff, strsize))
}

/// Decide `build_id_name_at`.
fn is_build_id_name_exec(data: &[u8], p: usize) -> (r: bool)
    requires
        p + 19 <= data@.len(),
    ensures
        r == build_id_name_at(data@, p as int),
{
    let len: usize = data.len();
    *slice_index_get(data, p) == 0x2e && *slice_index_get(data, p + 1) == 0x6e
        && *slice_index_get(data, p + 2) == 0x6f && *slice_index_get(data, p + 3) == 0x74
        && *slice_index_get(data, p + 4) == 0x65 && *slice_index_get(data, p + 5) == 0x2e
        && *slice_index_get(data, p + 6) == 0x67 && *slice_index_get(data, p + 7) == 0x6e
        && *slice_index_get(data, p + 8) == 0x75 && *slice_index_get(data, p + 9) == 0x2e
        && *slice_index_get(data, p + 10) == 0x62 && *slice_index_get(data, p + 11) == 0x75
        && *slice_index_get(data, p + 12) == 0x69 && *slice_index_get(data, p + 13) == 0x6c
        && *slice_index_get(data, p + 14) == 0x64 && *slice_index_get(data, p + 15) == 0x2d
        && *slice_index_get(data, p + 16) == 0x69 && *slice_index_get(data, p + 17) == 0x64
        && *slice_index_get(data, p + 18) == 0x00
}

/// Decide `debuglink_name_at`.
fn is_debuglink_name_exec(data: &[u8], p: usize) -> (r: bool)
    requires
        p + 15 <= data@.len(),
    ensures
        r == debuglink_name_at(data@, p as int),
{
    let len: usize = data.len();
    *slice_index_get(data, p) == 0x2e && *slice_index_get(data, p + 1) == 0x67
        && *slice_index_get(data, p + 2) == 0x6e && *slice_index_get(data, p + 3) == 0x75
        && *slice_index_get(data, p + 4) == 0x5f && *slice_index_get(data, p + 5) == 0x64
        && *slice_index_get(data, p + 6) == 0x65 && *slice_index_get(data, p + 7) == 0x62
        && *slice_index_get(data, p + 8) == 0x75 && *slice_index_get(data, p + 9) == 0x67
        && *slice_index_get(data, p + 10) == 0x6c && *slice_index_get(data, p + 11) == 0x69
        && *slice_index_get(data, p + 12) == 0x6e && *slice_index_get(data, p + 13) == 0x6b
        && *slice_index_get(data, p + 14) == 0x00
}

/// Find the first section named `.note.gnu.build-id`: its file offset and
/// stored size, straight from the raw bytes.
fn find_build_id_raw(data: &[u8]) -> (r: Option<(u64, u64)>)
    ensures
        match r {
            Some(p) => elf_shdrs_ok(data@) && find_build_id_section(data@, 0) == Some(
                (p.0 as int, p.1 as int),
            ),
            None => !elf_shdrs_ok(data@) || find_build_id_section(data@, 0) is None,
        },
{
    let len: usize = data.len();
    let (shoff, ent, shnum, stroff, strsize) = match elf_table_geometry(data) {
        Some(g) => g,
        None => {
            return None;
        },
    };
    let le = *slice_index_get(data, 5) == 1;
    let is64 = *slice_index_get(data, 4) == 2;
    let mut i: u64 = 0;
    while i < shnum
        invariant
            len == data@.len(),
            elf_shdrs_ok(data@),
            shoff == elf_shoff(data@),
            ent == elf_shentsize(data@),
            shnum == elf_shnum(data@),
            stroff == elf_shdr_file_off(data@, elf_shstrndx(data@)),
            strsize == elf_shdr_file_size(data@, elf_shstrndx(data@)),
            le == (data@[5] == 1u8),
            is64 == (data@[4] == 2u8),
            i <= shnum,
            find_build_id_section(data@, 0) == find_build_id_section(data@, i as int),
        decreases shnum - i,
    {
        proof {
            assert((i + 1) * ent <= shnum * ent) by (nonlinear_arith)
                requires
                    i + 1 <= shnum,
                    0 <= ent,
            ;
            assert(i * ent + ent == (i + 1) * ent) by (nonlinear_arith);
        }
        let base: usize = (shoff + i * ent) as usize;
        let noff: u64 = util::read_u32(data, base, le) as u64;
        let mut matched = false;
        if noff + 19 <= strsize {
            matched = is_build_id_name_exec(data, (stroff + noff) as usize);
        }
        if matched {
            let foff: u64 = if is64 {
                util::read_u64(data, base + 24, le)
            } else {
                util::read_u32(data, base + 16, le) as u64
            };
            let fsize: u64 = if is64 {
                util::read_u64(data, base + 32, le)
            } else {
                util::read_u32(data, base + 20, le) as u64
            };
            return Some((foff, fsize));
        }
        i = i + 1;
    }
    None
}

/// Find the first section named `.gnu_debuglink`: its file offset and
/// stored size, straight from the raw bytes.
fn find_debuglink_raw(data: &[u8]) -> (r: Option<(u64, u64)>)
    ensures
        match r {
            Some(p) => elf_shdrs_ok(data@) && find_debuglink_section(data@, 0) == Some(
                (p.0 as int, p.1 as int),
            ),
            None => !elf_shdrs_ok(data@) || find_debuglink_section(data@, 0) is None,
        },
{
    let len: usize = data.len();
    let (shoff, ent, shnum, stroff, strsize) = match elf_table_geometry(data) {
        Some(g) => g,
        None => {
            return None;
        },
    };
    let le = *slice_index_get(data, 5) == 1;
    let is64 = *slice_index_get(data, 4) == 2;
    let mut i: u64 = 0;
    while i < shnum
        invariant
            len == data@.len(),
            elf_shdrs_ok(data@),
            shoff == elf_shoff(data@),
            ent == elf_shentsize(data@),
            shnum == elf_shnum(data@),
            stroff == elf_shdr_file_off(data@, elf_shstrndx(data@)),
            strsize == elf_shdr_file_size(data@, elf_shstrndx(data@)),
            le == (data@[5] == 1u8),
            is64 == (data@[4] == 2u8),
            i <= shnum,
            find_debuglink_section(data@, 0) == find_debuglink_section(data@, i as int),
        decreases shnum - i,
    {
        proof {
            assert((i + 1) * ent <= shnum * ent) by (nonlinear_arith)
                requires
                    i + 1 <= shnum,
                    0 <= ent,
            ;
            assert(i * ent + ent == (i + 1) * ent) by (nonlinear_arith);
        }
        let base: usize = (shoff + i * ent) as usize;
        let noff: u64 = util::read_u32(data, base, le) as u64;
        let mut matched = false;
        if noff + 15 <= strsize {
            matched = is_debuglink_name_exec(data, (stroff + noff) as usize);
        }
        if matched {
            let foff: u64 = if is64 {
                util::read_u64(data, base + 24, le)
            } else {
                util::read_u32(data, base + 16, le) as u64
            };
            let fsize: u64 = if is64 {
                util::read_u64(data, base + 32, le)
            } else {
                util::read_u32(data, base + 20, le) as u64
            };
            return Some((foff, fsize));
        }
        i = i + 1;
    }
    None
}

/// The zlib payload of a compressed ELF section: the bytes after the
/// 24-byte (64-bit) or 12-byte (32-bit) compression header whose type
/// field names ELFCOMPRESS_ZLIB (1).
pub open spec fn elf_compressed_payload(s: Seq<u8>, is_64: bool, le: bool) -> Option<Seq<u8>> {
    let ch_type = if le {
        u32_le_at(s, 0)
    } else {
        u32_be_at(s, 0)
    };
    if is_64 {
        if s.len() >= 24 && ch_type == 1 {
            Some(s.skip(24))
        } else {
            None
        }
    } else {
        if s.len() >= 12 && ch_type == 1 {
            Some(s.skip(12))
        } else {
            None
        }
    }
}

/// Undo the compression of an ELF `SHF_COMPRESSED` section: strip the
/// compression header and inflate the zlib stream. Anything malformed
/// yields `None`, and the raw bytes then stand in.
pub fn decompress_elf_section(data: &[u8], is_64: bool, little_endian: bool) -> (r: Option<
    Vec<u8>,
>)
    ensures
        match r {
            Some(v) => elf_compressed_payload(data@, is_64, little_endian) matches Some(p)
                && decode::inflated_of(p) == Some(v@),
            None => elf_compressed_payload(data@, is_64, little_endian) matches Some(p)
                ==> decode::inflated_of(p) is None,
        },
{
    let len: usize = data.len();
    let hdr: usize = if is_64 {
        24
    } else {
        12
    };
    if len < hdr {
        return None;
    }
    let ch_type = util::read_u32(data, 0, little_endian);
    if ch_type != 1 {
        return None;
    }
    let payload = slice_subrange(data, hdr, len);
    decode::inflate_zlib(payload)
}

/// A GNU build-ID note sits at `pos` of `s`: a note header whose type is
/// NT_GNU_BUILD_ID (3) and whose 4-byte name is `GNU\0`, followed by the
/// `desc` bytes the header counts.
pub open spec fn gnu_build_id_note_at(s: Seq<u8>, pos: int, le: bool, desc: Seq<u8>) -> bool {
    let namesz = if le { u32_le_at(s, pos) } else { u32_be_at(s, pos) };
    let descsz = if le { u32_le_at(s, pos + 4) } else { u32_be_at(s, pos + 4) };
    let ntype = if le { u32_le_at(s, pos + 8) } else { u32_be_at(s, pos + 8) };
    &&& 0 <= pos
    &&& pos + 16 <= s.len()
    &&& ntype == 3
    &&& namesz == 4
    &&& s[pos + 12] == 0x47u8
    &&& s[pos + 13] == 0x4eu8
    &&& s[pos + 14] == 0x55u8
    &&& s[pos + 15] == 0x00u8
    &&& pos + 16 + descsz <= s.len()
    &&& desc == s.subrange(pos + 16, pos + 16 + descsz)
}

/// The walk over the note records from `pos`: each note is a 12-byte
/// header, the name padded to four bytes, then the desc padded to four
/// bytes; a region that leaves the buffer ends the walk empty-handed, and
/// the first note of type NT_GNU_BUILD_ID named `GNU\0` yields its desc.
pub open spec fn build_id_scan(s: Seq<u8>, le: bool, pos: int, fuel: nat) -> Option<Seq<u8>>
    decreases fuel,
{
    if pos + 12 > s.len() || fuel == 0 {
        None
    } else {
        let namesz = if le { u32_le_at(s, pos) } else { u32_be_at(s, pos) };
        let descsz = if le { u32_le_at(s, pos + 4) } else { u32_be_at(s, pos + 4) };
        let ntype = if le { u32_le_at(s, pos + 8) } else { u32_be_at(s, pos + 8) };
        if namesz > s.len() - pos - 12 {
            None
        } else {
            let name_end = pos + 12 + namesz;
            let name_pad = pad4(name_end);
            if name_pad > s.len() - name_end {
                None
            } else {
                let desc_start = name_end + name_pad;
                if descsz > s.len() - desc_start {
                    None
                } else {
                    let desc_end = desc_start + descsz;
                    if ntype == 3 && namesz == 4 && s[pos + 12] == 0x47u8 && s[pos + 13] == 0x4eu8
                        && s[pos + 14] == 0x55u8 && s[pos + 15] == 0x00u8 {
                        Some(s.subrange(desc_start, desc_end))
                    } else {
                        let desc_pad = pad4(desc_end);
                        if desc_pad > s.len() - desc_end {
                            None
                        } else {
                            build_id_scan(s, le, desc_end + desc_pad, (fuel - 1) as nat)
                        }
                    }
                }
            }
        }
    }
}

/// Scan the note records of a `.note.gnu.build-id` section for the GNU
/// build-ID note and return its payload: exactly what the walk from the
/// start of the section yields.
#[verifier::rlimit(100)]
#[verifier::spinoff_prover]
pub fn parse_build_id(data: &[u8], little_endian: bool) -> (r: Option<Vec<u8>>)
    ensures
        r matches Some(v) ==> exists|pos: int|
            gnu_build_id_note_at(data@, pos, little_endian, v@),
        ({
            let scan = build_id_scan(data@, little_endian, 0, (data@.len() + 12) as nat);
            match r {
                Some(v) => scan == Some(v@),
                None => scan is None,
            }
        }),
{
    let len: usize = data.len();
    if len < 12 {
        return None;
    }
    let mut pos: usize = 0;
    let ghost mut fuel: nat = (len + 12) as nat;
    while pos <= len - 12
        invariant
            len == data@.len(),
            12 <= len,
            pos <= len,
            pos % 4 == 0,
            fuel >= len - pos + 12,
            build_id_scan(data@, little_endian, 0, (len + 12) as nat) == build_id_scan(
                data@,
                little_endian,
                pos as int,
                fuel,
            ),
        decreases len - pos,
    {
        let namesz = util::read_u32(data, pos, little_endian);
        let descsz = util::read_u32(data, pos + 4, little_endian);
        let ntype = util::read_u32(data, pos + 8, little_endian);
        // the name and desc regions, as lengths left after the header
        let after_header: usize = len - pos - 12;
        if namesz as u64 > after_header as u64 {
            proof {
                assert(build_id_scan(data@, little_endian, pos as int, fuel) is None);
            }
            return None;
        }
        let name_end: usize = pos + 12 + namesz as usize;
        let name_pad: usize = pad4_exec(name_end);
        if name_pad > len - name_end {
            proof {
                assert(build_id_scan(data@, little_endian, pos as int, fuel) is None);
            }
            return None;
        }
        let desc_start: usize = name_end + name_pad;
        if descsz as u64 > (len - desc_start) as u64 {
            proof {
                assert(build_id_scan(data@, little_endian, pos as int, fuel) is None);
            }
            return None;
        }
        let desc_end: usize = desc_start + descsz as usize;
        if ntype == 3 && namesz == 4 {
            let b0 = *slice_index_get(data, pos + 12);
            let b1 = *slice_index_get(data, pos + 13);
            let b2 = *slice_index_get(data, pos + 14);
            let b3 = *slice_index_get(data, pos + 15);
            if b0 == 0x47 && b1 == 0x4e && b2 == 0x55 && b3 == 0x00 {
                let desc = slice_subrange(data, desc_start, desc_end);
                let v = slice_to_vec(desc);
                let result = Some(v);
                proof {
                    assert(build_id_scan(data@, little_endian, pos as int, fuel) == Some(
                        data@.subrange(desc_start as int, desc_end as int),
                    ));
                    assert(desc_start == pos + 16);
                    assert(result matches Some(v2) ==> exists|p: int|
                        gnu_build_id_note_at(data@, p, little_endian, v2@)) by {
                        assert(gnu_build_id_note_at(
                            data@,
                            pos as int,
                            little_endian,
                            result->0@,
                        ));
                    }
                }
                return result;
            }
        }
        let desc_pad: usize = pad4_exec(desc_end);
        if desc_pad > len - desc_end {
            proof {
                assert(build_id_scan(data@, little_endian, pos as int, fuel) is None);
            }
            return None;
        }
        proof {
            assert(build_id_scan(data@, little_endian, pos as int, fuel) == build_id_scan(
                data@,
                little_endian,
                desc_end + desc_pad,
                (fuel - 1) as nat,
            ));
        }
        pos = desc_end + desc_pad;
        proof {
            fuel = (fuel - 1) as nat;
        }
    }
    None
}

/// The distance from `x` up to the next multiple of four.
fn pad4_exec(x: usize) -> (r: usize)
    ensures
        r == pad4(x as int),
{
    if x % 4 == 0 {
        0
    } else {
        4 - x % 4
    }
}

/// What a `.gnu_debuglink` section holds: the file name up to the first
/// NUL byte, then, aligned to four bytes, a little-endian CRC-32.
pub open spec fn debuglink_at(s: Seq<u8>, i: int, name: Seq<u8>, crc: int) -> bool {
    &&& 0 <= i < s.len()
    &&& s[i] == 0u8
    &&& forall|j: int| 0 <= j < i ==> s[j] != 0u8
    &&& name == s.take(i)
    &&& i + 1 + pad4(i + 1) + 4 <= s.len()
    &&& crc == u32_le_at(s, i + 1 + pad4(i + 1))
}

/// Parse a `.gnu_debuglink` section: the NUL-terminated file name, then
/// the CRC-32 of the debug file, aligned to four bytes.
pub fn parse_gnu_debuglink(data: &[u8]) -> (r: Option<(Vec<u8>, u32)>)
    ensures
        debuglink_matches(data@, r),
{
    let len: usize = data.len();
    let mut i: usize = 0;
    while i < len && *slice_index_get(data, i) != 0
        invariant
            len == data@.len(),
            i <= len,
            forall|j: int| 0 <= j < i ==> data@[j] != 0u8,
        decreases len - i,
    {
        i = i + 1;
    }
    if i >= len {
        return None;
    }
    // the pad after the NUL, computed without forming i + 1 first
    let m: usize = i % 4;
    let pad: usize = if m == 3 {
        0
    } else {
        3 - m
    };
    proof {
        assert(pad == pad4(i + 1));
    }
    let remaining: usize = len - i - 1;
    if remaining < 4 || pad > remaining - 4 {
        proof {
            assert forall|i2: int|
                0 <= i2 < data@.len() && data@[i2] == 0u8 && (forall|j: int|
                    0 <= j < i2 ==> data@[j] != 0u8) implies i2 + 1 + pad4(i2 + 1) + 4
                > data@.len() by {
                assert(i2 == i as int);
            }
        }
        return None;
    }
    let crc_off: usize = i + 1 + pad;
    let crc = util::read_u32_le(data, crc_off);
    let name = slice_to_vec(slice_subrange(data, 0, i));
    let result = Some((name, crc));
    proof {
        assert(result matches Some(p) ==> exists|i2: int|
            debuglink_at(data@, i2, p.0@, p.1 as int)) by {
            assert((result->0).0@ == data@.take(i as int));
            assert(debuglink_at(data@, i as int, (result->0).0@, (result->0).1 as int));
        }
    }
    result
}

impl ElfFile {
    /// Parse an ELF image. On success the bitness reflects the class byte
    /// at offset 4 and the byte order the data-encoding byte at offset 5.
    #[verifier::rlimit(100)]
    #[verifier::spinoff_prover]
    pub fn parse(data: &[u8]) -> (r: Result<ElfFile, String>)
        ensures
            r is Ok <==> decode::elf_parseable(data@),
            r matches Ok(f) ==> {
                &&& data@.len() >= 52
                &&& f.is_64 == (data@[4] == 2u8)
                &&& !f.is_64 ==> data@[4] == 1u8
                &&& f.little_endian == (data@[5] == 1u8)
                &&& data@[5] == 1u8 || data@[5] == 2u8
                &&& f.is_64 ==> data@.len() >= 64
                &&& f.machine == classify::spec_elf_machine(elf_header_machine(data@) as u16)
                &&& !f.is_64 ==> f.entry == elf_header_entry(data@)
                &&& f.is_64 && elf_header_entry(data@) <= usize::MAX ==> f.entry
                    == elf_header_entry(data@)
                &&& match f.build_id {
                    Some(v) => elf_build_id_of(data@) == Some(v@),
                    None => elf_build_id_of(data@) is None,
                }
                &&& match elf_debuglink_section_of(data@) {
                    Some(sec) => debuglink_matches(sec, f.debuglink),
                    None => f.debuglink is None,
                }
            },
    {
        let (elf, hdr) = match decode::elf_parse(data) {
            Ok(p) => p,
            Err(e) => {
                return Err(e);
            },
        };
        let machine = classify::elf_machine(hdr.e_machine);

        let mut raws: Vec<decode::RawElfSection> = Vec::new();
        let shnum = decode::elf_section_count(&elf);
        for i in 0..shnum {
            match decode::elf_section(&elf, i) {
                Some(rs) => raws.push(rs),
                // a header the decoder cannot hand over keeps its slot, so
                // that a record's position stays its header index
                None => raws.push(
                    decode::RawElfSection {
                        name: None,
                        sh_type: 0,
                        sh_flags: 0,
                        sh_addr: 0,
                        sh_offset: 0,
                        sh_size: 0,
                        sh_addralign: 0,
                        sh_info: 0,
                    },
                ),
            }
        }

        let mut groups: Vec<(usize, Vec<decode::RawElfReloc>)> = Vec::new();
        let ngroups = decode::elf_reloc_group_count(&elf);
        for k in 0..ngroups {
            match decode::elf_reloc_group(&elf, k) {
                Some(g) => groups.push(g),
                None => (),
            }
        }

        let mut sections: Vec<SectionRecord> = Vec::new();
        let mut has_debug = false;
        let nsec = raws.len();
        for i in 0..nsec
            invariant
                nsec == raws@.len(),
        {
            let rs = &raws[i];
            let bytes: Vec<u8> = if rs.sh_type == classify::SHT_NOBITS {
                Vec::new()
            } else {
                util::copy_window(data, rs.sh_offset, rs.sh_size)
            };
            let uncompressed: Option<Vec<u8>> = if rs.sh_flags & classify::SHF_COMPRESSED != 0 {
                decompress_elf_section(bytes.as_slice(), hdr.is_64, hdr.little_endian)
            } else {
                None
            };
            let mut relocs: Vec<(u64, Relocation)> = Vec::new();
            let ng = groups.len();
            for k in 0..ng
                invariant
                    nsec == raws@.len(),
                    ng == groups@.len(),
                    i < nsec,
            {
                let gidx = groups[k].0;
                if gidx < nsec && raws[gidx].sh_info as usize == i {
                    let nr = groups[k].1.len();
                    for e in 0..nr
                        invariant
                            ng == groups@.len(),
                            k < ng,
                            nr == groups@[k as int].1@.len(),
                    {
                        let rel = &groups[k].1[e];
                        let (kind, size) = classify::elf_relocation_kind(machine, rel.r_type);
                        let (addend, implicit) = match rel.r_addend {
                            Some(a) => (a, false),
                            None => (0i64, true),
                        };
                        relocs.push(
                            (
                                rel.r_offset,
                                Relocation {
                                    kind,
                                    size,
                                    symbol: crate::model::SymbolIndex(rel.r_sym),
                                    addend,
                                    implicit_addend: implicit,
                                },
                            ),
                        );
                    }
                }
            }
            let name: Option<String> = match &rs.name {
                Some(n) => {
                    if util::str_has_prefix(n.as_str(), ".debug_") {
                        has_debug = true;
                    }
                    Some(n.clone())
                },
                None => None,
            };
            sections.push(
                SectionRecord {
                    index: i,
                    name,
                    segment_name: None,
                    address: rs.sh_addr,
                    size: rs.sh_size,
                    align: rs.sh_addralign,
                    kind: classify::elf_section_kind(rs.sh_type, rs.sh_flags),
                    data: bytes,
                    uncompressed,
                    relocs,
                },
            );
        }

        let mut segments: Vec<SegmentRecord> = Vec::new();
        let phnum = decode::elf_phdr_count(&elf);
        for i in 0..phnum {
            match decode::elf_phdr(&elf, i) {
                Some(ph) => {
                    if ph.p_type == PT_LOAD {
                        segments.push(
                            SegmentRecord {
                                name: None,
                                address: ph.p_vaddr,
                                size: ph.p_memsz,
                                align: ph.p_align,
                                data: util::copy_window(data, ph.p_offset, ph.p_filesz),
                            },
                        );
                    }
                },
                None => (),
            }
        }

        let mut symbols: Vec<Symbol> = Vec::new();
        let nsym = decode::elf_sym_count(&elf);
        for i in 0..nsym {
            match decode::elf_sym(&elf, i) {
                Some(rs) => symbols.push(elf_symbol_from_raw(rs)),
                None => (),
            }
        }

        let mut dynamic_symbols: Vec<Symbol> = Vec::new();
        let ndyn = decode::elf_dynsym_count(&elf);
        for i in 0..ndyn {
            match decode::elf_dynsym(&elf, i) {
                Some(rs) => dynamic_symbols.push(elf_symbol_from_raw(rs)),
                None => (),
            }
        }

        let dlen: usize = data.len();
        let build_id = match find_build_id_raw(data) {
            Some((off, size)) => {
                if off <= dlen as u64 && size <= dlen as u64 - off {
                    let sec = slice_subrange(data, off as usize, (off + size) as usize);
                    parse_build_id(sec, hdr.little_endian)
                } else {
                    None
                }
            },
            None => None,
        };
        let debuglink = match find_debuglink_raw(data) {
            Some((off, size)) => {
                if off <= dlen as u64 && size <= dlen as u64 - off {
                    let sec = slice_subrange(data, off as usize, (off + size) as usize);
                    let r = parse_gnu_debuglink(sec);
                    proof {
                        assert(elf_debuglink_section_of(data@) == Some(sec@));
                        assert(debuglink_matches(sec@, r));
                    }
                    r
                } else {
                    None
                }
            },
            None => None,
        };
        proof {
            assert(match build_id {
                Some(v) => elf_build_id_of(data@) == Some(v@),
                None => elf_build_id_of(data@) is None,
            });
            assert(match elf_debuglink_section_of(data@) {
                Some(sec) => debuglink_matches(sec, debuglink),
                None => debuglink is None,
            });
        }

        Ok(
            ElfFile {
                is_64: hdr.is_64,
                little_endian: hdr.little_endian,
                machine,
                entry: hdr.e_entry,
                sections,
                segments,
                symbols,
                dynamic_symbols,
                build_id,
                debuglink,
                has_debug,
            },
        )
    }
}

} // verus!
