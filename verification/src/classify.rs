//! Classification of backend header fields into the format-independent
//! taxonomy: machine types, section kinds, symbol kinds and relocation
//! kinds.

use vstd::prelude::*;

use crate::model::Machine;
use crate::model::RelocationKind;
use crate::model::SectionKind;
use crate::model::SymbolKind;

verus! {

pub const SHT_NULL: u32 = 0;
pub const SHT_PROGBITS: u32 = 1;
pub const SHT_SYMTAB: u32 = 2;
pub const SHT_STRTAB: u32 = 3;
pub const SHT_RELA: u32 = 4;
pub const SHT_HASH: u32 = 5;
pub const SHT_DYNAMIC: u32 = 6;
pub const SHT_NOTE: u32 = 7;
pub const SHT_NOBITS: u32 = 8;
pub const SHT_REL: u32 = 9;
pub const SHT_DYNSYM: u32 = 11;

pub const SHF_WRITE: u64 = 0x1;
pub const SHF_ALLOC: u64 = 0x2;
pub const SHF_EXECINSTR: u64 = 0x4;
pub const SHF_STRINGS: u64 = 0x20;
pub const SHF_TLS: u64 = 0x400;
pub const SHF_COMPRESSED: u64 = 0x800;

/// The section kind an ELF section header with the given `sh_type` and
/// `sh_flags` stands for.
pub open spec fn spec_elf_section_kind(sh_type: u32, sh_flags: u64) -> SectionKind {
    if sh_type == SHT_PROGBITS {
        if sh_flags & SHF_EXECINSTR != 0 {
            SectionKind::Text
        } else if sh_flags & SHF_TLS != 0 {
            SectionKind::Tls
        } else if sh_flags & SHF_WRITE != 0 {
            SectionKind::Data
        } else if sh_flags & SHF_ALLOC != 0 {
            if sh_flags & SHF_STRINGS != 0 {
                SectionKind::ReadOnlyString
            } else {
                SectionKind::ReadOnlyData
            }
        } else if sh_flags & SHF_STRINGS != 0 {
            SectionKind::OtherString
        } else {
            SectionKind::Other
        }
    } else if sh_type == SHT_NOBITS {
        if sh_flags & SHF_TLS != 0 {
            SectionKind::UninitializedTls
        } else {
            SectionKind::UninitializedData
        }
    } else if sh_type == SHT_SYMTAB || sh_type == SHT_STRTAB || sh_type == SHT_RELA || sh_type
        == SHT_REL || sh_type == SHT_HASH || sh_type == SHT_DYNAMIC || sh_type == SHT_DYNSYM {
        SectionKind::Metadata
    } else if sh_type == SHT_NOTE {
        SectionKind::Other
    } else {
        SectionKind::Unknown
    }
}

/// Classify an ELF section header.
pub fn elf_section_kind(sh_type: u32, sh_flags: u64) -> (r: SectionKind)
    ensures
        r == spec_elf_section_kind(sh_type, sh_flags),
{
    if sh_type == SHT_PROGBITS {
        if sh_flags & SHF_EXECINSTR != 0 {
            SectionKind::Text
        } else if sh_flags & SHF_TLS != 0 {
            SectionKind::Tls
        } else if sh_flags & SHF_WRITE != 0 {
            SectionKind::Data
        } else if sh_flags & SHF_ALLOC != 0 {
            if sh_flags & SHF_STRINGS != 0 {
                SectionKind::ReadOnlyString
            } else {
                SectionKind::ReadOnlyData
            }
        } else if sh_flags & SHF_STRINGS != 0 {
            SectionKind::OtherString
        } else {
            SectionKind::Other
        }
    } else if sh_type == SHT_NOBITS {
        if sh_flags & SHF_TLS != 0 {
            SectionKind::UninitializedTls
        } else {
            SectionKind::UninitializedData
        }
    } else if sh_type == SHT_SYMTAB || sh_type == SHT_STRTAB || sh_type == SHT_RELA || sh_type
        == SHT_REL || sh_type == SHT_HASH || sh_type == SHT_DYNAMIC || sh_type == SHT_DYNSYM {
        SectionKind::Metadata
    } else if sh_type == SHT_NOTE {
        SectionKind::Other
    } else {
        SectionKind::Unknown
    }
}

pub const EM_386: u16 = 3;
pub const EM_MIPS: u16 = 8;
pub const EM_MIPS_RS3_LE: u16 = 10;
pub const EM_ARM: u16 = 40;
pub const EM_X86_64: u16 = 62;
pub const EM_AARCH64: u16 = 183;

/// The machine an ELF `e_machine` field stands for.
pub open spec fn spec_elf_machine(e_machine: u16) -> Machine {
    if e_machine == EM_386 {
        Machine::X86
    } else if e_machine == EM_X86_64 {
        Machine::X86_64
    } else if e_machine == EM_ARM {
        Machine::Arm
    } else if e_machine == EM_AARCH64 {
        Machine::Arm64
    } else if e_machine == EM_MIPS || e_machine == EM_MIPS_RS3_LE {
        Machine::Mips
    } else {
        Machine::Other
    }
}

/// Classify an ELF `e_machine` field.
pub fn elf_machine(e_machine: u16) -> (r: Machine)
    ensures
        r == spec_elf_machine(e_machine),
{
    if e_machine == EM_386 {
        Machine::X86
    } else if e_machine == EM_X86_64 {
        Machine::X86_64
    } else if e_machine == EM_ARM {
        Machine::Arm
    } else if e_machine == EM_AARCH64 {
        Machine::Arm64
    } else if e_machine == EM_MIPS || e_machine == EM_MIPS_RS3_LE {
        Machine::Mips
    } else {
        Machine::Other
    }
}

pub const STT_NOTYPE: u8 = 0;
pub const STT_OBJECT: u8 = 1;
pub const STT_FUNC: u8 = 2;
pub const STT_SECTION: u8 = 3;
pub const STT_FILE: u8 = 4;
pub const STT_COMMON: u8 = 5;
pub const STT_TLS: u8 = 6;

pub const STB_GLOBAL: u8 = 1;
pub const STB_WEAK: u8 = 2;

/// The symbol kind an ELF `st_info` type nibble stands for.
pub open spec fn spec_elf_symbol_kind(st_type: u8) -> SymbolKind {
    if st_type == STT_NOTYPE {
        SymbolKind::Unknown
    } else if st_type == STT_OBJECT {
        SymbolKind::Data
    } else if st_type == STT_FUNC {
        SymbolKind::Text
    } else if st_type == STT_SECTION {
        SymbolKind::Section
    } else if st_type == STT_FILE {
        SymbolKind::File
    } else if st_type == STT_COMMON {
        SymbolKind::Common
    } else if st_type == STT_TLS {
        SymbolKind::Tls
    } else {
        SymbolKind::Unknown
    }
}

/// Classify the type nibble of an ELF `st_info` field.
pub fn elf_symbol_kind(st_type: u8) -> (r: SymbolKind)
    ensures
        r == spec_elf_symbol_kind(st_type),
{
    if st_type == STT_NOTYPE {
        SymbolKind::Unknown
    } else if st_type == STT_OBJECT {
        SymbolKind::Data
    } else if st_type == STT_FUNC {
        SymbolKind::Text
    } else if st_type == STT_SECTION {
        SymbolKind::Section
    } else if st_type == STT_FILE {
        SymbolKind::File
    } else if st_type == STT_COMMON {
        SymbolKind::Common
    } else if st_type == STT_TLS {
        SymbolKind::Tls
    } else {
        SymbolKind::Unknown
    }
}

pub const R_X86_64_64: u32 = 1;
pub const R_X86_64_PC32: u32 = 2;
pub const R_X86_64_GOT32: u32 = 3;
pub const R_X86_64_PLT32: u32 = 4;
pub const R_X86_64_GOTPCREL: u32 = 9;
pub const R_X86_64_32: u32 = 10;
pub const R_X86_64_32S: u32 = 11;
pub const R_X86_64_PC64: u32 = 24;

pub const R_386_32: u32 = 1;
pub const R_386_PC32: u32 = 2;
pub const R_386_GOT32: u32 = 3;
pub const R_386_PLT32: u32 = 4;

pub const R_ARM_ABS32: u32 = 2;

pub const R_AARCH64_ABS64: u32 = 257;
pub const R_AARCH64_ABS32: u32 = 258;

/// The relocation kind and width (in bits) an ELF relocation type stands
/// for, on the given machine. Unrecognized types keep their raw code with
/// width zero.
pub open spec fn spec_elf_relocation_kind(machine: Machine, r_type: u32) -> (RelocationKind, u8) {
    if machine == Machine::X86_64 {
        if r_type == R_X86_64_64 {
            (RelocationKind::Absolute, 64)
        } else if r_type == R_X86_64_PC32 {
            (RelocationKind::Relative, 32)
        } else if r_type == R_X86_64_GOT32 {
            (RelocationKind::GotOffset, 32)
        } else if r_type == R_X86_64_PLT32 {
            (RelocationKind::PltRelative, 32)
        } else if r_type == R_X86_64_GOTPCREL {
            (RelocationKind::GotRelative, 32)
        } else if r_type == R_X86_64_32 {
            (RelocationKind::Absolute, 32)
        } else if r_type == R_X86_64_32S {
            (RelocationKind::AbsoluteSigned, 32)
        } else if r_type == R_X86_64_PC64 {
            (RelocationKind::Relative, 64)
        } else {
            (RelocationKind::Other(r_type), 0)
        }
    } else if machine == Machine::X86 {
        if r_type == R_386_32 {
            (RelocationKind::Absolute, 32)
        } else if r_type == R_386_PC32 {
            (RelocationKind::Relative, 32)
        } else if r_type == R_386_GOT32 {
            (RelocationKind::GotOffset, 32)
        } else if r_type == R_386_PLT32 {
            (RelocationKind::PltRelative, 32)
        } else {
            (RelocationKind::Other(r_type), 0)
        }
    } else if machine == Machine::Arm {
        if r_type == R_ARM_ABS32 {
            (RelocationKind::Absolute, 32)
        } else {
            (RelocationKind::Other(r_type), 0)
        }
    } else if machine == Machine::Arm64 {
        if r_type == R_AARCH64_ABS64 {
            (RelocationKind::Absolute, 64)
        } else if r_type == R_AARCH64_ABS32 {
            (RelocationKind::Absolute, 32)
        } else {
            (RelocationKind::Other(r_type), 0)
        }
    } else {
        (RelocationKind::Other(r_type), 0)
    }
}

/// Classify an ELF relocation type on the given machine.
pub fn elf_relocation_kind(machine: Machine, r_type: u32) -> (r: (RelocationKind, u8))
    ensures
        r == spec_elf_relocation_kind(machine, r_type),
{
    if machine == Machine::X86_64 {
        if r_type == R_X86_64_64 {
            (RelocationKind::Absolute, 64)
        } else if r_type == R_X86_64_PC32 {
            (RelocationKind::Relative, 32)
        } else if r_type == R_X86_64_GOT32 {
            (RelocationKind::GotOffset, 32)
        } else if r_type == R_X86_64_PLT32 {
            (RelocationKind::PltRelative, 32)
        } else if r_type == R_X86_64_GOTPCREL {
            (RelocationKind::GotRelative, 32)
        } else if r_type == R_X86_64_32 {
            (RelocationKind::Absolute, 32)
        } else if r_type == R_X86_64_32S {
            (RelocationKind::AbsoluteSigned, 32)
        } else if r_type == R_X86_64_PC64 {
            (RelocationKind::Relative, 64)
        } else {
            (RelocationKind::Other(r_type), 0)
        }
    } else if machine == Machine::X86 {
        if r_type == R_386_32 {
            (RelocationKind::Absolute, 32)
        } else if r_type == R_386_PC32 {
            (RelocationKind::Relative, 32)
        } else if r_type == R_386_GOT32 {
            (RelocationKind::GotOffset, 32)
        } else if r_type == R_386_PLT32 {
            (RelocationKind::PltRelative, 32)
        } else {
            (RelocationKind::Other(r_type), 0)
        }
    } else if machine == Machine::Arm {
        if r_type == R_ARM_ABS32 {
            (RelocationKind::Absolute, 32)
        } else {
            (RelocationKind::Other(r_type), 0)
        }
    } else if machine == Machine::Arm64 {
        if r_type == R_AARCH64_ABS64 {
            (RelocationKind::Absolute, 64)
        } else if r_type == R_AARCH64_ABS32 {
            (RelocationKind::Absolute, 32)
        } else {
            (RelocationKind::Other(r_type), 0)
        }
    } else {
        (RelocationKind::Other(r_type), 0)
    }
}

pub const CPU_TYPE_X86: u32 = 7;
pub const CPU_TYPE_X86_64: u32 = 0x01000007;
pub const CPU_TYPE_ARM: u32 = 12;
pub const CPU_TYPE_ARM64: u32 = 0x0100000c;

/// The machine a Mach-O `cputype` field stands for.
pub open spec fn spec_macho_machine(cputype: u32) -> Machine {
    if cputype == CPU_TYPE_X86 {
        Machine::X86
    } else if cputype == CPU_TYPE_X86_64 {
        Machine::X86_64
    } else if cputype == CPU_TYPE_ARM {
        Machine::Arm
    } else if cputype == CPU_TYPE_ARM64 {
        Machine::Arm64
    } else {
        Machine::Other
    }
}

/// Classify a Mach-O `cputype` field.
pub fn macho_machine(cputype: u32) -> (r: Machine)
    ensures
        r == spec_macho_machine(cputype),
{
    if cputype == CPU_TYPE_X86 {
        Machine::X86
    } else if cputype == CPU_TYPE_X86_64 {
        Machine::X86_64
    } else if cputype == CPU_TYPE_ARM {
        Machine::Arm
    } else if cputype == CPU_TYPE_ARM64 {
        Machine::Arm64
    } else {
        Machine::Other
    }
}

pub const SECTION_TYPE_MASK: u32 = 0xff;
pub const S_REGULAR: u32 = 0x0;
pub const S_ZEROFILL: u32 = 0x1;
pub const S_CSTRING_LITERALS: u32 = 0x2;
pub const S_GB_ZEROFILL: u32 = 0xb;
pub const S_THREAD_LOCAL_REGULAR: u32 = 0x11;
pub const S_THREAD_LOCAL_ZEROFILL: u32 = 0x12;
pub const S_ATTR_PURE_INSTRUCTIONS: u32 = 0x80000000;
pub const S_ATTR_SOME_INSTRUCTIONS: u32 = 0x00000400;

/// The section kind a Mach-O section with the given `flags` stands for,
/// given whether it sits in a `__TEXT`, `__DATA` or `__DWARF` segment.
pub open spec fn spec_macho_section_kind(
    flags: u32,
    in_text: bool,
    in_data: bool,
    in_dwarf: bool,
) -> SectionKind {
    if flags & (S_ATTR_PURE_INSTRUCTIONS | S_ATTR_SOME_INSTRUCTIONS) != 0 {
        SectionKind::Text
    } else if flags & SECTION_TYPE_MASK == S_ZEROFILL || flags & SECTION_TYPE_MASK
        == S_GB_ZEROFILL {
        SectionKind::UninitializedData
    } else if flags & SECTION_TYPE_MASK == S_CSTRING_LITERALS {
        SectionKind::ReadOnlyString
    } else if flags & SECTION_TYPE_MASK == S_THREAD_LOCAL_REGULAR {
        SectionKind::Tls
    } else if flags & SECTION_TYPE_MASK == S_THREAD_LOCAL_ZEROFILL {
        SectionKind::UninitializedTls
    } else if in_text {
        SectionKind::ReadOnlyData
    } else if in_data {
        SectionKind::Data
    } else if in_dwarf {
        SectionKind::Other
    } else {
        SectionKind::Unknown
    }
}

/// Classify a Mach-O section.
pub fn macho_section_kind(flags: u32, in_text: bool, in_data: bool, in_dwarf: bool) -> (r:
    SectionKind)
    ensures
        r == spec_macho_section_kind(flags, in_text, in_data, in_dwarf),
{
    if flags & (S_ATTR_PURE_INSTRUCTIONS | S_ATTR_SOME_INSTRUCTIONS) != 0 {
        SectionKind::Text
    } else if flags & SECTION_TYPE_MASK == S_ZEROFILL || flags & SECTION_TYPE_MASK
        == S_GB_ZEROFILL {
        SectionKind::UninitializedData
    } else if flags & SECTION_TYPE_MASK == S_CSTRING_LITERALS {
        SectionKind::ReadOnlyString
    } else if flags & SECTION_TYPE_MASK == S_THREAD_LOCAL_REGULAR {
        SectionKind::Tls
    } else if flags & SECTION_TYPE_MASK == S_THREAD_LOCAL_ZEROFILL {
        SectionKind::UninitializedTls
    } else if in_text {
        SectionKind::ReadOnlyData
    } else if in_data {
        SectionKind::Data
    } else if in_dwarf {
        SectionKind::Other
    } else {
        SectionKind::Unknown
    }
}

pub const N_STAB_MASK: u8 = 0xe0;
pub const N_TYPE_MASK: u8 = 0x0e;
pub const N_UNDF: u8 = 0x0;
pub const N_SECT: u8 = 0xe;
pub const N_EXT: u8 = 0x01;

/// The symbol kind a Mach-O symbol gets from the kind of the section it
/// sits in.
pub open spec fn spec_macho_symbol_kind(section_kind: SectionKind) -> SymbolKind {
    if section_kind == SectionKind::Text {
        SymbolKind::Text
    } else if section_kind == SectionKind::Data || section_kind == SectionKind::ReadOnlyData
        || section_kind == SectionKind::ReadOnlyString || section_kind
        == SectionKind::UninitializedData {
        SymbolKind::Data
    } else if section_kind == SectionKind::Tls || section_kind == SectionKind::UninitializedTls {
        SymbolKind::Tls
    } else {
        SymbolKind::Unknown
    }
}

/// Derive a Mach-O symbol's kind from its section's kind.
pub fn macho_symbol_kind(section_kind: SectionKind) -> (r: SymbolKind)
    ensures
        r == spec_macho_symbol_kind(section_kind),
{
    if section_kind == SectionKind::Text {
        SymbolKind::Text
    } else if section_kind == SectionKind::Data || section_kind == SectionKind::ReadOnlyData
        || section_kind == SectionKind::ReadOnlyString || section_kind
        == SectionKind::UninitializedData {
        SymbolKind::Data
    } else if section_kind == SectionKind::Tls || section_kind == SectionKind::UninitializedTls {
        SymbolKind::Tls
    } else {
        SymbolKind::Unknown
    }
}

pub const IMAGE_SCN_CNT_CODE: u32 = 0x00000020;
pub const IMAGE_SCN_CNT_INITIALIZED_DATA: u32 = 0x00000040;
pub const IMAGE_SCN_CNT_UNINITIALIZED_DATA: u32 = 0x00000080;
pub const IMAGE_SCN_MEM_EXECUTE: u32 = 0x20000000;
pub const IMAGE_SCN_MEM_WRITE: u32 = 0x80000000;

/// The section kind a PE section with the given `characteristics` stands
/// for.
pub open spec fn spec_pe_section_kind(characteristics: u32) -> SectionKind {
    if characteristics & (IMAGE_SCN_CNT_CODE | IMAGE_SCN_MEM_EXECUTE) != 0 {
        SectionKind::Text
    } else if characteristics & IMAGE_SCN_CNT_UNINITIALIZED_DATA != 0 {
        SectionKind::UninitializedData
    } else if characteristics & IMAGE_SCN_CNT_INITIALIZED_DATA != 0 {
        if characteristics & IMAGE_SCN_MEM_WRITE != 0 {
            SectionKind::Data
        } else {
            SectionKind::ReadOnlyData
        }
    } else {
        SectionKind::Unknown
    }
}

/// Classify a PE section's characteristics.
pub fn pe_section_kind(characteristics: u32) -> (r: SectionKind)
    ensures
        r == spec_pe_section_kind(characteristics),
{
    if characteristics & (IMAGE_SCN_CNT_CODE | IMAGE_SCN_MEM_EXECUTE) != 0 {
        SectionKind::Text
    } else if characteristics & IMAGE_SCN_CNT_UNINITIALIZED_DATA != 0 {
        SectionKind::UninitializedData
    } else if characteristics & IMAGE_SCN_CNT_INITIALIZED_DATA != 0 {
        if characteristics & IMAGE_SCN_MEM_WRITE != 0 {
            SectionKind::Data
        } else {
            SectionKind::ReadOnlyData
        }
    } else {
        SectionKind::Unknown
    }
}

pub const COFF_MACHINE_X86: u16 = 0x14c;
pub const COFF_MACHINE_X86_64: u16 = 0x8664;
pub const COFF_MACHINE_ARM: u16 = 0x1c0;
pub const COFF_MACHINE_ARMNT: u16 = 0x1c4;
pub const COFF_MACHINE_ARM64: u16 = 0xaa64;

/// The machine a COFF header `machine` field stands for.
pub open spec fn spec_pe_machine(machine: u16) -> Machine {
    if machine == COFF_MACHINE_X86 {
        Machine::X86
    } else if machine == COFF_MACHINE_X86_64 {
        Machine::X86_64
    } else if machine == COFF_MACHINE_ARM || machine == COFF_MACHINE_ARMNT {
        Machine::Arm
    } else if machine == COFF_MACHINE_ARM64 {
        Machine::Arm64
    } else {
        Machine::Other
    }
}

/// Classify a COFF header `machine` field.
pub fn pe_machine(machine: u16) -> (r: Machine)
    ensures
        r == spec_pe_machine(machine),
{
    if machine == COFF_MACHINE_X86 {
        Machine::X86
    } else if machine == COFF_MACHINE_X86_64 {
        Machine::X86_64
    } else if machine == COFF_MACHINE_ARM || machine == COFF_MACHINE_ARMNT {
        Machine::Arm
    } else if machine == COFF_MACHINE_ARM64 {
        Machine::Arm64
    } else {
        Machine::Other
    }
}

} // verus!
