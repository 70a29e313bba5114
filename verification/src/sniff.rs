//! Recognition of file magic: what the first 16 bytes of a buffer say
//! about the container format.

use vstd::prelude::*;

verus! {

/// What a 16-byte prefix was classified as.
pub enum MagicHint {
    /// ELF magic; the data-encoding byte and the class byte follow it.
    Elf { is_lsb: bool, is_64: Option<bool> },
    /// A thin Mach-O magic, of either endianness and bitness.
    Mach { is_lsb: bool, is_64: Option<bool> },
    /// A fat (multi-architecture) Mach-O magic.
    MachFat,
    /// The DOS magic that opens a PE image.
    Pe,
    /// The TE magic.
    Te,
    /// A bare COFF machine field.
    Coff,
    /// A Unix archive magic.
    Archive,
    /// None of the known magics.
    Unknown,
    /// The classifier failed.
    Error,
}

/// The WebAssembly preamble magic `\0asm`.
pub open spec fn is_wasm_magic(s: Seq<u8>) -> bool {
    s.len() >= 4 && s[0] == 0x00u8 && s[1] == 0x61u8 && s[2] == 0x73u8 && s[3] == 0x6du8
}

/// The ELF magic `\x7fELF`.
pub open spec fn is_elf_magic(s: Seq<u8>) -> bool {
    s.len() >= 4 && s[0] == 0x7fu8 && s[1] == 0x45u8 && s[2] == 0x4cu8 && s[3] == 0x46u8
}

/// The Unix archive magic `!<arch>\n`.
pub open spec fn is_archive_magic(s: Seq<u8>) -> bool {
    s.len() >= 8 && s[0] == 0x21u8 && s[1] == 0x3cu8 && s[2] == 0x61u8 && s[3] == 0x72u8 && s[4]
        == 0x63u8 && s[5] == 0x68u8 && s[6] == 0x3eu8 && s[7] == 0x0au8
}

/// The first two bytes read as a little-endian 16-bit word.
pub open spec fn magic_u16_le(s: Seq<u8>) -> int {
    s[0] + s[1] * 0x100
}

/// The first four bytes read as a big-endian 32-bit word.
pub open spec fn magic_u32_be(s: Seq<u8>) -> int {
    s[0] * 0x1000000 + s[1] * 0x10000 + s[2] * 0x100 + s[3]
}

/// A thin Mach-O magic in either byte order: `0xfeedface`/`0xfeedfacf`
/// stored big-endian, or their byte-swapped forms.
pub open spec fn is_macho_magic(s: Seq<u8>) -> bool {
    s.len() >= 4 && {
        let m = magic_u32_be(s);
        m == 0xfeedface || m == 0xfeedfacf || m == 0xcefaedfe || m == 0xcffaedfe
    }
}

/// The byte-swapped (little-endian file) Mach-O magics.
pub open spec fn macho_magic_is_lsb(s: Seq<u8>) -> bool {
    magic_u32_be(s) == 0xcefaedfe || magic_u32_be(s) == 0xcffaedfe
}

/// The 64-bit Mach-O magics.
pub open spec fn macho_magic_is_64(s: Seq<u8>) -> bool {
    magic_u32_be(s) == 0xfeedfacf || magic_u32_be(s) == 0xcffaedfe
}

/// The fat Mach-O magic `0xcafebabe`, stored big-endian.
pub open spec fn is_fat_magic(s: Seq<u8>) -> bool {
    s.len() >= 4 && magic_u32_be(s) == 0xcafebabe
}

/// The DOS magic `MZ`.
pub open spec fn is_pe_magic(s: Seq<u8>) -> bool {
    s.len() >= 2 && magic_u16_le(s) == 0x5a4d
}

/// The TE magic `VZ`.
pub open spec fn is_te_magic(s: Seq<u8>) -> bool {
    s.len() >= 2 && magic_u16_le(s) == 0x5a56
}

/// A COFF machine field in the first two bytes: x86, x86-64 or ARM64.
pub open spec fn is_coff_magic(s: Seq<u8>) -> bool {
    s.len() >= 2 && (magic_u16_le(s) == 0x14c || magic_u16_le(s) == 0x8664 || magic_u16_le(s)
        == 0xaa64)
}

/// How a 16-byte prefix is classified: ELF magic first, then the archive
/// magic, then the 16-bit DOS/TE/COFF magics, then the 32-bit Mach-O
/// magics, thin before fat; anything else is unknown.
pub open spec fn classify_magic(s: Seq<u8>) -> MagicHint {
    if is_elf_magic(s) {
        MagicHint::Elf {
            is_lsb: s[5] == 1u8,
            is_64: if s[4] == 2u8 {
                Some(true)
            } else if s[4] == 1u8 {
                Some(false)
            } else {
                None
            },
        }
    } else if is_archive_magic(s) {
        MagicHint::Archive
    } else if is_pe_magic(s) {
        MagicHint::Pe
    } else if is_te_magic(s) {
        MagicHint::Te
    } else if is_coff_magic(s) {
        MagicHint::Coff
    } else if is_macho_magic(s) {
        MagicHint::Mach { is_lsb: macho_magic_is_lsb(s), is_64: Some(macho_magic_is_64(s)) }
    } else if is_fat_magic(s) {
        MagicHint::MachFat
    } else {
        MagicHint::Unknown
    }
}

} // verus!
