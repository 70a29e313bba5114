//! The Mach-O backend: turns the plain values handed over by the decoder
//! into section, segment and symbol records, and picks the UUID out of the
//! load commands.

use vstd::prelude::*;
use vstd::slice::slice_index_get;
use vstd::string::StringExecFns;

use crate::classify;
use crate::decode;
use crate::decode::RawMachSym;
use crate::model::Machine;
use crate::model::SectionIndex;
use crate::model::SectionKind;
use crate::model::Symbol;
use crate::records::SectionRecord;
use crate::records::SegmentRecord;
use crate::sniff;
use crate::util;
use crate::util::u32_at;
use crate::util::u64_at;

verus! {

/// The cputype field of a Mach-O header: the 32-bit word at offset 4, in
/// the byte order the magic names.
pub open spec fn macho_header_cputype(s: Seq<u8>) -> int {
    if sniff::macho_magic_is_lsb(s) {
        crate::util::u32_le_at(s, 4)
    } else {
        crate::util::u32_be_at(s, 4)
    }
}

/// The 16 bytes at `off` open with the segment name `__TEXT\0`.
pub open spec fn is_text_segname(s: Seq<u8>, off: int) -> bool {
    &&& s[off] == 0x5fu8
    &&& s[off + 1] == 0x5fu8
    &&& s[off + 2] == 0x54u8
    &&& s[off + 3] == 0x45u8
    &&& s[off + 4] == 0x58u8
    &&& s[off + 5] == 0x54u8
    &&& s[off + 6] == 0x00u8
}

/// The entry arithmetic goblin performs cannot overflow: either no LC_MAIN
/// was seen, or no `__TEXT` segment was (goblin then reports an error), or
/// the first `__TEXT` segment's address is at least its file offset and
/// adding the entry offset to their difference stays within 64 bits.
pub open spec fn entry_arith_ok(text: Option<(int, int)>, main: Option<int>) -> bool {
    match main {
        None => true,
        Some(e) => match text {
            None => true,
            Some(p) => p.0 >= p.1 && p.0 - p.1 + e <= u64::MAX,
        },
    }
}

/// The load-command walk, exactly as goblin makes it: from `off`, `n`
/// commands, each read as a (cmd, cmdsize) pair and stepped over by its
/// size; the first LC_MAIN records its entry offset (goblin heeds only
/// the first, as dyld does), the
/// first `__TEXT` segment command records its address and file offset, and
/// any read that leaves the buffer fails the walk. When all `n` commands
/// fit, the recorded values must pass `entry_arith_ok`.
pub open spec fn macho_walk_safe(
    s: Seq<u8>,
    le: bool,
    off: int,
    n: nat,
    text: Option<(int, int)>,
    main: Option<int>,
) -> bool
    decreases n,
{
    if n == 0 {
        entry_arith_ok(text, main)
    } else if !(0 <= off && off + 8 <= s.len()) {
        false
    } else {
        let cmd = u32_at(s, off, le);
        let size = u32_at(s, off + 4, le);
        if size > s.len() - off {
            false
        } else if cmd == 0x80000028 {
            if off + 16 <= s.len() {
                let main2 = if main is None {
                    Some(u64_at(s, off + 8, le))
                } else {
                    main
                };
                macho_walk_safe(s, le, off + size, (n - 1) as nat, text, main2)
            } else {
                false
            }
        } else if cmd == 0x19 {
            if off + 48 <= s.len() {
                let text2 = if text is None && is_text_segname(s, off + 8) {
                    Some((u64_at(s, off + 24, le), u64_at(s, off + 40, le)))
                } else {
                    text
                };
                macho_walk_safe(s, le, off + size, (n - 1) as nat, text2, main)
            } else {
                false
            }
        } else if cmd == 0x01 {
            if off + 36 <= s.len() {
                let text2 = if text is None && is_text_segname(s, off + 8) {
                    Some((u32_at(s, off + 24, le), u32_at(s, off + 32, le)))
                } else {
                    text
                };
                macho_walk_safe(s, le, off + size, (n - 1) as nat, text2, main)
            } else {
                false
            }
        } else {
            macho_walk_safe(s, le, off + size, (n - 1) as nat, text, main)
        }
    }
}

/// The buffer's load commands can be walked to the end and goblin's entry
/// arithmetic on them cannot overflow.
pub open spec fn macho_commands_checked(s: Seq<u8>) -> bool {
    &&& s.len() >= 32
    &&& macho_walk_safe(
        s,
        sniff::macho_magic_is_lsb(s),
        if sniff::macho_magic_is_64(s) {
            32
        } else {
            28
        },
        u32_at(s, 16, sniff::macho_magic_is_lsb(s)) as nat,
        None,
        None,
    )
}

/// The ghost image of the walk accumulators held by the checker.
pub open spec fn opt_pair_int(t: Option<(u64, u64)>) -> Option<(int, int)> {
    match t {
        Some(p) => Some((p.0 as int, p.1 as int)),
        None => None,
    }
}

/// The ghost image of the recorded entry offset.
pub open spec fn opt_int(m: Option<u64>) -> Option<int> {
    match m {
        Some(e) => Some(e as int),
        None => None,
    }
}

/// Decide `macho_commands_checked`: walk the load commands as goblin does
/// and test the entry arithmetic.
pub fn check_macho_commands(data: &[u8]) -> (r: bool)
    ensures
        r == macho_commands_checked(data@),
{
    let len: usize = data.len();
    if len < 32 {
        return false;
    }
    let magic = util::read_u32_be(data, 0);
    let le: bool = magic == 0xcefaedfe || magic == 0xcffaedfe;
    let is_64: bool = magic == 0xfeedfacf || magic == 0xcffaedfe;
    proof {
        assert(le == sniff::macho_magic_is_lsb(data@));
        assert(is_64 == sniff::macho_magic_is_64(data@));
    }
    let ncmds = util::read_u32(data, 16, le);
    let mut off: usize = if is_64 {
        32
    } else {
        28
    };
    let mut text: Option<(u64, u64)> = None;
    let mut main: Option<u64> = None;
    let mut i: u32 = 0;
    while i < ncmds
        invariant
            len == data@.len(),
            32 <= len,
            i <= ncmds,
            off <= len,
            le == sniff::macho_magic_is_lsb(data@),
            macho_commands_checked(data@) == macho_walk_safe(
                data@,
                le,
                off as int,
                (ncmds - i) as nat,
                opt_pair_int(text),
                opt_int(main),
            ),
        decreases ncmds - i,
    {
        if off > len - 8 {
            return false;
        }
        let cmd = util::read_u32(data, off, le);
        let size = util::read_u32(data, off + 4, le);
        if size as u64 > (len - off) as u64 {
            return false;
        }
        if cmd == 0x80000028 {
            if len - off < 16 {
                return false;
            }
            if main.is_none() {
                main = Some(util::read_u64(data, off + 8, le));
            }
        } else if cmd == 0x19 {
            if len - off < 48 {
                return false;
            }
            if text.is_none() && is_text_segname_exec(data, off + 8) {
                text = Some((util::read_u64(data, off + 24, le), util::read_u64(data, off + 40, le)));
            }
        } else if cmd == 0x01 {
            if len - off < 36 {
                return false;
            }
            if text.is_none() && is_text_segname_exec(data, off + 8) {
                text = Some(
                    (util::read_u32(data, off + 24, le) as u64, util::read_u32(
                        data,
                        off + 32,
                        le,
                    ) as u64),
                );
            }
        }
        off = off + size as usize;
        i = i + 1;
    }
    match main {
        None => true,
        Some(e) => match text {
            None => true,
            Some(p) => p.0 >= p.1 && e <= u64::MAX - (p.0 - p.1),
        },
    }
}

/// Decide `is_text_segname`.
fn is_text_segname_exec(data: &[u8], off: usize) -> (r: bool)
    requires
        off + 7 <= data@.len(),
    ensures
        r == is_text_segname(data@, off as int),
{
    let len: usize = data.len();
    let b0 = *slice_index_get(data, off);
    let b1 = *slice_index_get(data, off + 1);
    let b2 = *slice_index_get(data, off + 2);
    let b3 = *slice_index_get(data, off + 3);
    let b4 = *slice_index_get(data, off + 4);
    let b5 = *slice_index_get(data, off + 5);
    let b6 = *slice_index_get(data, off + 6);
    b0 == 0x5f && b1 == 0x5f && b2 == 0x54 && b3 == 0x45 && b4 == 0x58 && b5 == 0x54 && b6 == 0x00
}

/// A parsed Mach-O file.
#[derive(Debug)]
pub struct MachOFile {
    pub is_64: bool,
    pub little_endian: bool,
    pub machine: Machine,
    pub entry: u64,
    pub uuid: Option<Vec<u8>>,
    pub sections: Vec<SectionRecord>,
    pub segments: Vec<SegmentRecord>,
    pub symbols: Vec<Symbol>,
    pub dynamic_symbols: Vec<Symbol>,
    pub has_debug: bool,
}

/// The symbol record a Mach-O nlist entry stands for, given the kind of
/// the section its `n_sect` names: a STAB (debugging) entry keeps kind
/// `Unknown`; otherwise the kind follows the section for `N_SECT` entries,
/// an entry of type `N_UNDF` is undefined, and `N_EXT` marks it global.
pub fn macho_symbol_from_raw(raw: RawMachSym, sect_kind: SectionKind) -> (s: Symbol)
    ensures
        (raw.n_type & classify::N_STAB_MASK != 0) ==> s.kind == crate::model::SymbolKind::Unknown,
        (raw.n_type & classify::N_STAB_MASK == 0 && raw.n_type & classify::N_TYPE_MASK
            == classify::N_SECT) ==> s.kind == classify::spec_macho_symbol_kind(sect_kind),
        s.undefined == (raw.n_type & classify::N_STAB_MASK == 0 && raw.n_type
            & classify::N_TYPE_MASK == classify::N_UNDF),
        s.global == (raw.n_type & classify::N_STAB_MASK == 0 && raw.n_type & classify::N_EXT != 0),
        s.section_index == (if raw.n_sect == 0 {
            Option::<SectionIndex>::None
        } else {
            Some(SectionIndex(raw.n_sect))
        }),
        s.name matches Some(n) && n == raw.name,
        s.address == raw.n_value,
        s.size == 0,
{
    let is_stab = raw.n_type & classify::N_STAB_MASK != 0;
    let typ = raw.n_type & classify::N_TYPE_MASK;
    let kind = if is_stab {
        crate::model::SymbolKind::Unknown
    } else if typ == classify::N_SECT {
        classify::macho_symbol_kind(sect_kind)
    } else {
        crate::model::SymbolKind::Unknown
    };
    Symbol {
        kind,
        section_index: if raw.n_sect == 0 {
            None
        } else {
            Some(SectionIndex(raw.n_sect))
        },
        undefined: !is_stab && typ == classify::N_UNDF,
        global: !is_stab && raw.n_type & classify::N_EXT != 0,
        name: Some(raw.name),
        address: raw.n_value,
        size: 0,
    }
}

/// The zlib payload of a Mach-O `__zdebug_*` section: the bytes after the
/// 12-byte header that opens with `ZLIB`.
pub open spec fn zdebug_payload(s: Seq<u8>) -> Option<Seq<u8>> {
    if s.len() >= 12 && s[0] == 0x5au8 && s[1] == 0x4cu8 && s[2] == 0x49u8 && s[3] == 0x42u8 {
        Some(s.skip(12))
    } else {
        None
    }
}

/// Undo the compression of a Mach-O `__zdebug_*` section: strip the
/// `ZLIB` header and inflate the stream. Anything malformed yields `None`,
/// and the raw bytes then stand in.
pub fn decompress_zdebug_section(data: &[u8]) -> (r: Option<Vec<u8>>)
    ensures
        match r {
            Some(v) => zdebug_payload(data@) matches Some(p) && decode::inflated_of(p) == Some(
                v@,
            ),
            None => zdebug_payload(data@) matches Some(p) ==> decode::inflated_of(p) is None,
        },
{
    let len: usize = data.len();
    if len < 12 {
        return None;
    }
    let b0 = *slice_index_get(data, 0);
    let b1 = *slice_index_get(data, 1);
    let b2 = *slice_index_get(data, 2);
    let b3 = *slice_index_get(data, 3);
    if !(b0 == 0x5a && b1 == 0x4c && b2 == 0x49 && b3 == 0x42) {
        return None;
    }
    decode::inflate_zlib(vstd::slice::slice_subrange(data, 12, len))
}

/// The UUID bytes of the first LC_UUID command the load-command walk
/// reaches, read straight from the command; `None` when no such command is
/// reached before the walk fails or ends.
pub open spec fn macho_uuid_scan(s: Seq<u8>, le: bool, off: int, n: nat) -> Option<Seq<u8>>
    decreases n,
{
    if n == 0 {
        None
    } else if !(0 <= off && off + 8 <= s.len()) {
        None
    } else {
        let cmd = u32_at(s, off, le);
        let size = u32_at(s, off + 4, le);
        if size > s.len() - off {
            None
        } else if cmd == 0x1b {
            if off + 24 <= s.len() {
                Some(s.subrange(off + 8, off + 24))
            } else {
                None
            }
        } else {
            macho_uuid_scan(s, le, off + size, (n - 1) as nat)
        }
    }
}

/// The UUID bytes of a Mach-O buffer: the first LC_UUID of the walk.
pub open spec fn macho_uuid_of_bytes(s: Seq<u8>) -> Option<Seq<u8>> {
    if s.len() >= 32 {
        macho_uuid_scan(
            s,
            sniff::macho_magic_is_lsb(s),
            if sniff::macho_magic_is_64(s) {
                32
            } else {
                28
            },
            u32_at(s, 16, sniff::macho_magic_is_lsb(s)) as nat,
        )
    } else {
        None
    }
}

/// Walk the load commands for the first LC_UUID and hand its 16 bytes
/// over.
fn scan_macho_uuid(data: &[u8]) -> (r: Option<Vec<u8>>)
    ensures
        match r {
            Some(v) => macho_uuid_of_bytes(data@) == Some(v@) && v@.len() == 16,
            None => macho_uuid_of_bytes(data@) is None,
        },
{
    let len: usize = data.len();
    if len < 32 {
        return None;
    }
    let magic = util::read_u32_be(data, 0);
    let le: bool = magic == 0xcefaedfe || magic == 0xcffaedfe;
    let is_64: bool = magic == 0xfeedfacf || magic == 0xcffaedfe;
    proof {
        assert(le == sniff::macho_magic_is_lsb(data@));
        assert(is_64 == sniff::macho_magic_is_64(data@));
    }
    let ncmds = util::read_u32(data, 16, le);
    let mut off: usize = if is_64 {
        32
    } else {
        28
    };
    let mut i: u32 = 0;
    while i < ncmds
        invariant
            len == data@.len(),
            32 <= len,
            i <= ncmds,
            off <= len,
            le == sniff::macho_magic_is_lsb(data@),
            macho_uuid_of_bytes(data@) == macho_uuid_scan(
                data@,
                le,
                off as int,
                (ncmds - i) as nat,
            ),
        decreases ncmds - i,
    {
        if off > len - 8 {
            return None;
        }
        let cmd = util::read_u32(data, off, le);
        let size = util::read_u32(data, off + 4, le);
        if size as u64 > (len - off) as u64 {
            return None;
        }
        if cmd == 0x1b {
            if len - off < 24 {
                return None;
            }
            return Some(util::copy_window(data, (off + 8) as u64, 16));
        }
        off = off + size as usize;
        i = i + 1;
    }
    None
}

/// The kind of the section numbered `idx`, or `Unknown` when no section
/// carries that number.
fn section_kind_by_index(sections: &Vec<SectionRecord>, idx: usize) -> (r: SectionKind) {
    let n = sections.len();
    for i in 0..n
        invariant
            n == sections@.len(),
    {
        if sections[i].index == idx {
            return sections[i].kind;
        }
    }
    SectionKind::Unknown
}

impl MachOFile {
    /// Parse a thin Mach-O image: accepted exactly when the load-command
    /// walk checks out and the decoder accepts the buffer. On success the
    /// bitness and byte order reflect which of the four thin magics opens
    /// the buffer.
    pub fn parse(data: &[u8]) -> (r: Result<MachOFile, String>)
        ensures
            r is Ok <==> macho_commands_checked(data@) && decode::macho_parseable(data@),
            r matches Ok(f) ==> {
                &&& data@.len() >= 32
                &&& sniff::is_macho_magic(data@)
                &&& f.is_64 == sniff::macho_magic_is_64(data@)
                &&& f.little_endian == sniff::macho_magic_is_lsb(data@)
                &&& f.machine == classify::spec_macho_machine(
                    macho_header_cputype(data@) as u32,
                )
                &&& f.entry == decode::macho_entry_of(data@)
                &&& match f.uuid {
                    Some(v) => macho_uuid_of_bytes(data@) == Some(v@) && v@.len() == 16,
                    None => macho_uuid_of_bytes(data@) is None,
                }
            },
    {
        if !check_macho_commands(data) {
            return Err(String::from_str("Malformed Mach-O entry command"));
        }
        let (m, hdr) = match decode::macho_parse(data) {
            Ok(p) => p,
            Err(e) => {
                return Err(e);
            },
        };
        let machine = classify::macho_machine(hdr.cputype);

        let text_name = String::from_str("__TEXT");
        let data_name = String::from_str("__DATA");
        let dwarf_name = String::from_str("__DWARF");

        let uuid = scan_macho_uuid(data);

        let mut sections: Vec<SectionRecord> = Vec::new();
        let mut segments: Vec<SegmentRecord> = Vec::new();
        let mut has_debug = false;
        let mut next_index: usize = 1;
        let nseg = decode::macho_segment_count(&m);
        for i in 0..nseg
            invariant
                next_index >= 1,
        {
            match decode::macho_segment(&m, i) {
                Some(seg) => {
                    match &seg.name {
                        Some(n) => {
                            if *n == dwarf_name {
                                has_debug = true;
                            }
                        },
                        None => (),
                    }
                    segments.push(
                        SegmentRecord {
                            name: seg.name,
                            address: seg.vmaddr,
                            size: seg.vmsize,
                            align: 0,
                            data: util::copy_window(data, seg.fileoff, seg.filesize),
                        },
                    );
                },
                None => (),
            }
            let secs = decode::macho_segment_sections(&m, i);
            let nsec = secs.len();
            for j in 0..nsec
                invariant
                    nsec == secs@.len(),
                    next_index >= 1,
            {
                let sec = &secs[j];
                let (in_text, in_data, in_dwarf) = match &sec.segname {
                    Some(n) => (*n == text_name, *n == data_name, *n == dwarf_name),
                    None => (false, false, false),
                };
                let kind = classify::macho_section_kind(sec.flags, in_text, in_data, in_dwarf);
                let align: u64 = if sec.align < 64 {
                    1u64 << sec.align as u64
                } else {
                    0
                };
                let name = match &sec.sectname {
                    Some(n) => Some(n.clone()),
                    None => None,
                };
                let segment_name = match &sec.segname {
                    Some(n) => Some(n.clone()),
                    None => None,
                };
                let bytes = util::copy_window(data, sec.offset as u64, sec.size);
                let uncompressed: Option<Vec<u8>> = match &name {
                    Some(n) => {
                        if util::str_has_prefix(n.as_str(), "__zdebug") {
                            decompress_zdebug_section(bytes.as_slice())
                        } else {
                            None
                        }
                    },
                    None => None,
                };
                sections.push(
                    SectionRecord {
                        index: next_index,
                        name,
                        segment_name,
                        address: sec.addr,
                        size: sec.size,
                        align,
                        kind,
                        data: bytes,
                        uncompressed,
                        relocs: Vec::new(),
                    },
                );
                if next_index < usize::MAX {
                    next_index = next_index + 1;
                }
            }
        }

        let raw_syms = decode::macho_symbols(&m);
        let mut symbols: Vec<Symbol> = Vec::new();
        let nsym = raw_syms.len();
        for i in 0..nsym
            invariant
                nsym == raw_syms@.len(),
        {
            let raw = &raw_syms[i];
            if raw.n_type & classify::N_STAB_MASK != 0 {
                has_debug = true;
            }
            let sect_kind = section_kind_by_index(&sections, raw.n_sect);
            symbols.push(
                macho_symbol_from_raw(
                    RawMachSym {
                        name: raw.name.clone(),
                        n_type: raw.n_type,
                        n_sect: raw.n_sect,
                        n_desc: raw.n_desc,
                        n_value: raw.n_value,
                    },
                    sect_kind,
                ),
            );
        }

        Ok(
            MachOFile {
                is_64: hdr.is_64,
                little_endian: hdr.little_endian,
                machine,
                entry: hdr.entry,
                uuid,
                sections,
                segments,
                symbols,
                dynamic_symbols: Vec::new(),
                has_debug,
            },
        )
    }
}

} // verus!
