//! Unit tests for the bounded slicing helper, the symbol map, the
//! classification tables and the ELF note and debug-link parsers.

use object::Symbol;
use object::SymbolKind;
use object::SymbolMap;
use object::data_range;
use object::classify;
use object::elf;
use object::Machine;
use object::RelocationKind;
use object::SectionKind;

fn sym(name: &str, kind: SymbolKind, address: u64, size: u64, undefined: bool, global: bool) -> Symbol {
    Symbol {
        kind,
        section_index: None,
        undefined,
        global,
        name: Some(name.to_string()),
        address,
        size,
    }
}

#[test]
fn data_range_inside() {
    let data = [0u8, 1, 2, 3, 4, 5, 6, 7];
    let r = data_range(&data, 0x100, 0x102, 3).unwrap();
    assert_eq!(r, &[2, 3, 4]);
    assert_eq!(data_range(&data, 0x100, 0x100, 8).unwrap(), &data[..]);
    assert_eq!(data_range(&data, 0x100, 0x108, 0).unwrap(), &[]);
}

#[test]
fn data_range_outside() {
    let data = [0u8; 8];
    assert!(data_range(&data, 0x100, 0xff, 1).is_none());
    assert!(data_range(&data, 0x100, 0x101, 8).is_none());
    assert!(data_range(&data, 0x100, 0x109, 0).is_none());
}

#[test]
fn data_range_overflow_is_none() {
    let data = [0u8; 8];
    assert!(data_range(&data, 0, u64::MAX, 2).is_none());
    assert!(data_range(&data, 0, 4, u64::MAX).is_none());
    assert!(data_range(&data, u64::MAX, 0, 1).is_none());
}

#[test]
fn symbol_map_filter() {
    assert!(SymbolMap::filter(&sym("a", SymbolKind::Text, 1, 4, false, true)));
    assert!(SymbolMap::filter(&sym("b", SymbolKind::Data, 1, 4, false, false)));
    assert!(SymbolMap::filter(&sym("c", SymbolKind::Unknown, 1, 4, false, false)));
    assert!(!SymbolMap::filter(&sym("d", SymbolKind::Text, 1, 0, false, true)), "zero size");
    assert!(!SymbolMap::filter(&sym("e", SymbolKind::Text, 1, 4, true, true)), "undefined");
    assert!(!SymbolMap::filter(&sym("f", SymbolKind::Section, 1, 4, false, true)));
    assert!(!SymbolMap::filter(&sym("g", SymbolKind::File, 1, 4, false, true)));
    assert!(!SymbolMap::filter(&sym("h", SymbolKind::Null, 1, 4, false, true)));
    assert!(!SymbolMap::filter(&sym("i", SymbolKind::Common, 1, 4, false, true)));
    assert!(!SymbolMap::filter(&sym("j", SymbolKind::Tls, 1, 4, false, true)));
}

#[test]
fn symbol_map_sorts_and_finds() {
    let all = vec![
        sym("late", SymbolKind::Text, 0x300, 0x10, false, true),
        sym("early", SymbolKind::Text, 0x100, 0x10, false, true),
        sym("skipped", SymbolKind::File, 0x200, 0x10, false, true),
        sym("mid", SymbolKind::Data, 0x200, 0x10, false, false),
    ];
    let map = SymbolMap::from_symbols(&all);
    let held = map.symbols();
    assert_eq!(held.len(), 3);
    assert_eq!(held[0].name(), Some("early"));
    assert_eq!(held[1].name(), Some("mid"));
    assert_eq!(held[2].name(), Some("late"));
    assert_eq!(map.get(0x105).unwrap().name(), Some("early"));
    assert_eq!(map.get(0x20f).unwrap().name(), Some("mid"));
    assert_eq!(map.get(0x300).unwrap().name(), Some("late"));
    assert!(map.get(0x0).is_none());
    assert!(map.get(0x110).is_none());
    assert!(map.get(0x310).is_none());
}

#[test]
fn symbol_map_overlap_returns_a_covering_symbol() {
    let all = vec![
        sym("wide", SymbolKind::Text, 0x100, 0x100, false, true),
        sym("inner", SymbolKind::Text, 0x140, 0x10, false, true),
    ];
    let map = SymbolMap::from_symbols(&all);
    if let Some(hit) = map.get(0x145) {
        let a = hit.address();
        let s = hit.size();
        assert!(a <= 0x145 && 0x145 < a + s, "whatever is returned covers the address");
    }
    let hit = map.get(0x100).expect("start of wide");
    assert_eq!(hit.name(), Some("wide"));
}

#[test]
fn symbol_map_ties_keep_insertion_order() {
    let all = vec![
        sym("first", SymbolKind::Text, 0x100, 0x10, false, true),
        sym("second", SymbolKind::Text, 0x100, 0x20, false, true),
    ];
    let map = SymbolMap::from_symbols(&all);
    let held = map.symbols();
    assert_eq!(held[0].name(), Some("first"));
    assert_eq!(held[1].name(), Some("second"));
}

#[test]
fn elf_section_kinds() {
    assert_eq!(classify::elf_section_kind(1, 0x6), SectionKind::Text);
    assert_eq!(classify::elf_section_kind(1, 0x3), SectionKind::Data);
    assert_eq!(classify::elf_section_kind(1, 0x2), SectionKind::ReadOnlyData);
    assert_eq!(classify::elf_section_kind(1, 0x22), SectionKind::ReadOnlyString);
    assert_eq!(classify::elf_section_kind(1, 0x402), SectionKind::Tls);
    assert_eq!(classify::elf_section_kind(1, 0x20), SectionKind::OtherString);
    assert_eq!(classify::elf_section_kind(1, 0x0), SectionKind::Other);
    assert_eq!(classify::elf_section_kind(8, 0x3), SectionKind::UninitializedData);
    assert_eq!(classify::elf_section_kind(8, 0x403), SectionKind::UninitializedTls);
    assert_eq!(classify::elf_section_kind(2, 0), SectionKind::Metadata);
    assert_eq!(classify::elf_section_kind(3, 0), SectionKind::Metadata);
    assert_eq!(classify::elf_section_kind(4, 0), SectionKind::Metadata);
    assert_eq!(classify::elf_section_kind(9, 0), SectionKind::Metadata);
    assert_eq!(classify::elf_section_kind(7, 0), SectionKind::Other);
    assert_eq!(classify::elf_section_kind(0, 0), SectionKind::Unknown);
}

#[test]
fn machine_tables() {
    assert_eq!(classify::elf_machine(3), Machine::X86);
    assert_eq!(classify::elf_machine(62), Machine::X86_64);
    assert_eq!(classify::elf_machine(40), Machine::Arm);
    assert_eq!(classify::elf_machine(183), Machine::Arm64);
    assert_eq!(classify::elf_machine(8), Machine::Mips);
    assert_eq!(classify::elf_machine(999), Machine::Other);
    assert_eq!(classify::macho_machine(7), Machine::X86);
    assert_eq!(classify::macho_machine(0x01000007), Machine::X86_64);
    assert_eq!(classify::macho_machine(12), Machine::Arm);
    assert_eq!(classify::macho_machine(0x0100000c), Machine::Arm64);
    assert_eq!(classify::macho_machine(1), Machine::Other);
    assert_eq!(classify::pe_machine(0x14c), Machine::X86);
    assert_eq!(classify::pe_machine(0x8664), Machine::X86_64);
    assert_eq!(classify::pe_machine(0x1c0), Machine::Arm);
    assert_eq!(classify::pe_machine(0xaa64), Machine::Arm64);
    assert_eq!(classify::pe_machine(0), Machine::Other);
}

#[test]
fn elf_relocation_table() {
    assert_eq!(
        classify::elf_relocation_kind(Machine::X86_64, 1),
        (RelocationKind::Absolute, 64)
    );
    assert_eq!(
        classify::elf_relocation_kind(Machine::X86_64, 2),
        (RelocationKind::Relative, 32)
    );
    assert_eq!(
        classify::elf_relocation_kind(Machine::X86_64, 4),
        (RelocationKind::PltRelative, 32)
    );
    assert_eq!(
        classify::elf_relocation_kind(Machine::X86_64, 9),
        (RelocationKind::GotRelative, 32)
    );
    assert_eq!(
        classify::elf_relocation_kind(Machine::X86_64, 11),
        (RelocationKind::AbsoluteSigned, 32)
    );
    assert_eq!(
        classify::elf_relocation_kind(Machine::X86_64, 77),
        (RelocationKind::Other(77), 0)
    );
    assert_eq!(
        classify::elf_relocation_kind(Machine::X86, 1),
        (RelocationKind::Absolute, 32)
    );
    assert_eq!(
        classify::elf_relocation_kind(Machine::Arm, 2),
        (RelocationKind::Absolute, 32)
    );
    assert_eq!(
        classify::elf_relocation_kind(Machine::Arm64, 257),
        (RelocationKind::Absolute, 64)
    );
    assert_eq!(
        classify::elf_relocation_kind(Machine::Mips, 1),
        (RelocationKind::Other(1), 0)
    );
}

#[test]
fn pe_section_kinds() {
    assert_eq!(classify::pe_section_kind(0x60000020), SectionKind::Text);
    assert_eq!(classify::pe_section_kind(0x40000040), SectionKind::ReadOnlyData);
    assert_eq!(classify::pe_section_kind(0xc0000040), SectionKind::Data);
    assert_eq!(classify::pe_section_kind(0xc0000080), SectionKind::UninitializedData);
    assert_eq!(classify::pe_section_kind(0), SectionKind::Unknown);
}

#[test]
fn build_id_note_parser() {
    let mut note = Vec::new();
    note.extend_from_slice(&4u32.to_le_bytes());
    note.extend_from_slice(&8u32.to_le_bytes());
    note.extend_from_slice(&3u32.to_le_bytes());
    note.extend_from_slice(b"GNU\0");
    note.extend_from_slice(&[1, 2, 3, 4, 5, 6, 7, 8]);
    let id = elf::parse_build_id(&note, true).unwrap();
    assert_eq!(id, vec![1, 2, 3, 4, 5, 6, 7, 8]);
}

#[test]
fn build_id_note_skips_other_notes() {
    let mut note = Vec::new();
    // first: a 4-byte ABI note payload under another name
    note.extend_from_slice(&4u32.to_le_bytes());
    note.extend_from_slice(&4u32.to_le_bytes());
    note.extend_from_slice(&1u32.to_le_bytes());
    note.extend_from_slice(b"XYZ\0");
    note.extend_from_slice(&[9, 9, 9, 9]);
    // then the build id
    note.extend_from_slice(&4u32.to_le_bytes());
    note.extend_from_slice(&2u32.to_le_bytes());
    note.extend_from_slice(&3u32.to_le_bytes());
    note.extend_from_slice(b"GNU\0");
    note.extend_from_slice(&[7, 7]);
    let id = elf::parse_build_id(&note, true).unwrap();
    assert_eq!(id, vec![7, 7]);
}

#[test]
fn build_id_note_big_endian() {
    let mut note = Vec::new();
    note.extend_from_slice(&4u32.to_be_bytes());
    note.extend_from_slice(&3u32.to_be_bytes());
    note.extend_from_slice(&3u32.to_be_bytes());
    note.extend_from_slice(b"GNU\0");
    note.extend_from_slice(&[5, 6, 7]);
    let id = elf::parse_build_id(&note, false).unwrap();
    assert_eq!(id, vec![5, 6, 7]);
}

#[test]
fn build_id_note_rejects_malformed() {
    assert!(elf::parse_build_id(&[], true).is_none());
    assert!(elf::parse_build_id(&[0; 8], true).is_none());
    let mut note = Vec::new();
    note.extend_from_slice(&4u32.to_le_bytes());
    note.extend_from_slice(&200u32.to_le_bytes()); // desc longer than the data
    note.extend_from_slice(&3u32.to_le_bytes());
    note.extend_from_slice(b"GNU\0");
    assert!(elf::parse_build_id(&note, true).is_none());
}

#[test]
fn debuglink_parser() {
    let mut d = Vec::new();
    d.extend_from_slice(b"app.debug\0\0\0");
    d.extend_from_slice(&0x1234ABCDu32.to_le_bytes());
    let (name, crc) = elf::parse_gnu_debuglink(&d).unwrap();
    assert_eq!(name, b"app.debug");
    assert_eq!(crc, 0x1234ABCD);
}

#[test]
fn debuglink_parser_rejects_malformed() {
    assert!(elf::parse_gnu_debuglink(b"no terminator").is_none());
    assert!(elf::parse_gnu_debuglink(b"cut\0\0").is_none());
    assert!(elf::parse_gnu_debuglink(b"").is_none());
}

#[test]
fn wasm_backend_accepts_empty_module() {
    let data = [0x00u8, 0x61, 0x73, 0x6d, 0x01, 0x00, 0x00, 0x00];
    let w = object::wasm::WasmFile::parse(&data).unwrap();
    assert_eq!(w.sections.len(), 0);
}

#[test]
fn wasm_backend_multibyte_section_size() {
    // a custom section whose size 300 takes two LEB bytes
    let mut v = vec![0x00u8, 0x61, 0x73, 0x6d, 0x01, 0x00, 0x00, 0x00];
    v.push(0);
    v.push(0xac);
    v.push(0x02);
    v.extend_from_slice(&vec![7u8; 300]);
    let w = object::wasm::WasmFile::parse(&v).unwrap();
    assert_eq!(w.sections.len(), 1);
    assert_eq!(w.sections[0].size, 300);
    assert_eq!(w.sections[0].data.len(), 300);
    assert_eq!(w.sections[0].data[0], 7);
}
