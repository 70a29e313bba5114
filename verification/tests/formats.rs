//! End-to-end scenarios: hand-built ELF, Mach-O, PE and Wasm images fed
//! through `File::parse`.

use object::File;
use object::Format;
use object::Machine;
use object::SectionKind;
use object::SymbolKind;

fn p16(v: &mut Vec<u8>, x: u16) {
    v.extend_from_slice(&x.to_le_bytes());
}

fn p32(v: &mut Vec<u8>, x: u32) {
    v.extend_from_slice(&x.to_le_bytes());
}

fn p64(v: &mut Vec<u8>, x: u64) {
    v.extend_from_slice(&x.to_le_bytes());
}

fn pad_to(v: &mut Vec<u8>, len: usize) {
    while v.len() < len {
        v.push(0);
    }
}

struct Shdr64 {
    name: u32,
    sh_type: u32,
    flags: u64,
    addr: u64,
    off: u64,
    size: u64,
    link: u32,
    info: u32,
    align: u64,
    entsize: u64,
}

/// An ELF64 image: header, the given payload regions already placed, then
/// the section headers at `shoff`.
fn build_elf64(machine: u16, entry: u64, payload: &[(usize, Vec<u8>)], shdrs: &[Shdr64], shstrndx: u16) -> Vec<u8> {
    let mut v = Vec::new();
    v.extend_from_slice(&[0x7f, 0x45, 0x4c, 0x46, 2, 1, 1, 0]);
    v.extend_from_slice(&[0; 8]);
    p16(&mut v, 2); // ET_EXEC
    p16(&mut v, machine);
    p32(&mut v, 1);
    p64(&mut v, entry);
    p64(&mut v, 0); // e_phoff
    let mut data_end = 64usize;
    for (off, bytes) in payload {
        data_end = data_end.max(off + bytes.len());
    }
    let shoff = (data_end + 7) / 8 * 8;
    p64(&mut v, shoff as u64);
    p32(&mut v, 0);
    p16(&mut v, 64);
    p16(&mut v, 0);
    p16(&mut v, 0);
    p16(&mut v, 64);
    p16(&mut v, shdrs.len() as u16);
    p16(&mut v, shstrndx);
    for (off, bytes) in payload {
        pad_to(&mut v, *off);
        v.extend_from_slice(bytes);
    }
    pad_to(&mut v, shoff);
    for h in shdrs {
        p32(&mut v, h.name);
        p32(&mut v, h.sh_type);
        p64(&mut v, h.flags);
        p64(&mut v, h.addr);
        p64(&mut v, h.off);
        p64(&mut v, h.size);
        p32(&mut v, h.link);
        p32(&mut v, h.info);
        p64(&mut v, h.align);
        p64(&mut v, h.entsize);
    }
    v
}

/// The ELF64 x86-64 executable of the text scenario: `.text` at 0x1000,
/// entry 0x1040, one global function `main` at 0x1040 of size 0x30.
fn elf64_exec() -> Vec<u8> {
    // shstrtab: \0 .text \0 .symtab \0 .strtab \0 .shstrtab \0
    let shstrtab = b"\0.text\0.symtab\0.strtab\0.shstrtab\0".to_vec();
    let strtab = b"\0main\0".to_vec();
    let mut symtab = Vec::new();
    // null symbol
    symtab.extend_from_slice(&[0; 24]);
    // main: GLOBAL FUNC, section 1, value 0x1040, size 0x30
    p32(&mut symtab, 1);
    symtab.push(0x12);
    symtab.push(0);
    p16(&mut symtab, 1);
    p64(&mut symtab, 0x1040);
    p64(&mut symtab, 0x30);
    let text = vec![0x90u8; 0x200];
    let payload = vec![(64usize, shstrtab.clone()), (128, strtab.clone()), (160, symtab.clone()), (256, text.clone())];
    let shdrs = [
        Shdr64 { name: 0, sh_type: 0, flags: 0, addr: 0, off: 0, size: 0, link: 0, info: 0, align: 0, entsize: 0 },
        Shdr64 { name: 1, sh_type: 1, flags: 6, addr: 0x1000, off: 256, size: 0x200, link: 0, info: 0, align: 16, entsize: 0 },
        Shdr64 { name: 7, sh_type: 2, flags: 0, addr: 0, off: 160, size: 48, link: 3, info: 1, align: 8, entsize: 24 },
        Shdr64 { name: 15, sh_type: 3, flags: 0, addr: 0, off: 128, size: strtab.len() as u64, link: 0, info: 0, align: 1, entsize: 0 },
        Shdr64 { name: 23, sh_type: 3, flags: 0, addr: 0, off: 64, size: shstrtab.len() as u64, link: 0, info: 0, align: 1, entsize: 0 },
    ];
    build_elf64(62, 0x1040, &payload, &shdrs, 4)
}

#[test]
fn elf64_exec_format_machine_entry() {
    let data = elf64_exec();
    let f = File::parse(&data).unwrap();
    assert_eq!(f.format(), Format::Elf64);
    assert_eq!(f.machine(), Machine::X86_64);
    assert_eq!(f.entry(), 0x1040);
    assert!(f.is_little_endian());
}

#[test]
fn elf64_exec_text_section() {
    let data = elf64_exec();
    let f = File::parse(&data).unwrap();
    let text = f.section_by_name(".text").unwrap();
    assert_eq!(text.kind(), SectionKind::Text);
    assert_eq!(text.address(), 0x1000);
    assert_eq!(text.size(), 0x200);
    assert_eq!(text.data().len(), 0x200);
    assert!(f.section_by_name(".bogus").is_none());
}

#[test]
fn elf64_exec_symbol_map() {
    let data = elf64_exec();
    let f = File::parse(&data).unwrap();
    let map = f.symbol_map();
    let hit = map.get(0x1050).expect("0x1050 is inside main");
    assert_eq!(hit.name(), Some("main"));
    assert_eq!(hit.address(), 0x1040);
    assert_eq!(hit.size(), 0x30);
    assert!(hit.is_global());
    assert!(!hit.is_local());
    assert!(map.get(0x2000).is_none());
    assert!(map.get(0x103f).is_none());
    assert_eq!(map.get(0x1040).unwrap().address(), 0x1040);
    assert!(map.get(0x1070).is_none());
}

#[test]
fn elf64_exec_symbol_iterator_matches_lookup() {
    let data = elf64_exec();
    let f = File::parse(&data).unwrap();
    let mut it = f.symbols();
    let mut seen = Vec::new();
    while let Some((idx, sym)) = it.next() {
        let again = f.symbol_by_index(idx).expect("yielded index resolves");
        assert_eq!(again.name(), sym.name());
        assert_eq!(again.address(), sym.address());
        assert_eq!(again.size(), sym.size());
        assert_eq!(again.kind(), sym.kind());
        assert!(!seen.contains(&idx), "indices are unique");
        seen.push(idx);
    }
    assert_eq!(seen.len(), 2);
    assert!(f.symbol_by_index(object::SymbolIndex(99)).is_none());
}

#[test]
fn elf64_duplicate_section_names_first_wins() {
    let shstrtab = b"\0.dup\0.shstrtab\0".to_vec();
    let payload = vec![(64usize, shstrtab.clone())];
    let shdrs = [
        Shdr64 { name: 0, sh_type: 0, flags: 0, addr: 0, off: 0, size: 0, link: 0, info: 0, align: 0, entsize: 0 },
        Shdr64 { name: 1, sh_type: 1, flags: 2, addr: 0x100, off: 0, size: 0, link: 0, info: 0, align: 1, entsize: 0 },
        Shdr64 { name: 1, sh_type: 1, flags: 2, addr: 0x200, off: 0, size: 0, link: 0, info: 0, align: 1, entsize: 0 },
        Shdr64 { name: 6, sh_type: 3, flags: 0, addr: 0, off: 64, size: shstrtab.len() as u64, link: 0, info: 0, align: 1, entsize: 0 },
    ];
    let data = build_elf64(62, 0, &payload, &shdrs, 3);
    let f = File::parse(&data).unwrap();
    let dup = f.section_by_name(".dup").unwrap();
    assert_eq!(dup.address(), 0x100, "the first section in order wins");
}

#[test]
fn elf64_relocations() {
    // .text plus a .rela.text with one R_X86_64_PC32 entry
    let shstrtab = b"\0.text\0.rela.text\0.shstrtab\0".to_vec();
    let mut rela = Vec::new();
    p64(&mut rela, 8); // r_offset
    p64(&mut rela, (1u64 << 32) | 2); // symbol 1, R_X86_64_PC32
    p64(&mut rela, (-4i64) as u64); // addend
    let payload = vec![(64usize, shstrtab.clone()), (128, rela.clone())];
    let shdrs = [
        Shdr64 { name: 0, sh_type: 0, flags: 0, addr: 0, off: 0, size: 0, link: 0, info: 0, align: 0, entsize: 0 },
        Shdr64 { name: 1, sh_type: 1, flags: 6, addr: 0x1000, off: 0, size: 0, link: 0, info: 0, align: 16, entsize: 0 },
        Shdr64 { name: 7, sh_type: 4, flags: 0, addr: 0, off: 128, size: 24, link: 0, info: 1, align: 8, entsize: 24 },
        Shdr64 { name: 18, sh_type: 3, flags: 0, addr: 0, off: 64, size: shstrtab.len() as u64, link: 0, info: 0, align: 1, entsize: 0 },
    ];
    let data = build_elf64(62, 0, &payload, &shdrs, 3);
    let f = File::parse(&data).unwrap();
    let text = f.section_by_name(".text").unwrap();
    let mut it = text.relocations();
    let (off, mut rel) = it.next().expect("one relocation");
    assert_eq!(off, 8);
    assert_eq!(rel.kind(), object::RelocationKind::Relative);
    assert_eq!(rel.size(), 32);
    assert_eq!(rel.symbol(), object::SymbolIndex(1));
    assert_eq!(rel.addend(), -4);
    assert!(!rel.has_implicit_addend());
    rel.set_addend(12);
    assert_eq!(rel.addend(), 12);
    assert!(it.next().is_none());
    assert!(it.next().is_none());
}

#[test]
fn elf64_segments() {
    // one PT_LOAD program header
    let mut v = Vec::new();
    v.extend_from_slice(&[0x7f, 0x45, 0x4c, 0x46, 2, 1, 1, 0]);
    v.extend_from_slice(&[0; 8]);
    p16(&mut v, 2);
    p16(&mut v, 62);
    p32(&mut v, 1);
    p64(&mut v, 0); // entry
    p64(&mut v, 64); // phoff
    p64(&mut v, 0); // shoff
    p32(&mut v, 0);
    p16(&mut v, 64);
    p16(&mut v, 56);
    p16(&mut v, 1); // phnum
    p16(&mut v, 64);
    p16(&mut v, 0); // shnum
    p16(&mut v, 0);
    // PT_LOAD: offset 0x80, vaddr 0x400000, filesz 0x40, memsz 0x60
    p32(&mut v, 1);
    p32(&mut v, 5); // flags R+X
    p64(&mut v, 0x80);
    p64(&mut v, 0x400000);
    p64(&mut v, 0x400000);
    p64(&mut v, 0x40);
    p64(&mut v, 0x60);
    p64(&mut v, 0x1000);
    pad_to(&mut v, 0x80);
    for i in 0..0x40u8 {
        v.push(i);
    }
    let f = File::parse(&v).unwrap();
    let mut it = f.segments();
    let seg = it.next().expect("one loadable segment");
    assert_eq!(seg.address(), 0x400000);
    assert_eq!(seg.size(), 0x60);
    assert_eq!(seg.align(), 0x1000);
    assert_eq!(seg.name(), None);
    assert_eq!(seg.data().len(), 0x40);
    assert_eq!(seg.data()[3], 3);
    let window = seg.data_range(0x400010, 4).unwrap();
    assert_eq!(window, &[0x10, 0x11, 0x12, 0x13]);
    assert!(seg.data_range(0x400000, 0x41).is_none());
    assert!(it.next().is_none());
}

fn build_elf32_with_section(machine: u16, name_bytes: &[u8], sh_type: u32, content: &[u8]) -> Vec<u8> {
    // sections: null, the named one, .shstrtab
    let mut shstrtab = vec![0u8];
    let name_off = shstrtab.len() as u32;
    shstrtab.extend_from_slice(name_bytes);
    shstrtab.push(0);
    let str_off = shstrtab.len() as u32;
    shstrtab.extend_from_slice(b".shstrtab\0");
    let mut v = Vec::new();
    v.extend_from_slice(&[0x7f, 0x45, 0x4c, 0x46, 1, 1, 1, 0]);
    v.extend_from_slice(&[0; 8]);
    p16(&mut v, 2);
    p16(&mut v, machine);
    p32(&mut v, 1);
    p32(&mut v, 0); // entry
    p32(&mut v, 0); // phoff
    p32(&mut v, 192); // shoff
    p32(&mut v, 0);
    p16(&mut v, 52);
    p16(&mut v, 0);
    p16(&mut v, 0);
    p16(&mut v, 40);
    p16(&mut v, 3);
    p16(&mut v, 2);
    pad_to(&mut v, 64);
    v.extend_from_slice(content);
    pad_to(&mut v, 128);
    v.extend_from_slice(&shstrtab);
    pad_to(&mut v, 192);
    let shdr32 = |v: &mut Vec<u8>, name: u32, t: u32, off: u32, size: u32| {
        p32(v, name);
        p32(v, t);
        p32(v, 0); // flags
        p32(v, 0); // addr
        p32(v, off);
        p32(v, size);
        p32(v, 0);
        p32(v, 0);
        p32(v, 4);
        p32(v, 0);
    };
    shdr32(&mut v, 0, 0, 0, 0);
    shdr32(&mut v, name_off, sh_type, 64, content.len() as u32);
    shdr32(&mut v, str_off, 3, 128, shstrtab.len() as u32);
    v
}

#[test]
fn elf32_arm_build_id() {
    let mut note = Vec::new();
    p32(&mut note, 4); // namesz
    p32(&mut note, 20); // descsz
    p32(&mut note, 3); // NT_GNU_BUILD_ID
    note.extend_from_slice(b"GNU\0");
    note.extend_from_slice(&[0xab; 20]);
    let data = build_elf32_with_section(40, b".note.gnu.build-id", 7, &note);
    let f = File::parse(&data).unwrap();
    assert_eq!(f.format(), Format::Elf32);
    assert_eq!(f.machine(), Machine::Arm);
    let id = f.build_id().expect("build id present");
    assert_eq!(id.len(), 20);
    assert_eq!(id, &[0xab; 20][..]);
    assert!(f.gnu_debuglink().is_none());
    assert!(f.mach_uuid().is_none());
}

#[test]
fn elf64_gnu_debuglink() {
    let shstrtab = b"\0.gnu_debuglink\0.shstrtab\0".to_vec();
    let mut link = Vec::new();
    link.extend_from_slice(b"debug\0\0\0");
    p32(&mut link, 0xDEADBEEF);
    let payload = vec![(64usize, shstrtab.clone()), (128, link.clone())];
    let shdrs = [
        Shdr64 { name: 0, sh_type: 0, flags: 0, addr: 0, off: 0, size: 0, link: 0, info: 0, align: 0, entsize: 0 },
        Shdr64 { name: 1, sh_type: 1, flags: 0, addr: 0, off: 128, size: link.len() as u64, link: 0, info: 0, align: 1, entsize: 0 },
        Shdr64 { name: 16, sh_type: 3, flags: 0, addr: 0, off: 64, size: shstrtab.len() as u64, link: 0, info: 0, align: 1, entsize: 0 },
    ];
    let data = build_elf64(62, 0, &payload, &shdrs, 2);
    let f = File::parse(&data).unwrap();
    let (name, crc) = f.gnu_debuglink().expect("debuglink present");
    assert_eq!(name, b"debug");
    assert_eq!(crc, 0xDEADBEEF);
    assert!(f.build_id().is_none());
}

#[test]
fn elf64_has_debug_symbols() {
    let with = build_elf32_with_section(40, b".debug_info", 1, &[0u8; 4]);
    let f = File::parse(&with).unwrap();
    assert!(f.has_debug_symbols());
    let without = elf64_exec();
    let f2 = File::parse(&without).unwrap();
    assert!(!f2.has_debug_symbols());
}

fn macho64_arm64_with_uuid() -> Vec<u8> {
    let mut v = Vec::new();
    v.extend_from_slice(&[0xcf, 0xfa, 0xed, 0xfe]); // MH_MAGIC_64, little-endian file
    p32(&mut v, 0x0100000c); // CPU_TYPE_ARM64
    p32(&mut v, 0); // cpusubtype
    p32(&mut v, 2); // MH_EXECUTE
    p32(&mut v, 1); // ncmds
    p32(&mut v, 24); // sizeofcmds
    p32(&mut v, 0); // flags
    p32(&mut v, 0); // reserved
    // LC_UUID
    p32(&mut v, 0x1b);
    p32(&mut v, 24);
    v.extend_from_slice(&[0x11; 16]);
    v
}

#[test]
fn macho64_arm64_uuid() {
    let data = macho64_arm64_with_uuid();
    let f = File::parse(&data).unwrap();
    assert_eq!(f.format(), Format::MachO64);
    assert_eq!(f.machine(), Machine::Arm64);
    assert!(f.is_little_endian());
    assert!(f.mach_uuid().is_some());
    assert_eq!(f.mach_uuid().unwrap(), uuid::Uuid::from_bytes([0x11; 16]));
    assert!(f.build_id().is_none());
    assert!(f.gnu_debuglink().is_none());
    assert!(!f.has_debug_symbols());
    assert_eq!(f.entry(), 0);
}

fn pe64_image() -> Vec<u8> {
    let mut v = Vec::new();
    // DOS header
    v.extend_from_slice(b"MZ");
    pad_to(&mut v, 0x3c);
    p32(&mut v, 0x40); // e_lfanew
    pad_to(&mut v, 0x40);
    v.extend_from_slice(b"PE\0\0");
    // COFF header
    p16(&mut v, 0x8664);
    p16(&mut v, 2); // two sections
    p32(&mut v, 0); // timestamp
    p32(&mut v, 0); // symbol table
    p32(&mut v, 0); // symbol count
    p16(&mut v, 240); // optional header size
    p16(&mut v, 0x0022); // characteristics
    // optional header, PE32+
    p16(&mut v, 0x20b);
    v.push(14);
    v.push(0);
    p32(&mut v, 0x200); // size of code
    p32(&mut v, 0x200); // size of initialized data
    p32(&mut v, 0); // size of uninitialized data
    p32(&mut v, 0x1000); // entry point
    p32(&mut v, 0x1000); // base of code
    p64(&mut v, 0x140000000); // image base
    p32(&mut v, 0x1000); // section alignment
    p32(&mut v, 0x200); // file alignment
    p16(&mut v, 6);
    p16(&mut v, 0);
    p16(&mut v, 0);
    p16(&mut v, 0);
    p16(&mut v, 6);
    p16(&mut v, 0);
    p32(&mut v, 0); // win32 version
    p32(&mut v, 0x3000); // size of image
    p32(&mut v, 0x200); // size of headers
    p32(&mut v, 0); // checksum
    p16(&mut v, 3); // subsystem: console
    p16(&mut v, 0);
    p64(&mut v, 0x100000);
    p64(&mut v, 0x1000);
    p64(&mut v, 0x100000);
    p64(&mut v, 0x1000);
    p32(&mut v, 0); // loader flags
    p32(&mut v, 16); // rva-and-size count
    for _ in 0..16 {
        p64(&mut v, 0);
    }
    // section table
    v.extend_from_slice(b".text\0\0\0");
    p32(&mut v, 0x100); // virtual size
    p32(&mut v, 0x1000); // virtual address
    p32(&mut v, 0x200); // raw size
    p32(&mut v, 0x200); // raw pointer
    p32(&mut v, 0);
    p32(&mut v, 0);
    p16(&mut v, 0);
    p16(&mut v, 0);
    p32(&mut v, 0x60000020); // code | execute | read
    v.extend_from_slice(b".rdata\0\0");
    p32(&mut v, 0x100);
    p32(&mut v, 0x2000);
    p32(&mut v, 0x200);
    p32(&mut v, 0x400);
    p32(&mut v, 0);
    p32(&mut v, 0);
    p16(&mut v, 0);
    p16(&mut v, 0);
    p32(&mut v, 0x40000040); // initialized data | read
    pad_to(&mut v, 0x200);
    v.extend_from_slice(&[0xccu8; 0x200]);
    v.extend_from_slice(&[0xddu8; 0x200]);
    v
}

#[test]
fn pe64_sections() {
    let data = pe64_image();
    let f = File::parse(&data).unwrap();
    assert_eq!(f.format(), Format::Pe64);
    assert_eq!(f.machine(), Machine::X86_64);
    assert!(f.is_little_endian());
    let rdata = f.section_by_name(".rdata").unwrap();
    assert_eq!(rdata.kind(), SectionKind::ReadOnlyData);
    let text = f.section_by_name(".text").unwrap();
    assert_eq!(text.kind(), SectionKind::Text);
    assert_eq!(text.data().len(), 0x200);
    assert!(f.mach_uuid().is_none());
    assert!(!f.has_debug_symbols());
}

#[test]
fn truncated_input_is_too_short() {
    let data = [0x7fu8, 0x45, 0x4c, 0x46, 2, 1, 1, 0];
    let err = File::parse(&data).unwrap_err();
    assert_eq!(err, "File too short");
}

#[test]
fn garbage_is_unknown_magic() {
    let data = [0u8; 16];
    let err = File::parse(&data).unwrap_err();
    assert_eq!(err, "Unknown file magic");
}

#[test]
fn archive_magic_is_unknown() {
    let mut data = b"!<arch>\n".to_vec();
    data.extend_from_slice(&[0u8; 8]);
    let err = File::parse(&data).unwrap_err();
    assert_eq!(err, "Unknown file magic");
}

fn wasm_module() -> Vec<u8> {
    let mut v = vec![0x00, 0x61, 0x73, 0x6d, 0x01, 0x00, 0x00, 0x00];
    v.push(10); // code section
    v.push(8); // size
    v.extend_from_slice(&[0u8; 8]);
    v
}

#[test]
fn wasm_module_parses() {
    let data = wasm_module();
    let f = File::parse(&data).unwrap();
    assert_eq!(f.format(), Format::Wasm);
    assert!(f.is_little_endian());
    assert_eq!(f.entry(), 0);
    assert!(f.mach_uuid().is_none());
    assert_eq!(f.machine(), Machine::Other);
    let mut it = f.sections();
    let code = it.next().expect("one section");
    assert_eq!(code.kind(), SectionKind::Text);
    assert_eq!(code.size(), 8);
    assert!(it.next().is_none());
    assert!(f.symbols().next().is_none());
    assert!(f.dynamic_symbols().next().is_none());
}

#[test]
fn wasm_bad_version_is_rejected() {
    let data = vec![0x00, 0x61, 0x73, 0x6d, 0x02, 0x00, 0x00, 0x00, 0, 0, 0, 0, 0, 0, 0, 0];
    assert!(File::parse(&data).is_err());
}

#[test]
fn wasm_truncated_section_is_rejected() {
    let mut v = vec![0x00, 0x61, 0x73, 0x6d, 0x01, 0x00, 0x00, 0x00];
    v.push(10);
    v.push(200); // claims 200 payload bytes, none follow
    v.extend_from_slice(&[0u8; 6]);
    assert!(File::parse(&v).is_err());
}

#[test]
fn section_by_index_and_data_by_name() {
    let data = elf64_exec();
    let f = File::parse(&data).unwrap();
    let text = f.section_by_name(".text").unwrap();
    let same = f.section_by_index(text.index()).unwrap();
    assert_eq!(same.name(), Some(".text"));
    assert_eq!(same.address(), 0x1000);
    assert!(f.section_by_index(object::SectionIndex(77)).is_none());
    let bytes = f.section_data_by_name(".text").unwrap();
    assert_eq!(bytes.len(), 0x200);
    assert_eq!(bytes[0], 0x90);
    assert!(f.section_data_by_name(".nope").is_none());
    assert_eq!(text.uncompressed_data(), text.data());
}

#[test]
fn section_iterator_walks_all_sections() {
    let data = elf64_exec();
    let f = File::parse(&data).unwrap();
    let mut it = f.sections();
    let mut names = Vec::new();
    while let Some(s) = it.next() {
        names.push(s.name().unwrap_or("").to_string());
    }
    assert_eq!(names, vec!["", ".text", ".symtab", ".strtab", ".shstrtab"]);
    assert!(it.next().is_none());
}

/// A thin Mach-O 64 with one `__TEXT,__text` section, an LC_UUID and a
/// one-symbol LC_SYMTAB.
fn macho64_with_segment_and_symbols() -> Vec<u8> {
    let mut v = Vec::new();
    v.extend_from_slice(&[0xcf, 0xfa, 0xed, 0xfe]);
    p32(&mut v, 0x0100000c); // arm64
    p32(&mut v, 0);
    p32(&mut v, 2); // MH_EXECUTE
    p32(&mut v, 3); // ncmds
    p32(&mut v, 152 + 24 + 24); // sizeofcmds
    p32(&mut v, 0);
    p32(&mut v, 0);
    // LC_SEGMENT_64 with one section
    p32(&mut v, 0x19);
    p32(&mut v, 152);
    v.extend_from_slice(b"__TEXT\0\0\0\0\0\0\0\0\0\0");
    p64(&mut v, 0x1000); // vmaddr
    p64(&mut v, 0x1000); // vmsize
    p64(&mut v, 0); // fileoff
    p64(&mut v, 0x110); // filesize
    p32(&mut v, 5);
    p32(&mut v, 5);
    p32(&mut v, 1); // nsects
    p32(&mut v, 0);
    // section __text
    v.extend_from_slice(b"__text\0\0\0\0\0\0\0\0\0\0");
    v.extend_from_slice(b"__TEXT\0\0\0\0\0\0\0\0\0\0");
    p64(&mut v, 0x1000); // addr
    p64(&mut v, 0x10); // size
    p32(&mut v, 0x100); // offset
    p32(&mut v, 4); // align, log2
    p32(&mut v, 0); // reloff
    p32(&mut v, 0); // nreloc
    p32(&mut v, 0x80000400); // pure + some instructions
    p32(&mut v, 0);
    p32(&mut v, 0);
    p32(&mut v, 0);
    // LC_UUID
    p32(&mut v, 0x1b);
    p32(&mut v, 24);
    v.extend_from_slice(&[0x22; 16]);
    // LC_SYMTAB: one nlist_64 at 288, strings at 304
    p32(&mut v, 0x2);
    p32(&mut v, 24);
    p32(&mut v, 288); // symoff
    p32(&mut v, 1); // nsyms
    p32(&mut v, 304); // stroff
    p32(&mut v, 7); // strsize
    pad_to(&mut v, 0x100);
    v.extend_from_slice(&[0xee; 0x10]); // __text bytes
    pad_to(&mut v, 288);
    p32(&mut v, 1); // n_strx -> "_main"
    v.push(0x0f); // N_SECT | N_EXT
    v.push(1); // n_sect
    p16(&mut v, 0); // n_desc
    p64(&mut v, 0x1008); // n_value
    v.extend_from_slice(b"\0_main\0");
    v
}

#[test]
fn macho64_sections_and_symbols() {
    let data = macho64_with_segment_and_symbols();
    let f = File::parse(&data).unwrap();
    assert_eq!(f.format(), Format::MachO64);
    assert_eq!(f.machine(), Machine::Arm64);
    assert!(f.mach_uuid().is_some());
    let text = f.section_by_name("__text").unwrap();
    assert_eq!(text.kind(), SectionKind::Text);
    assert_eq!(text.segment_name(), Some("__TEXT"));
    assert_eq!(text.address(), 0x1000);
    assert_eq!(text.size(), 0x10);
    assert_eq!(text.align(), 16);
    assert_eq!(text.data(), &[0xee; 0x10][..]);
    assert_eq!(text.index(), object::SectionIndex(1));
    let mut segs = f.segments();
    let seg = segs.next().expect("one segment");
    assert_eq!(seg.name(), Some("__TEXT"));
    assert_eq!(seg.address(), 0x1000);
    assert_eq!(seg.size(), 0x1000);
    assert!(segs.next().is_none());
    let mut syms = f.symbols();
    let (idx, main) = syms.next().expect("one symbol");
    assert_eq!(idx, object::SymbolIndex(0));
    assert_eq!(main.name(), Some("_main"));
    assert_eq!(main.kind(), SymbolKind::Text);
    assert_eq!(main.address(), 0x1008);
    assert_eq!(main.size(), 0);
    assert!(main.is_global());
    assert!(!main.is_undefined());
    assert_eq!(main.section_index(), Some(object::SectionIndex(1)));
    assert!(syms.next().is_none());
}

#[test]
fn elf64_dynamic_symbols_empty_without_dynamic_table() {
    // a static executable has no PT_DYNAMIC, so the dynamic table is empty
    let data = elf64_exec();
    let f = File::parse(&data).unwrap();
    assert!(f.dynamic_symbols().next().is_none());
}

#[test]
fn corrupt_elf_header_propagates_backend_error() {
    // ELF magic, but an invalid class byte: the backend refuses it
    let mut data = vec![0x7f, 0x45, 0x4c, 0x46, 9, 1, 1, 0];
    data.extend_from_slice(&[0u8; 56]);
    assert!(File::parse(&data).is_err());
    let err = File::parse(&data).unwrap_err();
    assert_ne!(err, "File too short");
    assert_ne!(err, "Unknown file magic");
}

#[test]
fn section_data_range_bounds() {
    let data = elf64_exec();
    let f = File::parse(&data).unwrap();
    let text = f.section_by_name(".text").unwrap();
    let window = text.data_range(0x1010, 4).expect("inside .text");
    assert_eq!(window, &[0x90; 4][..]);
    assert_eq!(text.data_range(0x1000, 0x200).unwrap().len(), 0x200);
    assert!(text.data_range(0x0fff, 1).is_none(), "before the section");
    assert!(text.data_range(0x1000, 0x201).is_none(), "past the section");
    assert!(text.data_range(u64::MAX, 2).is_none(), "offset overflow");
    assert!(text.data_range(0x1200, 1).is_none(), "at the end");
    assert_eq!(text.data_range(0x1200, 0).unwrap().len(), 0, "empty window at the end");
}

#[test]
fn uninitialized_section_has_no_stored_bytes() {
    // .bss: NOBITS, writable and allocated, sized but without stored bytes
    let shstrtab = b"\0.bss\0.shstrtab\0".to_vec();
    let payload = vec![(64usize, shstrtab.clone())];
    let shdrs = [
        Shdr64 { name: 0, sh_type: 0, flags: 0, addr: 0, off: 0, size: 0, link: 0, info: 0, align: 0, entsize: 0 },
        Shdr64 { name: 1, sh_type: 8, flags: 3, addr: 0x2000, off: 0, size: 0x100, link: 0, info: 0, align: 16, entsize: 0 },
        Shdr64 { name: 6, sh_type: 3, flags: 0, addr: 0, off: 64, size: shstrtab.len() as u64, link: 0, info: 0, align: 1, entsize: 0 },
    ];
    let data = build_elf64(62, 0, &payload, &shdrs, 2);
    let f = File::parse(&data).unwrap();
    let bss = f.section_by_name(".bss").unwrap();
    assert_eq!(bss.kind(), SectionKind::UninitializedData);
    assert_eq!(bss.size(), 0x100);
    assert_eq!(bss.data().len(), 0);
    // the window sits inside the address range but not the stored bytes
    assert!(bss.data_range(0x2000, 1).is_none());
}

/// A Mach-O 64 whose LC_MAIN entry arithmetic is controlled by the
/// builder: one `__TEXT` segment and one LC_MAIN command.
fn macho64_with_main(vmaddr: u64, fileoff: u64, entryoff: u64) -> Vec<u8> {
    let mut v = Vec::new();
    v.extend_from_slice(&[0xcf, 0xfa, 0xed, 0xfe]);
    p32(&mut v, 0x0100000c);
    p32(&mut v, 0);
    p32(&mut v, 2);
    p32(&mut v, 2); // ncmds
    p32(&mut v, 72 + 24); // sizeofcmds
    p32(&mut v, 0);
    p32(&mut v, 0);
    // LC_SEGMENT_64 without sections
    p32(&mut v, 0x19);
    p32(&mut v, 72);
    v.extend_from_slice(b"__TEXT\0\0\0\0\0\0\0\0\0\0");
    p64(&mut v, vmaddr);
    p64(&mut v, 0); // vmsize
    p64(&mut v, fileoff);
    p64(&mut v, 0); // filesize
    p32(&mut v, 5);
    p32(&mut v, 5);
    p32(&mut v, 0); // nsects
    p32(&mut v, 0);
    // LC_MAIN
    p32(&mut v, 0x80000028);
    p32(&mut v, 24);
    p64(&mut v, entryoff);
    p64(&mut v, 0); // stack size
    v
}

#[test]
fn macho64_main_entry_is_mapped() {
    let data = macho64_with_main(0x1000, 0, 0x500);
    let f = File::parse(&data).unwrap();
    assert_eq!(f.entry(), 0x1500, "entry offset mapped through the __TEXT base");
}

#[test]
fn macho64_overflowing_entry_arithmetic_is_rejected() {
    // the file offset exceeds the address: mapping the entry offset would
    // overflow, so parsing must reject the image rather than fault
    let data = macho64_with_main(0, 0x1000, 0x500);
    assert!(File::parse(&data).is_err());
    let data2 = macho64_with_main(u64::MAX, 0, 0x500);
    assert!(File::parse(&data2).is_err());
}

/// A zlib stream holding `payload` as one stored (uncompressed) deflate
/// block.
fn zlib_stored(payload: &[u8]) -> Vec<u8> {
    let mut v = vec![0x78u8, 0x01, 0x01];
    let n = payload.len() as u16;
    v.extend_from_slice(&n.to_le_bytes());
    v.extend_from_slice(&(!n).to_le_bytes());
    v.extend_from_slice(payload);
    let mut a: u32 = 1;
    let mut b: u32 = 0;
    for byte in payload {
        a = (a + *byte as u32) % 65521;
        b = (b + a) % 65521;
    }
    v.extend_from_slice(&((b << 16) | a).to_be_bytes());
    v
}

fn elf64_with_compressed_section(stream: &[u8]) -> Vec<u8> {
    // compression header: ELFCOMPRESS_ZLIB, reserved, ch_size, ch_addralign
    let mut content = Vec::new();
    p32(&mut content, 1);
    p32(&mut content, 0);
    p64(&mut content, 5);
    p64(&mut content, 1);
    content.extend_from_slice(stream);
    let shstrtab = b"\0.debug_zstr\0.shstrtab\0".to_vec();
    let payload = vec![(64usize, shstrtab.clone()), (96, content.clone())];
    let shdrs = [
        Shdr64 { name: 0, sh_type: 0, flags: 0, addr: 0, off: 0, size: 0, link: 0, info: 0, align: 0, entsize: 0 },
        Shdr64 { name: 1, sh_type: 1, flags: 0x800, addr: 0, off: 96, size: content.len() as u64, link: 0, info: 0, align: 1, entsize: 0 },
        Shdr64 { name: 13, sh_type: 3, flags: 0, addr: 0, off: 64, size: shstrtab.len() as u64, link: 0, info: 0, align: 1, entsize: 0 },
    ];
    build_elf64(62, 0, &payload, &shdrs, 2)
}

#[test]
fn elf64_compressed_section_inflates() {
    let data = elf64_with_compressed_section(&zlib_stored(b"hello"));
    let f = File::parse(&data).unwrap();
    let sec = f.section_by_name(".debug_zstr").unwrap();
    assert_ne!(sec.data().len(), 5, "the raw bytes keep the compression header");
    assert_eq!(sec.uncompressed_data(), b"hello");
    assert_eq!(f.section_data_by_name(".debug_zstr").unwrap(), b"hello");
}

#[test]
fn elf64_corrupt_compressed_section_serves_raw_bytes() {
    let data = elf64_with_compressed_section(&[0xffu8, 0xee, 0xdd]);
    let f = File::parse(&data).unwrap();
    let sec = f.section_by_name(".debug_zstr").unwrap();
    assert_eq!(sec.uncompressed_data(), sec.data(), "failure falls back to the raw bytes");
}

/// A Mach-O 64 with a `__TEXT` segment and two LC_MAIN commands; the
/// loader heeds only the first.
fn macho64_with_two_mains(entry1: u64, entry2: u64) -> Vec<u8> {
    let mut v = Vec::new();
    v.extend_from_slice(&[0xcf, 0xfa, 0xed, 0xfe]);
    p32(&mut v, 0x0100000c);
    p32(&mut v, 0);
    p32(&mut v, 2);
    p32(&mut v, 3); // ncmds
    p32(&mut v, 72 + 24 + 24); // sizeofcmds
    p32(&mut v, 0);
    p32(&mut v, 0);
    p32(&mut v, 0x19);
    p32(&mut v, 72);
    v.extend_from_slice(b"__TEXT\0\0\0\0\0\0\0\0\0\0");
    p64(&mut v, 0x1000); // vmaddr
    p64(&mut v, 0);
    p64(&mut v, 0); // fileoff
    p64(&mut v, 0);
    p32(&mut v, 5);
    p32(&mut v, 5);
    p32(&mut v, 0);
    p32(&mut v, 0);
    for entryoff in [entry1, entry2] {
        p32(&mut v, 0x80000028);
        p32(&mut v, 24);
        p64(&mut v, entryoff);
        p64(&mut v, 0);
    }
    v
}

#[test]
fn macho64_first_main_wins() {
    // the second command's offset would overflow, but only the first counts
    let data = macho64_with_two_mains(0x10, u64::MAX);
    let f = File::parse(&data).unwrap();
    assert_eq!(f.entry(), 0x1010);
    // the first command's offset overflows: rejected, whatever follows
    let data2 = macho64_with_two_mains(u64::MAX, 0x10);
    assert!(File::parse(&data2).is_err());
}

/// A big-endian ELF32 (ARM) with a `.note.gnu.build-id` section, every
/// multi-byte field byte-swapped.
fn elf32_be_with_build_id() -> Vec<u8> {
    let pb16 = |v: &mut Vec<u8>, x: u16| v.extend_from_slice(&x.to_be_bytes());
    let pb32 = |v: &mut Vec<u8>, x: u32| v.extend_from_slice(&x.to_be_bytes());
    let mut note = Vec::new();
    pb32(&mut note, 4); // namesz
    pb32(&mut note, 20); // descsz
    pb32(&mut note, 3); // NT_GNU_BUILD_ID
    note.extend_from_slice(b"GNU\0");
    note.extend_from_slice(&[0xcd; 20]);
    let shstrtab = b"\0.note.gnu.build-id\0.shstrtab\0".to_vec();
    let mut v = Vec::new();
    v.extend_from_slice(&[0x7f, 0x45, 0x4c, 0x46, 1, 2, 1, 0]);
    v.extend_from_slice(&[0; 8]);
    pb16(&mut v, 2); // ET_EXEC
    pb16(&mut v, 40); // ARM
    pb32(&mut v, 1);
    pb32(&mut v, 0); // entry
    pb32(&mut v, 0); // phoff
    pb32(&mut v, 192); // shoff
    pb32(&mut v, 0);
    pb16(&mut v, 52);
    pb16(&mut v, 0);
    pb16(&mut v, 0);
    pb16(&mut v, 40);
    pb16(&mut v, 3);
    pb16(&mut v, 2);
    pad_to(&mut v, 64);
    v.extend_from_slice(&note);
    pad_to(&mut v, 128);
    v.extend_from_slice(&shstrtab);
    pad_to(&mut v, 192);
    let shdr32be = |v: &mut Vec<u8>, name: u32, t: u32, off: u32, size: u32| {
        pb32(v, name);
        pb32(v, t);
        pb32(v, 0);
        pb32(v, 0);
        pb32(v, off);
        pb32(v, size);
        pb32(v, 0);
        pb32(v, 0);
        pb32(v, 4);
        pb32(v, 0);
    };
    shdr32be(&mut v, 0, 0, 0, 0);
    shdr32be(&mut v, 1, 7, 64, note.len() as u32);
    shdr32be(&mut v, 20, 3, 128, shstrtab.len() as u32);
    v
}

#[test]
fn elf32_big_endian_build_id() {
    let data = elf32_be_with_build_id();
    let f = File::parse(&data).unwrap();
    assert_eq!(f.format(), Format::Elf32);
    assert!(!f.is_little_endian());
    assert_eq!(f.machine(), Machine::Arm);
    let id = f.build_id().expect("build id present");
    assert_eq!(id, &[0xcd; 20][..]);
}
