//! Cross-format model types: formats, machines, section and symbol
//! taxonomies, and the Symbol and Relocation value records.

use vstd::prelude::*;

verus! {

/// The object file format, tagged with its bitness.
#[derive(Debug, Clone, Copy, PartialEq, Eq, Structural)]
pub enum Format {
    /// 32-bit ELF
    Elf32,
    /// 64-bit ELF
    Elf64,
    /// 32-bit Mach-O
    MachO32,
    /// 64-bit Mach-O
    MachO64,
    /// 32-bit PE
    Pe32,
    /// 64-bit PE
    Pe64,
    /// WebAssembly
    Wasm,
}

/// The machine type of an object file.
#[derive(Debug, Clone, Copy, PartialEq, Eq, Structural)]
pub enum Machine {
    /// An unrecognized machine type.
    Other,
    /// ARM
    Arm,
    /// ARM64
    Arm64,
    /// x86
    X86,
    /// x86-64
    X86_64,
    /// MIPS
    Mips,
}

/// The index used to identify a section of a file. Backend-defined
/// numbering: neither contiguity nor a base value is assumed.
#[derive(Debug, Clone, Copy, PartialEq, Eq, Hash, Structural)]
pub struct SectionIndex(pub usize);

/// The kind of a section, independent of the container format.
#[derive(Debug, Clone, Copy, PartialEq, Eq, Structural)]
pub enum SectionKind {
    /// The section kind is unknown.
    Unknown,
    /// An executable code section (ELF `.text`).
    Text,
    /// A writable data section (ELF `.data`).
    Data,
    /// A read only data section (ELF `.rodata`).
    ReadOnlyData,
    /// A loadable string section (ELF `.rodata.str`).
    ReadOnlyString,
    /// An uninitialized data section (ELF `.bss`).
    UninitializedData,
    /// A TLS data section (ELF `.tdata`).
    Tls,
    /// An uninitialized TLS data section (ELF `.tbss`).
    UninitializedTls,
    /// A non-loadable string section (ELF `.comment`, `.debug_str`).
    OtherString,
    /// Some other non-loadable section (ELF `.debug_info`).
    Other,
    /// Metadata such as symbol or relocation tables (ELF `.symtab`).
    Metadata,
}

/// The index used to identify a symbol of a file.
#[derive(Debug, Clone, Copy, PartialEq, Eq, Hash, Structural)]
pub struct SymbolIndex(pub usize);

/// The kind of a symbol.
#[derive(Debug, Clone, Copy, PartialEq, Eq, Structural)]
pub enum SymbolKind {
    /// The symbol kind is unknown.
    Unknown,
    /// The symbol is a null placeholder.
    Null,
    /// The symbol is for executable code.
    Text,
    /// The symbol is for a data object.
    Data,
    /// The symbol is for a section.
    Section,
    /// The symbol is the name of a file; it precedes symbols within that file.
    File,
    /// The symbol is for an uninitialized common block.
    Common,
    /// The symbol is for a thread local storage entity.
    Tls,
}

/// A symbol table entry.
#[derive(Debug)]
pub struct Symbol {
    pub kind: SymbolKind,
    pub section_index: Option<SectionIndex>,
    pub undefined: bool,
    pub global: bool,
    pub name: Option<String>,
    pub address: u64,
    pub size: u64,
}

/// Two symbols carry the same record: every field equal, names compared
/// as character sequences.
pub open spec fn sym_eq(a: Symbol, b: Symbol) -> bool {
    &&& a.kind == b.kind
    &&& a.section_index == b.section_index
    &&& a.undefined == b.undefined
    &&& a.global == b.global
    &&& a.name.deep_view() == b.name.deep_view()
    &&& a.address == b.address
    &&& a.size == b.size
}

impl Clone for Symbol {
    /// The clone is the same record.
    fn clone(&self) -> (r: Self)
        ensures
            r == *self,
            sym_eq(r, *self),
    {
        Symbol {
            kind: self.kind,
            section_index: self.section_index,
            undefined: self.undefined,
            global: self.global,
            name: match &self.name {
                Some(n) => Some(n.clone()),
                None => None,
            },
            address: self.address,
            size: self.size,
        }
    }
}

impl Symbol {
    /// Return the kind of this symbol.
    pub fn kind(&self) -> (r: SymbolKind)
        ensures
            r == self.kind,
    {
        self.kind
    }

    /// Return the index of the section containing this symbol, or `None`
    /// when the section is unknown or the symbol is undefined.
    pub fn section_index(&self) -> (r: Option<SectionIndex>)
        ensures
            r == self.section_index,
    {
        self.section_index
    }

    /// Return true if the symbol is undefined.
    pub fn is_undefined(&self) -> (r: bool)
        ensures
            r == self.undefined,
    {
        self.undefined
    }

    /// Return true if the symbol is global.
    pub fn is_global(&self) -> (r: bool)
        ensures
            r == self.global,
    {
        self.global
    }

    /// Return true if the symbol is local.
    pub fn is_local(&self) -> (r: bool)
        ensures
            r == !self.global,
    {
        !self.is_global()
    }

    /// The name of the symbol, if the symbol table records one.
    pub fn name(&self) -> (r: Option<&str>)
        ensures
            match r {
                Some(n) => self.name matches Some(m) && m@ == n@,
                None => self.name is None,
            },
    {
        match &self.name {
            Some(n) => Some(n.as_str()),
            None => None,
        }
    }

    /// The address of the symbol. May be zero if the address is unknown.
    pub fn address(&self) -> (r: u64)
        ensures
            r == self.address,
    {
        self.address
    }

    /// The size of the symbol. May be zero if the size is unknown.
    pub fn size(&self) -> (r: u64)
        ensures
            r == self.size,
    {
        self.size
    }
}

/// The kind of a relocation: the computation it stands for, where A is the
/// addend, S the symbol address, P the place, G the symbol's GOT entry
/// address, GOT the GOT base and L the symbol's PLT entry address.
#[derive(Debug, Clone, Copy, PartialEq, Eq, Structural)]
pub enum RelocationKind {
    /// S + A
    Absolute,
    /// S + A, signed
    AbsoluteSigned,
    /// S + A - P
    Relative,
    /// G + A - GOT
    GotOffset,
    /// G + A - P
    GotRelative,
    /// L + A - P
    PltRelative,
    /// Some other kind of relocation; the value depends on file format
    /// and machine.
    Other(u32),
}

/// A relocation entry.
#[derive(Debug)]
pub struct Relocation {
    pub kind: RelocationKind,
    pub size: u8,
    pub symbol: SymbolIndex,
    pub addend: i64,
    pub implicit_addend: bool,
}

impl Clone for Relocation {
    /// The clone carries the same record.
    fn clone(&self) -> (r: Self)
        ensures
            r == *self,
    {
        Relocation {
            kind: self.kind,
            size: self.size,
            symbol: self.symbol,
            addend: self.addend,
            implicit_addend: self.implicit_addend,
        }
    }
}

impl Relocation {
    /// The kind of the relocation.
    pub fn kind(&self) -> (r: RelocationKind)
        ensures
            r == self.kind,
    {
        self.kind
    }

    /// The size in bits of the place of the relocation. A size of zero
    /// means the size is implied by the relocation kind; the sentinel is
    /// preserved, never normalized to a derived width.
    pub fn size(&self) -> (r: u8)
        ensures
            r == self.size,
    {
        self.size
    }

    /// The index of the symbol within the symbol table, if applicable.
    pub fn symbol(&self) -> (r: SymbolIndex)
        ensures
            r == self.symbol,
    {
        self.symbol
    }

    /// The addend to use in the relocation calculation.
    pub fn addend(&self) -> (r: i64)
        ensures
            r == self.addend,
    {
        self.addend
    }

    /// Set the addend to use in the relocation calculation.
    pub fn set_addend(&mut self, addend: i64)
        ensures
            *final(self) == (Relocation { addend, ..*old(self) }),
    {
        self.addend = addend
    }

    /// True if an implicit addend is stored in the data at the offset to
    /// be relocated.
    pub fn has_implicit_addend(&self) -> (r: bool)
        ensures
            r == self.implicit_addend,
    {
        self.implicit_addend
    }
}

} // verus!
