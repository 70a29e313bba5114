//! A read-only object-file inspection library.
//!
//! One polymorphic view over the ELF (32/64), Mach-O (32/64) and PE/COFF
//! (32/64) executable container formats, plus a WebAssembly module view.
//! `File::parse` sniffs the magic of a byte buffer, dispatches to the
//! matching format backend, and exposes segments, sections, symbols,
//! relocations and identity metadata through one uniform shape.

pub mod classify;
pub mod decode;
pub mod elf;
pub mod file;
pub mod macho;
pub mod model;
pub mod pe;
pub mod records;
pub mod sniff;
pub mod symbolmap;
pub mod util;
pub mod wasm;

pub use elf::ElfFile;
pub use file::File;
pub use file::RelocationIterator;
pub use file::Section;
pub use file::SectionIterator;
pub use file::Segment;
pub use file::SegmentIterator;
pub use file::SymbolIterator;
pub use macho::MachOFile;
pub use model::Format;
pub use model::Machine;
pub use model::Relocation;
pub use model::RelocationKind;
pub use model::SectionIndex;
pub use model::SectionKind;
pub use model::Symbol;
pub use model::SymbolIndex;
pub use model::SymbolKind;
pub use pe::PeFile;
pub use symbolmap::SymbolMap;
pub use util::data_range;
pub use uuid::Uuid;
pub use wasm::WasmFile;
