//! The WebAssembly backend: a verified sweep over the module's sections.
//! A module is the 4-byte preamble magic, a 4-byte version that must be 1,
//! and then a run of sections, each an id byte followed by a LEB128 size
//! and that many payload bytes.

use vstd::prelude::*;
use vstd::slice::slice_index_get;
use vstd::string::StringExecFns;

use crate::model::SectionKind;
use crate::model::Symbol;
use crate::records::SectionRecord;
use crate::records::SegmentRecord;
use crate::sniff;
use crate::util;

verus! {

/// A parsed WebAssembly module. Wasm is always little-endian, has no
/// entry address, no machine type and no symbol table here.
#[derive(Debug)]
pub struct WasmFile {
    pub sections: Vec<SectionRecord>,
    pub segments: Vec<SegmentRecord>,
    pub symbols: Vec<Symbol>,
    pub dynamic_symbols: Vec<Symbol>,
}

/// The version field of the preamble is 1.
pub open spec fn wasm_version_ok(s: Seq<u8>) -> bool {
    s.len() >= 8 && s[4] == 1u8 && s[5] == 0u8 && s[6] == 0u8 && s[7] == 0u8
}

/// The section kind a Wasm section id stands for: the code section is
/// text, the data section is data, anything else is not classified.
pub open spec fn spec_wasm_section_kind(id: u8) -> SectionKind {
    if id == 10 {
        SectionKind::Text
    } else if id == 11 {
        SectionKind::Data
    } else {
        SectionKind::Unknown
    }
}

/// Classify a Wasm section id.
pub fn wasm_section_kind(id: u8) -> (r: SectionKind)
    ensures
        r == spec_wasm_section_kind(id),
{
    if id == 10 {
        SectionKind::Text
    } else if id == 11 {
        SectionKind::Data
    } else {
        SectionKind::Unknown
    }
}

/// The value and end position of a LEB128 group sequence of at most `k`
/// bytes starting at `pos`: seven value bits per byte, low group first, the
/// high bit marking continuation.
pub open spec fn spec_leb_u32(s: Seq<u8>, pos: int, k: nat) -> Option<(int, int)>
    decreases k,
{
    if pos < 0 || pos >= s.len() || k == 0 {
        None
    } else {
        let b = s[pos];
        if b < 128 {
            Some((b as int, pos + 1))
        } else {
            match spec_leb_u32(s, pos + 1, (k - 1) as nat) {
                Some(p) => Some((b - 128 + 128 * p.0, p.1)),
                None => None,
            }
        }
    }
}

/// From `pos`, the rest of `s` is a run of well-formed sections: an id
/// byte, a LEB128 size of at most five bytes that fits in 32 bits, and
/// that many payload bytes, ending exactly at the end of `s`. Every
/// section takes at least two bytes, so `fuel` bounds the recursion.
pub open spec fn wasm_sections_wf(s: Seq<u8>, pos: int, fuel: nat) -> bool
    decreases fuel,
{
    if pos == s.len() {
        true
    } else if pos > s.len() || fuel == 0 {
        false
    } else {
        match spec_leb_u32(s, pos + 1, 5) {
            Some(p) => p.0 <= u32::MAX && p.1 + p.0 <= s.len() && wasm_sections_wf(
                s,
                p.1 + p.0,
                (fuel - 1) as nat,
            ),
            None => false,
        }
    }
}

/// The sections the walk yields: one (id, size, payload start) triple per
/// well-formed section, in on-disk order, cut short where the walk fails.
pub open spec fn wasm_section_list(s: Seq<u8>, pos: int, fuel: nat) -> Seq<(u8, int, int)>
    decreases fuel,
{
    if pos < 0 || pos >= s.len() || fuel == 0 {
        Seq::empty()
    } else {
        match spec_leb_u32(s, pos + 1, 5) {
            Some(p) => if p.0 <= u32::MAX && p.1 + p.0 <= s.len() {
                seq![(s[pos], p.0, p.1)] + wasm_section_list(s, p.1 + p.0, (fuel - 1) as nat)
            } else {
                Seq::empty()
            },
            None => Seq::empty(),
        }
    }
}

/// A well-formed module: the preamble magic, version 1, and a run of
/// well-formed sections filling the rest of the buffer.
pub open spec fn wasm_module_wf(s: Seq<u8>) -> bool {
    &&& s.len() >= 8
    &&& sniff::is_wasm_magic(s)
    &&& wasm_version_ok(s)
    &&& wasm_sections_wf(s, 8, s.len())
}

/// Read a LEB128-encoded 32-bit unsigned integer: up to five bytes, seven
/// value bits each, low group first.
fn read_leb_u32(data: &[u8], pos: usize) -> (r: Option<(u32, usize)>)
    ensures
        r matches Some(p) ==> pos < p.1 <= data@.len(),
        r matches Some(p) ==> spec_leb_u32(data@, pos as int, 5) == Some((p.0 as int, p.1 as int)),
        r is None ==> !(spec_leb_u32(data@, pos as int, 5) matches Some(q) && q.0 <= u32::MAX),
{
    let len: usize = data.len();
    if pos >= len {
        return None;
    }
    let b0 = *slice_index_get(data, pos);
    let l0: u64 = low_bits(b0) as u64;
    if b0 < 0x80 {
        return Some((l0 as u32, pos + 1));
    }
    if pos + 1 >= len {
        proof {
            assert(spec_leb_u32(data@, pos + 1, 4) is None);
        }
        return None;
    }
    let b1 = *slice_index_get(data, pos + 1);
    let l1: u64 = low_bits(b1) as u64;
    proof {
        assert(spec_leb_u32(data@, pos + 1, 4) == (if b1 < 128 {
            Some((b1 as int, pos + 2 as int))
        } else {
            match spec_leb_u32(data@, pos + 2, 3) {
                Some(p) => Some((b1 - 128 + 128 * p.0, p.1)),
                None => None::<(int, int)>,
            }
        }));
    }
    if b1 < 0x80 {
        return Some(((l0 + l1 * 0x80) as u32, pos + 2));
    }
    if pos + 2 >= len {
        proof {
            assert(spec_leb_u32(data@, pos + 2, 3) is None);
        }
        return None;
    }
    let b2 = *slice_index_get(data, pos + 2);
    let l2: u64 = low_bits(b2) as u64;
    proof {
        assert(spec_leb_u32(data@, pos + 2, 3) == (if b2 < 128 {
            Some((b2 as int, pos + 3 as int))
        } else {
            match spec_leb_u32(data@, pos + 3, 2) {
                Some(p) => Some((b2 - 128 + 128 * p.0, p.1)),
                None => None::<(int, int)>,
            }
        }));
    }
    if b2 < 0x80 {
        return Some(((l0 + l1 * 0x80 + l2 * 0x4000) as u32, pos + 3));
    }
    if pos + 3 >= len {
        proof {
            assert(spec_leb_u32(data@, pos + 3, 2) is None);
        }
        return None;
    }
    let b3 = *slice_index_get(data, pos + 3);
    let l3: u64 = low_bits(b3) as u64;
    proof {
        assert(spec_leb_u32(data@, pos + 3, 2) == (if b3 < 128 {
            Some((b3 as int, pos + 4 as int))
        } else {
            match spec_leb_u32(data@, pos + 4, 1) {
                Some(p) => Some((b3 - 128 + 128 * p.0, p.1)),
                None => None::<(int, int)>,
            }
        }));
    }
    if b3 < 0x80 {
        return Some(((l0 + l1 * 0x80 + l2 * 0x4000 + l3 * 0x200000) as u32, pos + 4));
    }
    if pos + 4 >= len {
        proof {
            assert(spec_leb_u32(data@, pos + 4, 1) is None);
        }
        return None;
    }
    let b4 = *slice_index_get(data, pos + 4);
    let l4: u64 = low_bits(b4) as u64;
    proof {
        assert(spec_leb_u32(data@, pos + 5, 0) is None);
        assert(spec_leb_u32(data@, pos + 4, 1) == (if b4 < 128 {
            Some((b4 as int, pos + 5 as int))
        } else {
            None::<(int, int)>
        }));
    }
    if b4 < 0x80 {
        let value: u64 = l0 + l1 * 0x80 + l2 * 0x4000 + l3 * 0x200000 + l4 * 0x10000000;
        if value <= u32::MAX as u64 {
            return Some((value as u32, pos + 5));
        }
    }
    None
}

/// The seven value bits of one LEB128 group.
fn low_bits(b: u8) -> (r: u8)
    ensures
        r == b & 0x7f,
        r < 0x80,
        b < 0x80 ==> r == b,
        b >= 0x80 ==> r == b - 0x80,
{
    proof {
        assert(b & 0x7f < 0x80) by (bit_vector);
        assert(b < 0x80 ==> b & 0x7f == b) by (bit_vector);
        assert(b >= 0x80 ==> b & 0x7f == b - 0x80) by (bit_vector);
    }
    b & 0x7f
}

impl WasmFile {
    /// Parse a WebAssembly module: check the preamble, then sweep the
    /// sections. A module is accepted exactly when the magic and version
    /// are right and every section's size stays inside the buffer.
    pub fn parse(data: &[u8]) -> (r: Result<WasmFile, String>)
        ensures
            r is Ok <==> wasm_module_wf(data@),
            r matches Ok(w) ==> {
                let l = wasm_section_list(data@, 8, data@.len() as nat);
                &&& w.sections@.len() == l.len()
                &&& forall|i: int|
                    0 <= i < l.len() ==> {
                        let rec = #[trigger] w.sections@[i];
                        &&& rec.index == i
                        &&& rec.kind == spec_wasm_section_kind(l[i].0)
                        &&& rec.size == l[i].1
                        &&& rec.address == 0
                        &&& rec.data@ == data@.subrange(l[i].2, l[i].2 + l[i].1)
                    }
            },
    {
        let len: usize = data.len();
        if len < 8 {
            return Err(String::from_str("Wasm module too short"));
        }
        let b0 = *slice_index_get(data, 0);
        let b1 = *slice_index_get(data, 1);
        let b2 = *slice_index_get(data, 2);
        let b3 = *slice_index_get(data, 3);
        if !(b0 == 0x00 && b1 == 0x61 && b2 == 0x73 && b3 == 0x6d) {
            return Err(String::from_str("Bad wasm magic"));
        }
        let v0 = *slice_index_get(data, 4);
        let v1 = *slice_index_get(data, 5);
        let v2 = *slice_index_get(data, 6);
        let v3 = *slice_index_get(data, 7);
        if !(v0 == 1 && v1 == 0 && v2 == 0 && v3 == 0) {
            return Err(String::from_str("Unknown wasm version"));
        }

        let mut sections: Vec<SectionRecord> = Vec::new();
        let mut index: usize = 0;
        let mut pos: usize = 8;
        let ghost mut fuel: nat = len as nat;
        let ghost full = wasm_section_list(data@, 8, len as nat);
        while pos < len
            invariant
                len == data@.len(),
                8 <= len,
                pos <= len,
                index <= pos,
                index == sections@.len(),
                sniff::is_wasm_magic(data@),
                wasm_version_ok(data@),
                fuel >= len - pos,
                wasm_sections_wf(data@, pos as int, fuel) == wasm_sections_wf(
                    data@,
                    8,
                    data@.len(),
                ),
                full == wasm_section_list(data@, 8, len as nat),
                sections@.len() <= full.len(),
                wasm_section_list(data@, pos as int, fuel) =~= full.skip(sections@.len() as int),
                forall|i: int|
                    0 <= i < sections@.len() ==> {
                        let rec = #[trigger] sections@[i];
                        &&& rec.index == i
                        &&& rec.kind == spec_wasm_section_kind(full[i].0)
                        &&& rec.size == full[i].1
                        &&& rec.address == 0
                        &&& rec.data@ == data@.subrange(full[i].2, full[i].2 + full[i].1)
                    },
            decreases len - pos,
        {
            let id = *slice_index_get(data, pos);
            let (size, next) = match read_leb_u32(data, pos + 1) {
                Some(p) => p,
                None => {
                    proof {
                        assert(!wasm_sections_wf(data@, pos as int, fuel));
                    }
                    return Err(String::from_str("Bad wasm section size"));
                },
            };
            if size as u64 > (len - next) as u64 {
                proof {
                    assert(!wasm_sections_wf(data@, pos as int, fuel));
                }
                return Err(String::from_str("Wasm section out of bounds"));
            }
            let payload_end: usize = next + size as usize;
            proof {
                assert(wasm_sections_wf(data@, pos as int, fuel) == wasm_sections_wf(
                    data@,
                    payload_end as int,
                    (fuel - 1) as nat,
                ));
                assert(wasm_section_list(data@, pos as int, fuel) =~= seq![
                    (data@[pos as int], size as int, next as int),
                ] + wasm_section_list(data@, payload_end as int, (fuel - 1) as nat));
                let k = sections@.len() as int;
                let t = (data@[pos as int], size as int, next as int);
                let rest = wasm_section_list(data@, payload_end as int, (fuel - 1) as nat);
                assert(full.skip(k) == seq![t] + rest);
                assert(full.skip(k)[0] == full[k]);
                assert((seq![t] + rest)[0] == t);
                assert(full[k] == t);
                assert(full.skip(k).len() == full.len() - k);
                assert(rest.len() == full.len() - k - 1);
                assert forall|i2: int| 0 <= i2 < rest.len() implies rest[i2] == full.skip(k + 1)[i2] by {
                    assert((seq![t] + rest)[i2 + 1] == rest[i2]);
                    assert(full.skip(k)[i2 + 1] == full[k + 1 + i2]);
                    assert(full.skip(k + 1)[i2] == full[k + 1 + i2]);
                }
                assert(rest =~= full.skip(k + 1));
            }
            sections.push(
                SectionRecord {
                    index,
                    name: None,
                    segment_name: None,
                    address: 0,
                    size: size as u64,
                    align: 0,
                    kind: wasm_section_kind(id),
                    data: util::copy_window(data, next as u64, size as u64),
                    uncompressed: None,
                    relocs: Vec::new(),
                },
            );
            index = index + 1;
            pos = payload_end;
            proof {
                fuel = (fuel - 1) as nat;
            }
        }
        proof {
            assert(wasm_sections_wf(data@, pos as int, fuel));
            assert(wasm_section_list(data@, pos as int, fuel) =~= Seq::<(u8, int, int)>::empty());
            assert(sections@.len() == full.len());
        }
        Ok(
            WasmFile {
                sections,
                segments: Vec::new(),
                symbols: Vec::new(),
                dynamic_symbols: Vec::new(),
            },
        )
    }
}

} // verus!
