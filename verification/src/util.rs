//! Bounds-checked slice extraction by (data base address, requested address, size).

use vstd::prelude::*;
use vstd::slice::slice_index_get;
use vstd::slice::slice_subrange;
use vstd::slice::slice_to_vec;
use vstd::string::StrSliceExecFns;

verus! {

/// True when the window `[range_address, range_address + size)` starts at or
/// after `data_address` and ends within the `data_len` bytes that begin at
/// `data_address`. Stated over unbounded integers, so an overflowing
/// `range_address - data_address + size` simply fails the bound.
pub open spec fn range_in_data(
    data_len: nat,
    data_address: u64,
    range_address: u64,
    size: u64,
) -> bool {
    &&& range_address >= data_address
    &&& range_address - data_address + size <= data_len
}

/// Return the bytes of `data` (whose first byte sits at virtual address
/// `data_address`) that cover `[range_address, range_address + size)`, or
/// `None` when that window is not fully inside `data`. All arithmetic is
/// checked: an overflowing offset yields `None`.
pub fn data_range<'a>(
    data: &'a [u8],
    data_address: u64,
    range_address: u64,
    size: u64,
) -> (r: Option<&'a [u8]>)
    ensures
        match r {
            Some(d) => {
                &&& range_in_data(data@.len(), data_address, range_address, size)
                &&& d@ == data@.subrange(
                    range_address - data_address,
                    range_address - data_address + size,
                )
                &&& d@.len() == size
            },
            None => !range_in_data(data@.len(), data_address, range_address, size),
        },
{
    let len: usize = data.len();
    if range_address >= data_address {
        let start: u64 = range_address - data_address;
        if size <= u64::MAX - start {
            let end: u64 = start + size;
            if end <= len as u64 {
                let out = slice_subrange(data, start as usize, end as usize);
                return Some(out);
            }
        }
    }
    None
}

/// The two bytes of `s` at `i`, read as a little-endian 16-bit word.
pub open spec fn u16_le_at(s: Seq<u8>, i: int) -> int {
    s[i] + s[i + 1] * 0x100
}

/// The two bytes of `s` at `i`, read as a big-endian 16-bit word.
pub open spec fn u16_be_at(s: Seq<u8>, i: int) -> int {
    s[i] * 0x100 + s[i + 1]
}

/// The eight bytes of `s` at `i`, read as a little-endian 64-bit word.
pub open spec fn u64_le_at(s: Seq<u8>, i: int) -> int {
    u32_le_at(s, i) + u32_le_at(s, i + 4) * 0x100000000
}

/// The eight bytes of `s` at `i`, read as a big-endian 64-bit word.
pub open spec fn u64_be_at(s: Seq<u8>, i: int) -> int {
    u32_be_at(s, i) * 0x100000000 + u32_be_at(s, i + 4)
}

/// The four bytes of `s` at `i`, read as a little-endian 32-bit word.
pub open spec fn u32_le_at(s: Seq<u8>, i: int) -> int {
    s[i] + s[i + 1] * 0x100 + s[i + 2] * 0x10000 + s[i + 3] * 0x1000000
}

/// The four bytes of `s` at `i`, read as a big-endian 32-bit word.
pub open spec fn u32_be_at(s: Seq<u8>, i: int) -> int {
    s[i] * 0x1000000 + s[i + 1] * 0x10000 + s[i + 2] * 0x100 + s[i + 3]
}

/// Read a little-endian 32-bit word.
pub fn read_u32_le(data: &[u8], i: usize) -> (r: u32)
    requires
        i + 4 <= data@.len(),
    ensures
        r == u32_le_at(data@, i as int),
{
    let len: usize = data.len();
    let b0 = *slice_index_get(data, i) as u32;
    let b1 = *slice_index_get(data, i + 1) as u32;
    let b2 = *slice_index_get(data, i + 2) as u32;
    let b3 = *slice_index_get(data, i + 3) as u32;
    b0 + b1 * 0x100 + b2 * 0x10000 + b3 * 0x1000000
}

/// Read a big-endian 32-bit word.
pub fn read_u32_be(data: &[u8], i: usize) -> (r: u32)
    requires
        i + 4 <= data@.len(),
    ensures
        r == u32_be_at(data@, i as int),
{
    let len: usize = data.len();
    let b0 = *slice_index_get(data, i) as u32;
    let b1 = *slice_index_get(data, i + 1) as u32;
    let b2 = *slice_index_get(data, i + 2) as u32;
    let b3 = *slice_index_get(data, i + 3) as u32;
    b0 * 0x1000000 + b1 * 0x10000 + b2 * 0x100 + b3
}

/// Read a 32-bit word in the byte order named by `little_endian`.
pub fn read_u32(data: &[u8], i: usize, little_endian: bool) -> (r: u32)
    requires
        i + 4 <= data@.len(),
    ensures
        little_endian ==> r == u32_le_at(data@, i as int),
        !little_endian ==> r == u32_be_at(data@, i as int),
{
    if little_endian {
        read_u32_le(data, i)
    } else {
        read_u32_be(data, i)
    }
}

/// A 16-bit word of `s` at `i`, in the byte order named by `le`.
pub open spec fn u16_at(s: Seq<u8>, i: int, le: bool) -> int {
    if le {
        u16_le_at(s, i)
    } else {
        u16_be_at(s, i)
    }
}

/// A 32-bit word of `s` at `i`, in the byte order named by `le`.
pub open spec fn u32_at(s: Seq<u8>, i: int, le: bool) -> int {
    if le {
        u32_le_at(s, i)
    } else {
        u32_be_at(s, i)
    }
}

/// A 64-bit word of `s` at `i`, in the byte order named by `le`.
pub open spec fn u64_at(s: Seq<u8>, i: int, le: bool) -> int {
    if le {
        u64_le_at(s, i)
    } else {
        u64_be_at(s, i)
    }
}

/// Read a 16-bit word in the byte order named by `little_endian`.
pub fn read_u16(data: &[u8], i: usize, little_endian: bool) -> (r: u16)
    requires
        i + 2 <= data@.len(),
    ensures
        r == u16_at(data@, i as int, little_endian),
{
    let len: usize = data.len();
    let b0 = *slice_index_get(data, i) as u16;
    let b1 = *slice_index_get(data, i + 1) as u16;
    if little_endian {
        b0 + b1 * 0x100
    } else {
        b0 * 0x100 + b1
    }
}

/// Read a 64-bit word in the byte order named by `little_endian`.
pub fn read_u64(data: &[u8], i: usize, little_endian: bool) -> (r: u64)
    requires
        i + 8 <= data@.len(),
    ensures
        r == u64_at(data@, i as int, little_endian),
{
    let len: usize = data.len();
    let lo = read_u32(data, i, little_endian) as u64;
    let hi = read_u32(data, i + 4, little_endian) as u64;
    if little_endian {
        lo + hi * 0x100000000
    } else {
        lo * 0x100000000 + hi
    }
}

/// Copy the window of `size` bytes at file offset `offset` out of `data`;
/// a window that leaves `data`, or whose end overflows, comes back empty.
pub fn copy_window(data: &[u8], offset: u64, size: u64) -> (r: Vec<u8>)
    ensures
        offset + size <= data@.len() ==> r@ == data@.subrange(
            offset as int,
            offset as int + size as int,
        ),
        offset + size > data@.len() ==> r@ == Seq::<u8>::empty(),
{
    match data_range(data, 0, offset, size) {
        Some(w) => slice_to_vec(w),
        None => Vec::new(),
    }
}

/// The distance from `x` up to the next multiple of four.
pub open spec fn pad4(x: int) -> int {
    if x % 4 == 0 {
        0
    } else {
        4 - x % 4
    }
}

/// `p` opens `s`.
pub open spec fn has_prefix(s: Seq<char>, p: Seq<char>) -> bool {
    p.len() <= s.len() && s.take(p.len() as int) == p
}

/// Decide whether `p` opens `s`.
pub fn str_has_prefix(s: &str, p: &str) -> (r: bool)
    ensures
        r == has_prefix(s@, p@),
{
    let sn = s.unicode_len();
    let pn = p.unicode_len();
    if pn > sn {
        return false;
    }
    for i in 0..pn
        invariant
            pn == p@.len(),
            sn == s@.len(),
            pn <= sn,
            forall|j: int| 0 <= j < i ==> s@[j] == p@[j],
    {
        if s.get_char(i) != p.get_char(i) {
            assert(s@.take(pn as int)[i as int] != p@[i as int]);
            return false;
        }
    }
    proof {
        assert(s@.take(pn as int) =~= p@);
    }
    true
}

} // verus!

