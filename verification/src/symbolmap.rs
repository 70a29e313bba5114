//! A filtered, address-sorted snapshot of a file's symbols, supporting
//! address lookup by binary search.

use vstd::prelude::*;

use crate::model::Symbol;
use crate::model::SymbolKind;
use crate::model::sym_eq;

verus! {

/// A symbol is admitted into a `SymbolMap` when its kind is one of
/// `Unknown`, `Text` or `Data`, it is defined, and its size is non-zero.
pub open spec fn admitted(s: Symbol) -> bool {
    &&& (s.kind == SymbolKind::Unknown || s.kind == SymbolKind::Text || s.kind
        == SymbolKind::Data)
    &&& !s.undefined
    &&& s.size > 0
}

/// The half-open range `[s.address, s.address + s.size)` covers `a`.
pub open spec fn contains_addr(s: Symbol, a: u64) -> bool {
    s.address <= a < s.address + s.size
}

/// Symbol addresses ascend.
pub open spec fn sorted_by_address(s: Seq<Symbol>) -> bool {
    forall|i: int, j: int| 0 <= i < j < s.len() ==> #[trigger] s[i].address <= #[trigger] s[j].address
}

/// The half-open address ranges of the symbols are pairwise disjoint, in
/// ascending order.
pub open spec fn non_overlapping(s: Seq<Symbol>) -> bool {
    forall|i: int, j: int|
        0 <= i < j < s.len() ==> #[trigger] s[i].address + s[i].size <= #[trigger] s[j].address
}

/// The position before the first entry of `s` whose address exceeds `a`.
pub open spec fn spec_insert_pos(s: Seq<Symbol>, a: u64) -> int
    decreases s.len(),
{
    if s.len() == 0 {
        0
    } else if s[0].address > a {
        0
    } else {
        1 + spec_insert_pos(s.drop_first(), a)
    }
}

/// The map built over `src`: each admitted symbol of `src`, in order,
/// inserted before the first held entry whose address exceeds its own — so
/// exactly the admitted symbols are held, addresses ascend, and equal
/// addresses keep their order in `src`.
pub open spec fn spec_symbol_map(src: Seq<Symbol>) -> Seq<Symbol>
    decreases src.len(),
{
    if src.len() == 0 {
        Seq::<Symbol>::empty()
    } else {
        let prev = spec_symbol_map(src.drop_last());
        let x = src.last();
        if admitted(x) {
            prev.insert(spec_insert_pos(prev, x.address), x)
        } else {
            prev
        }
    }
}

/// The boundary characterization of an insertion point names
/// `spec_insert_pos`: when everything left of `p` has address at most `a`
/// and everything from `p` on exceeds it, `p` is the position.
proof fn lemma_insert_pos_agrees(s: Seq<Symbol>, a: u64, p: int)
    requires
        0 <= p <= s.len(),
        forall|k: int| 0 <= k < p ==> #[trigger] s[k].address <= a,
        forall|k: int| p <= k < s.len() ==> #[trigger] s[k].address > a,
    ensures
        spec_insert_pos(s, a) == p,
    decreases s.len(),
{
    if s.len() == 0 {
    } else if s[0].address > a {
        if p > 0 {
            assert(s[0].address <= a);
        }
    } else {
        assert(p > 0) by {
            if p == 0 {
                assert(s[0].address > a);
            }
        }
        let t = s.drop_first();
        assert forall|k: int| 0 <= k < p - 1 implies #[trigger] t[k].address <= a by {
            assert(t[k] == s[k + 1]);
        }
        assert forall|k: int| p - 1 <= k < t.len() implies #[trigger] t[k].address > a by {
            assert(t[k] == s[k + 1]);
        }
        lemma_insert_pos_agrees(t, a, p - 1);
    }
}

/// Some symbol of `s` carries the record `x`.
pub open spec fn has_symbol(s: Seq<Symbol>, x: Symbol) -> bool {
    exists|i: int| 0 <= i < s.len() && sym_eq(#[trigger] s[i], x)
}

/// A map from addresses to symbols: the admitted symbols of a file, sorted
/// by ascending address. Overlapping ranges are tolerated; lookup then
/// returns one of the covering symbols.
#[derive(Debug)]
pub struct SymbolMap {
    symbols: Vec<Symbol>,
}

impl View for SymbolMap {
    type V = Seq<Symbol>;

    closed spec fn view(&self) -> Seq<Symbol> {
        self.symbols@
    }
}

impl SymbolMap {
    /// Every symbol held is admitted, and the addresses ascend.
    pub open spec fn wf(self) -> bool {
        &&& sorted_by_address(self@)
        &&& forall|i: int| 0 <= i < self@.len() ==> admitted(#[trigger] self@[i])
    }

    /// Return true for symbols that are included in the map.
    pub fn filter(symbol: &Symbol) -> (r: bool)
        ensures
            r == admitted(*symbol),
    {
        match symbol.kind() {
            SymbolKind::Unknown | SymbolKind::Text | SymbolKind::Data => (),
            SymbolKind::Null
            | SymbolKind::Section
            | SymbolKind::File
            | SymbolKind::Common
            | SymbolKind::Tls => {
                return false;
            },
        }
        !symbol.is_undefined() && symbol.size() > 0
    }

    /// Build the map over `all`: exactly the admitted symbols, each
    /// inserted in order before the first held entry with a greater
    /// address — sorted by ascending address, ties in their order in
    /// `all`, nothing else held.
    pub fn from_symbols(all: &Vec<Symbol>) -> (r: SymbolMap)
        ensures
            r.wf(),
            r@ == spec_symbol_map(all@),
            forall|i: int| 0 <= i < r@.len() ==> has_symbol(all@, #[trigger] r@[i]),
            forall|j: int|
                0 <= j < all@.len() && admitted(#[trigger] all@[j]) ==> has_symbol(r@, all@[j]),
    {
        let mut symbols: Vec<Symbol> = Vec::new();
        let n = all.len();
        for j in 0..n
            invariant
                n == all@.len(),
                symbols@ == spec_symbol_map(all@.take(j as int)),
                sorted_by_address(symbols@),
                forall|i: int| 0 <= i < symbols@.len() ==> admitted(#[trigger] symbols@[i]),
                forall|i: int| 0 <= i < symbols@.len() ==> has_symbol(all@, #[trigger] symbols@[i]),
                forall|j2: int|
                    0 <= j2 < j && admitted(#[trigger] all@[j2]) ==> has_symbol(symbols@, all@[j2]),
        {
            let sym = &all[j];
            if Self::filter(sym) {
                let s = sym.clone();
                let pos = insert_position(&symbols, s.address);
                let ghost pre = symbols@;
                symbols.insert(pos, s);
                proof {
                    pre.insert_ensures(pos as int, s);
                    lemma_insert_pos_agrees(pre, s.address, pos as int);
                    assert(all@.take(j as int + 1).drop_last() =~= all@.take(j as int));
                    assert(all@.take(j as int + 1).last() == all@[j as int]);
                    assert(symbols@ == spec_symbol_map(all@.take(j as int + 1)));
                    assert forall|i1: int, i2: int|
                        0 <= i1 < i2 < symbols@.len() implies #[trigger] symbols@[i1].address
                        <= #[trigger] symbols@[i2].address by {
                        if i1 < pos && i2 < pos {
                        } else if i1 == pos {
                            assert(symbols@[i2] == pre[i2 - 1]);
                        } else if i2 == pos {
                            assert(symbols@[i1] == pre[i1]);
                        } else if i1 > pos && i2 > pos {
                            assert(symbols@[i1] == pre[i1 - 1]);
                            assert(symbols@[i2] == pre[i2 - 1]);
                        } else {
                            assert(symbols@[i1] == pre[i1]);
                            assert(symbols@[i2] == pre[i2 - 1]);
                        }
                    }
                    assert forall|i: int| 0 <= i < symbols@.len() implies admitted(
                        #[trigger] symbols@[i],
                    ) && has_symbol(all@, symbols@[i]) by {
                        if i < pos {
                            assert(symbols@[i] == pre[i]);
                            assert(has_symbol(all@, pre[i]));
                        } else if i == pos {
                            assert(symbols@[i] == s);
                            assert(sym_eq(all@[j as int], s));
                        } else {
                            assert(symbols@[i] == pre[i - 1]);
                            assert(has_symbol(all@, pre[i - 1]));
                        }
                    }
                    assert forall|j2: int|
                        0 <= j2 < j + 1 && admitted(#[trigger] all@[j2]) implies has_symbol(
                        symbols@,
                        all@[j2],
                    ) by {
                        if j2 == j {
                            assert(symbols@[pos as int] == s);
                            assert(sym_eq(symbols@[pos as int], all@[j2]));
                        } else {
                            let i0 = choose|i0: int|
                                0 <= i0 < pre.len() && sym_eq(#[trigger] pre[i0], all@[j2]);
                            if i0 < pos {
                                assert(symbols@[i0] == pre[i0]);
                                assert(sym_eq(symbols@[i0], all@[j2]));
                            } else {
                                assert(symbols@[i0 + 1] == pre[i0]);
                                assert(sym_eq(symbols@[i0 + 1], all@[j2]));
                            }
                        }
                    }
                }
            } else {
                proof {
                    assert(all@.take(j as int + 1).drop_last() =~= all@.take(j as int));
                    assert(all@.take(j as int + 1).last() == all@[j as int]);
                    assert(symbols@ == spec_symbol_map(all@.take(j as int + 1)));
                    assert forall|j2: int|
                        0 <= j2 < j + 1 && admitted(#[trigger] all@[j2]) implies has_symbol(
                        symbols@,
                        all@[j2],
                    ) by {
                        assert(j2 != j);
                    }
                }
            }
        }
        proof {
            assert(all@.take(n as int) =~= all@);
        }
        SymbolMap { symbols }
    }

    /// Get the symbol covering the given address.
    ///
    /// A returned symbol is one held by the map whose range covers
    /// `address`. When the ranges in the map are pairwise disjoint, `None`
    /// is returned only if no held symbol covers `address`; with
    /// overlapping ranges the search may miss a covering symbol, and any
    /// covering symbol it finds is an acceptable answer.
    pub fn get(&self, address: u64) -> (r: Option<&Symbol>)
        requires
            self.wf(),
        ensures
            match r {
                Some(s) => exists|i: int|
                    0 <= i < self@.len() && *s == self@[i] && contains_addr(*s, address),
                None => non_overlapping(self@) ==> forall|i: int|
                    0 <= i < self@.len() ==> !contains_addr(#[trigger] self@[i], address),
            },
    {
        let mut lo: usize = 0;
        let mut hi: usize = self.symbols.len();
        while lo < hi
            invariant
                self.wf(),
                lo <= hi <= self@.len(),
                non_overlapping(self@) ==> forall|k: int|
                    0 <= k < lo ==> !contains_addr(#[trigger] self@[k], address),
                forall|k: int| hi <= k < self@.len() ==> address < #[trigger] self@[k].address,
            decreases hi - lo,
        {
            let mid = lo + (hi - lo) / 2;
            let s = &self.symbols[mid];
            if address < s.address {
                hi = mid;
            } else if address - s.address >= s.size {
                lo = mid + 1;
                proof {
                    if non_overlapping(self@) {
                        assert forall|k: int| 0 <= k < lo implies !contains_addr(
                            #[trigger] self@[k],
                            address,
                        ) by {
                            if k < mid {
                                assert(self@[k].address + self@[k].size <= self@[mid as int].address);
                            }
                        }
                    }
                }
            } else {
                return Some(s);
            }
        }
        None
    }

    /// All symbols in the map, in ascending address order.
    pub fn symbols(&self) -> (r: &Vec<Symbol>)
        ensures
            r@ == self@,
    {
        &self.symbols
    }
}

/// The position before the first held symbol whose address exceeds
/// `address`: inserting there keeps the map sorted and keeps ties in
/// insertion order.
fn insert_position(symbols: &Vec<Symbol>, address: u64) -> (r: usize)
    requires
        sorted_by_address(symbols@),
    ensures
        r <= symbols@.len(),
        forall|k: int| 0 <= k < r ==> #[trigger] symbols@[k].address <= address,
        forall|k: int| r <= k < symbols@.len() ==> address < #[trigger] symbols@[k].address,
{
    let n = symbols.len();
    let mut pos: usize = 0;
    while pos < n && symbols[pos].address <= address
        invariant
            n == symbols@.len(),
            pos <= n,
            forall|k: int| 0 <= k < pos ==> #[trigger] symbols@[k].address <= address,
        decreases n - pos,
    {
        pos = pos + 1;
    }
    proof {
        assert forall|k: int| pos <= k < symbols@.len() implies address
            < #[trigger] symbols@[k].address by {
            assert(symbols@[pos as int].address <= symbols@[k].address);
        }
    }
    pos
}

} // verus!
