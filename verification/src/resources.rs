//! Address-range descriptors for port-mapped devices, and the mathematical
//! model of a bus's port-address map.

use vstd::prelude::*;

verus! {

/// A contiguous range of guest port-I/O addresses: `size` ports starting at
/// `base`.
#[derive(Clone, Copy, Debug, PartialEq, Eq, Structural)]
pub struct PioRange {
    /// First port of the range.
    pub base: u16,
    /// Number of ports in the range.
    pub size: u16,
}

/// Two ranges overlap when some port lies in both.
pub open spec fn ranges_overlap(a: PioRange, b: PioRange) -> bool {
    a.base < b.base + b.size && b.base < a.base + a.size
}

/// Whether two ranges overlap, as executable code.
pub fn overlaps(a: PioRange, b: PioRange) -> (r: bool)
    ensures
        r == ranges_overlap(a, b),
{
    (a.base as u32) < (b.base as u32) + (b.size as u32)
        && (b.base as u32) < (a.base as u32) + (a.size as u32)
}

/// A bus's port map after every range of `rs` is recorded in `m`, each base
/// mapped to its range's size, in order.
pub open spec fn with_ranges(m: Map<u16, u16>, rs: Seq<PioRange>) -> Map<u16, u16>
    decreases rs.len(),
{
    if rs.len() == 0 {
        m
    } else {
        with_ranges(m.insert(rs[0].base, rs[0].size), rs.skip(1))
    }
}

/// The bases of `rs` are pairwise distinct and none is already a key of `m`:
/// exactly the condition under which the dispatch bus accepts all of `rs`.
pub open spec fn bases_fresh(m: Map<u16, u16>, rs: Seq<PioRange>) -> bool {
    &&& forall|i: int, j: int| 0 <= i < j < rs.len() ==> rs[i].base != rs[j].base
    &&& forall|i: int| 0 <= i < rs.len() ==> !m.dom().contains(rs[i].base)
}

/// Recording one range is one insertion.
pub proof fn lemma_with_ranges_singleton(m: Map<u16, u16>, r: PioRange)
    ensures
        with_ranges(m, seq![r]) == m.insert(r.base, r.size),
{
    let s = seq![r];
    assert(s[0] == r);
    assert(s.skip(1) =~= Seq::<PioRange>::empty());
    assert(with_ranges(m.insert(r.base, r.size), Seq::<PioRange>::empty()) == m.insert(
        r.base,
        r.size,
    ));
}

/// One range is fresh exactly when its base is not yet a key.
pub proof fn lemma_bases_fresh_singleton(m: Map<u16, u16>, r: PioRange)
    ensures
        bases_fresh(m, seq![r]) == !m.dom().contains(r.base),
{
    let s = seq![r];
    assert(s[0] == r);
    if bases_fresh(m, s) {
        assert(!m.dom().contains(s[0].base));
    }
    if !m.dom().contains(r.base) {
        assert(forall|i: int| 0 <= i < s.len() ==> !m.dom().contains(s[i].base));
    }
}

} // verus!
