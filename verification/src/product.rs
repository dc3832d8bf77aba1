//! How a probe is told from other USB devices: by its product string.
//!
//! A device counts as a probe when its product string ends with the marker
//! `CMSIS-DAP`. Vendor and product ids are not looked at.

use vstd::prelude::*;

verus! {

/// The marker that the product string of a probe ends with.
pub const MARKER: &'static str = "CMSIS-DAP";

/// The characters of the marker.
pub open spec fn marker() -> Seq<char> {
    seq!['C', 'M', 'S', 'I', 'S', '-', 'D', 'A', 'P']
}

/// A product string names a probe when the marker is a suffix of it.
pub open spec fn names_probe(product: Seq<char>) -> bool {
    marker().is_suffix_of(product)
}

/// Tells whether a product string names a probe.
pub fn is_probe_name(product: &str) -> (b: bool)
    ensures
        b == names_probe(product@),
{
    proof {
        reveal_strlit("CMSIS-DAP");
    }
    assert(MARKER@ =~= marker());
    let n = product.unicode_len();
    let m = MARKER.unicode_len();
    if n < m {
        return false;
    }
    let start = n - m;
    let mut j: usize = 0;
    while j < m
        invariant
            j <= m,
            m == 9,
            n == product@.len(),
            start + m == n,
            MARKER@ == marker(),
            forall|i: int| 0 <= i < j ==> product@[start + i] == #[trigger] marker()[i],
        decreases m - j,
    {
        if product.get_char(start + j) != MARKER.get_char(j) {
            assert(product@.subrange(start as int, n as int)[j as int] != marker()[j as int]);
            return false;
        }
        j += 1;
    }
    assert(product@.subrange(start as int, n as int) =~= marker());
    true
}

} // verus!
