//! Comparison and assembly of short texts.

use vstd::prelude::*;
use vstd::string::*;

verus! {

/// Whether two texts hold the same characters in the same order.
pub fn same_text(a: &str, b: &str) -> (same: bool)
    ensures
        same == (a@ == b@),
{
    let n: usize = a.unicode_len();
    if n != b.unicode_len() {
        return false;
    }
    let mut i: usize = 0;
    while i < n
        invariant
            n == a@.len(),
            n == b@.len(),
            i <= n,
            forall|j: int| 0 <= j < i ==> a@[j] == b@[j],
        decreases n - i,
    {
        if a.get_char(i) != b.get_char(i) {
            return false;
        }
        i += 1;
    }
    proof {
        assert(a@ =~= b@);
    }
    true
}

/// The text of a labelled point: `x`, a comma and a space, `y`, then `unit`,
/// with nothing between the last two.
pub open spec fn point_text(x: Seq<char>, y: Seq<char>, unit: Seq<char>) -> Seq<char> {
    x + seq![',', ' '] + y + unit
}

/// Writes a point, given the text of each coordinate, as `"<x>, <y><unit>"`.
pub fn format_point(x: &str, y: &str, unit: &str) -> (out: String)
    ensures
        out@ == point_text(x@, y@, unit@),
{
    proof {
        reveal_strlit(", ");
    }
    let mut out = String::from_str(x);
    out.append(", ");
    out.append(y);
    out.append(unit);
    proof {
        assert(", "@ =~= seq![',', ' ']);
    }
    out
}

} // verus!
