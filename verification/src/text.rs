//! Comparison and normalisation of text.

use vstd::prelude::*;
use vstd::utf8::encode_utf8_decode_utf8;

verus! {

/// The characters that `str::trim` leaves of `s`: `s` without its leading and
/// trailing Unicode white space.
pub uninterp spec fn trimmed(s: Seq<char>) -> Seq<char>;

/// The Unicode lowercase form that `str::to_lowercase` gives for `s`.
pub uninterp spec fn lowercased(s: Seq<char>) -> Seq<char>;

/// `str::trim` cuts the white space from both ends of a slice. Which
/// characters count as white space is a table of the Unicode standard, so the
/// result is only named here: equal inputs give equal outputs.
pub assume_specification[ str::trim ](s: &str) -> (t: &str)
    ensures
        t@ == trimmed(s@),
;

/// `str::to_lowercase` maps a slice to its lowercase form by the Unicode case
/// tables, which may change the number of characters. The result is only
/// named here: equal inputs give equal outputs.
pub assume_specification[ str::to_lowercase ](s: &str) -> (l: String)
    ensures
        l@ == lowercased(s@),
;

/// Decides whether two string slices hold the same characters.
///
/// The comparison walks the UTF-8 bytes; since decoding inverts encoding,
/// equal bytes mean equal character sequences and the other way round.
pub fn same_text(a: &str, b: &str) -> (same: bool)
    ensures
        same == (a@ == b@),
{
    let x = a.as_bytes();
    let y = b.as_bytes();
    proof {
        encode_utf8_decode_utf8(a@);
        encode_utf8_decode_utf8(b@);
    }
    if x.len() != y.len() {
        return false;
    }
    let mut i: usize = 0;
    while i < x.len()
        invariant
            i <= x.len(),
            x.len() == y.len(),
            forall|j: int| 0 <= j < i ==> x@[j] == y@[j],
            a@ == b@ ==> x@ == y@,
        decreases x.len() - i,
    {
        if x[i] != y[i] {
            return false;
        }
        i += 1;
    }
    assert(x@ =~= y@);
    true
}

} // verus!
