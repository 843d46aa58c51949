//! Shared text machinery: the grapheme decomposition of a string (through
//! the `unicode-segmentation` crate), concatenation of many strings
//! (through `itertools`), and a verified character-wise string equality.

use itertools::Itertools;
use unicode_segmentation::UnicodeSegmentation;
use vstd::prelude::*;
use vstd::string::StrSliceExecFns;

verus! {

/// The extended grapheme clusters of a string, in order. What a grapheme
/// cluster is takes the Unicode segmentation rules to state, so the
/// decomposition is only named here; the wrappers below tie it to the
/// `unicode-segmentation` crate, which computes it from the string alone.
pub uninterp spec fn graphemes_of(s: Seq<char>) -> Seq<Seq<char>>;

/// The views of the strings of a sequence.
pub open spec fn seq_views(ss: Seq<String>) -> Seq<Seq<char>> {
    ss.map_values(|s: String| s@)
}

/// Concatenation of a sequence of character sequences, in order.
pub open spec fn concat_seqs(ss: Seq<Seq<char>>) -> Seq<char>
    decreases ss.len(),
{
    if ss.len() == 0 {
        Seq::empty()
    } else {
        ss.first() + concat_seqs(ss.drop_first())
    }
}

/// Relies on `UnicodeSegmentation::graphemes` (extended clusters) of the
/// `unicode-segmentation` crate: the number of grapheme clusters of the
/// string.
#[verifier::external_body]
pub fn count_graphemes(s: &str) -> (r: usize)
    ensures
        r == graphemes_of(s@).len(),
{
    s.graphemes(true).count()
}

/// Relies on `UnicodeSegmentation::graphemes` (extended clusters) of the
/// `unicode-segmentation` crate: the grapheme clusters of the string, in
/// order.
#[verifier::external_body]
pub fn split_graphemes(s: &str) -> (r: Vec<String>)
    ensures
        seq_views(r@) == graphemes_of(s@),
{
    s.graphemes(true).map(|g| g.to_owned()).collect()
}

/// Relies on `itertools::Itertools::join` with an empty separator: the
/// concatenation of the strings, in order.
#[verifier::external_body]
pub fn join_strings(parts: &Vec<String>) -> (r: String)
    ensures
        r@ == concat_seqs(seq_views(parts@)),
{
    parts.iter().join("")
}

/// Character-wise string equality: true exactly when the two views agree.
pub fn str_eq(a: &str, b: &str) -> (r: bool)
    ensures
        r == (a@ == b@),
{
    let la = a.unicode_len();
    let lb = b.unicode_len();
    if la != lb {
        return false;
    }
    let mut i: usize = 0;
    while i < la
        invariant
            i <= la,
            la == a@.len(),
            la == b@.len(),
            forall|j: int| 0 <= j < i ==> a@[j] == b@[j],
        decreases la - i,
    {
        if a.get_char(i) != b.get_char(i) {
            return false;
        }
        i += 1;
    }
    proof {
        assert(a@ =~= b@);
    }
    true
}

} // verus!
