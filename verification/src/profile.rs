//! The alphabet profile contract: how many cells a code has and which
//! single-grapheme texts are acceptable cell values.

use crate::text::concat_seqs;
use crate::text::count_graphemes;
use crate::text::graphemes_of;
use crate::text::join_strings;
use crate::text::seq_views;
use crate::text::split_graphemes;
use vstd::prelude::*;

verus! {

/// Implemented by structs that represent a code with a fixed amount of
/// digits and a fixed alphabet. A profile is a pure, stateless policy:
/// its length and alphabet never change over its lifetime.
pub trait DigitCodeProfile: Sized {
    /// The number of digits of a code of this profile.
    spec fn spec_len(&self) -> nat;

    /// The alphabet: which texts are acceptable as one cell value. Only
    /// single-grapheme texts are ever accepted by `is_valid_char`, whatever
    /// this predicate says of longer or empty ones.
    spec fn spec_alphabet(&self, s: Seq<char>) -> bool;

    /// This describes the amount of digits.
    fn len(&self) -> (r: usize)
        ensures
            r as nat == self.spec_len(),
    ;

    /// This needs to check if a given text matches the alphabet. Length is
    /// checked in other functions.
    fn char_matches_alphabet_impl(&self, chr: &str) -> (r: bool)
        ensures
            r == self.spec_alphabet(chr@),
    ;

    /// Checks if a provided text represents a valid value for a single
    /// digit: exactly one grapheme cluster, and in the alphabet. Empty and
    /// multi-grapheme texts are always rejected.
    fn is_valid_char(&self, chr: &str) -> (r: bool)
        ensures
            r == (graphemes_of(chr@).len() == 1 && self.spec_alphabet(chr@)),
    {
        count_graphemes(chr) == 1 && self.char_matches_alphabet_impl(chr)
    }

    /// The html input mode (text, numeric, ...) that the digit on position
    /// `index` should have. Purely advisory.
    fn input_mode(&self, index: usize) -> (r: &str)
        default_ensures
            r@ == "text"@,
    {
        "text"
    }

    /// Checks that every entry is a valid single-digit value and that the
    /// number of entries is exactly the profile length. Too few or too many
    /// entries make the code invalid; there is no partial credit.
    fn is_char_code_valid(&self, chars: &Vec<String>) -> (r: bool)
        ensures
            r == (chars@.len() == self.spec_len() && (forall|i: int|
                0 <= i < chars@.len() ==> graphemes_of(#[trigger] chars@[i]@).len() == 1
                    && self.spec_alphabet(chars@[i]@))),
    {
        let n = chars.len();
        let mut i: usize = 0;
        while i < n
            invariant
                i <= n,
                n == chars@.len(),
                forall|j: int|
                    0 <= j < i ==> graphemes_of(#[trigger] chars@[j]@).len() == 1
                        && self.spec_alphabet(chars@[j]@),
            decreases n - i,
        {
            if !self.is_valid_char(chars[i].as_str()) {
                return false;
            }
            i += 1;
        }
        n == self.len()
    }

    /// Checks if a provided text represents a valid digit code of this
    /// profile, splitting the text into grapheme clusters first.
    fn is_str_code_valid(&self, code: &str) -> (r: bool)
        ensures
            r == (graphemes_of(code@).len() == self.spec_len() && (forall|i: int|
                0 <= i < graphemes_of(code@).len() ==> graphemes_of(
                    #[trigger] graphemes_of(code@)[i],
                ).len() == 1 && self.spec_alphabet(graphemes_of(code@)[i]))),
    {
        let v = split_graphemes(code);
        let r = self.is_char_code_valid(&v);
        proof {
            assert(forall|i: int| 0 <= i < v@.len() ==> seq_views(v@)[i] == #[trigger] v@[i]@);
        }
        r
    }

    /// Checks the provided entries and, if they form a valid code of this
    /// profile, joins them into the code string. The caller is responsible
    /// for splitting a text into single-grapheme entries.
    fn valid_char_code(&self, chars: &Vec<String>) -> (r: Option<String>)
        ensures
            r is Some <==> (chars@.len() == self.spec_len() && (forall|i: int|
                0 <= i < chars@.len() ==> graphemes_of(#[trigger] chars@[i]@).len() == 1
                    && self.spec_alphabet(chars@[i]@))),
            r matches Some(s) ==> s@ == concat_seqs(seq_views(chars@)),
    {
        if self.is_char_code_valid(chars) {
            Some(join_strings(chars))
        } else {
            None
        }
    }
}

/// One cell value is acceptable to profile `p`: the text is exactly one
/// grapheme cluster and matches the profile's alphabet. This names, for
/// use by the code buffer, the exact condition `is_valid_char` decides.
pub open spec fn char_ok<P: DigitCodeProfile>(p: &P, s: Seq<char>) -> bool {
    graphemes_of(s).len() == 1 && p.spec_alphabet(s)
}

/// A whole code is acceptable to profile `p`: exactly `p.spec_len()`
/// entries, each an acceptable cell value. This names the exact condition
/// `is_char_code_valid` decides.
pub open spec fn code_valid<P: DigitCodeProfile>(p: &P, ss: Seq<Seq<char>>) -> bool {
    ss.len() == p.spec_len() && forall|i: int| 0 <= i < ss.len() ==> char_ok(p, #[trigger] ss[i])
}

} // verus!
