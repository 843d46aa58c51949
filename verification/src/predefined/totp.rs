//! A ready-made numeric profile for TOTP style codes.

use crate::profile::DigitCodeProfile;
use vstd::prelude::*;
use vstd::string::StrSliceExecFns;

verus! {

/// One of the ten decimal digit characters.
pub open spec fn is_decimal_digit(c: char) -> bool {
    48 <= c as u32 && c as u32 <= 57
}

/// Predefined code profile for a TOTP code: `LENGTH` decimal digits.
#[derive(Debug, Clone, Default, PartialEq, Eq)]
pub struct TotpCodeProfile<const LENGTH: usize>;

impl<const LENGTH: usize> TotpCodeProfile<LENGTH> {
    pub fn new() -> (r: Self)
        ensures
            r.spec_len() == LENGTH as nat,
    {
        TotpCodeProfile {}
    }
}

impl<const LENGTH: usize> DigitCodeProfile for TotpCodeProfile<LENGTH> {
    open spec fn spec_len(&self) -> nat {
        LENGTH as nat
    }

    /// Exactly one character, and that character a decimal digit.
    open spec fn spec_alphabet(&self, s: Seq<char>) -> bool {
        s.len() == 1 && is_decimal_digit(s[0])
    }

    fn len(&self) -> usize {
        LENGTH
    }

    fn char_matches_alphabet_impl(&self, chr: &str) -> bool {
        if chr.unicode_len() != 1 {
            return false;
        }
        let u = chr.get_char(0) as u32;
        48 <= u && u <= 57
    }

    fn input_mode(&self, index: usize) -> (r: &str)
        ensures
            r@ == "numeric"@,
    {
        "numeric"
    }
}

} // verus!
