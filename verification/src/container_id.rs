//! Container identifiers: every widget instance is addressed by a string
//! id in the surrounding UI tree. An id used for node lookup must not
//! begin with a digit, so a caller-supplied id is sanitised and a
//! generated one starts with a fixed letter prefix.

use crate::predefined::totp::is_decimal_digit;
use rand::Rng;
use vstd::prelude::*;
use vstd::string::StrSliceExecFns;
use vstd::string::StringExecFns;

verus! {

/// An ASCII letter or decimal digit.
pub open spec fn is_ascii_alphanumeric_char(c: char) -> bool {
    (65 <= c as u32 && c as u32 <= 90) || (97 <= c as u32 && c as u32 <= 122) || (48 <= c as u32
        && c as u32 <= 57)
}

/// Relies on `rand::Rng::sample_iter` over rand's `Alphanumeric`
/// distribution: every sample is one of the ASCII characters a-z, A-Z,
/// 0-9, and taking `count` of the endless stream yields exactly `count`.
/// Which characters come back depends on the generator, so nothing more is
/// claimed of them.
#[verifier::external_body]
fn random_alphanumeric(count: usize) -> (r: String)
    ensures
        r@.len() == count as nat,
        forall|i: int| 0 <= i < r@.len() ==> is_ascii_alphanumeric_char(#[trigger] r@[i]),
{
    rand::thread_rng()
        .sample_iter(&rand::distributions::Alphanumeric)
        .take(count)
        .map(char::from)
        .collect()
}

/// A fresh container id: the fixed prefix `digit-code-edit-`, which starts
/// with a letter, followed by exactly fifty random alphanumeric characters.
pub fn generate_container_id() -> (r: String)
    ensures
        r@.len() == 66,
        r@.subrange(0, 16) == "digit-code-edit-"@,
        forall|i: int| 16 <= i < 66 ==> is_ascii_alphanumeric_char(#[trigger] r@[i]),
        !is_decimal_digit(r@[0]),
{
    proof {
        reveal_strlit("digit-code-edit-");
    }
    let mut id = String::from_str("digit-code-edit-");
    let random = random_alphanumeric(50);
    id.append(random.as_str());
    proof {
        assert(id@.subrange(0, 16) =~= "digit-code-edit-"@);
    }
    id
}

/// Makes a caller-supplied container id usable for node lookup: an id that
/// begins with a digit gets a neutral letter prefix, every other id is
/// kept as it is.
pub fn sanitize_container_id(id: String) -> (r: String)
    ensures
        (id@.len() > 0 && is_decimal_digit(id@[0])) ==> r@ == "d-"@ + id@,
        !(id@.len() > 0 && is_decimal_digit(id@[0])) ==> r@ == id@,
        r@.len() > 0 ==> !is_decimal_digit(r@[0]),
{
    proof {
        reveal_strlit("d-");
    }
    if id.as_str().is_empty() {
        return id;
    }
    let u = id.as_str().get_char(0) as u32;
    if 48 <= u && u <= 57 {
        let mut out = String::from_str("d-");
        out.append(id.as_str());
        out
    } else {
        id
    }
}

} // verus!
