//! The name generator: a fresh, collision-resistant token per call, rendered
//! as compact lowercase hexadecimal, prefixed by a caller-chosen string.

use vstd::prelude::*;
use vstd::string::StringExecFns;

verus! {

/// A lowercase hexadecimal digit.
pub open spec fn is_lower_hex_char(c: char) -> bool {
    ('0' <= c && c <= '9') || ('a' <= c && c <= 'f')
}

/// Relies on uuid::Uuid::new_v4 and the Simple formatter: a freshly drawn
/// version-4 UUID (128-bit randomness) rendered as exactly 32 lowercase
/// hexadecimal digits with no separators. The draw is random, so nothing is
/// stated of which digits come back, only their count and alphabet. An
/// unavailable randomness source aborts the process, which is the intended
/// fatal behaviour for a broken host environment.
#[verifier::external_body]
fn fresh_token() -> (r: String)
    ensures
        r@.len() == 32,
        forall|i: int| 0 <= i < r@.len() ==> is_lower_hex_char(#[trigger] r@[i]),
{
    uuid::Uuid::new_v4().simple().to_string()
}

/// A fresh temporary-file name: the given prefix followed by a freshly
/// generated 32-digit lowercase-hexadecimal token.
pub fn create_tmp_file_name(prefix: &str) -> (r: String)
    ensures
        r@.len() == prefix@.len() + 32,
        r@.subrange(0, prefix@.len() as int) == prefix@,
        forall|i: int| prefix@.len() <= i < r@.len() ==> is_lower_hex_char(#[trigger] r@[i]),
{
    let token = fresh_token();
    let mut r = prefix.to_owned();
    r.append(token.as_str());
    proof {
        assert(r@.subrange(0, prefix@.len() as int) =~= prefix@);
    }
    r
}

} // verus!
