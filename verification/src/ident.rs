//! Execution identifiers: fresh universally unique ids in hyphenated form.

use vstd::prelude::*;

verus! {

/// The characters of a hyphenated lowercase identifier.
pub open spec fn is_id_char(c: char) -> bool {
    ('0' <= c <= '9') || ('a' <= c <= 'f') || c == '-'
}

/// True of a well-formed identifier text: 36 characters, lowercase
/// hexadecimal digits and hyphens.
pub open spec fn wf_execution_id(s: Seq<char>) -> bool {
    s.len() == 36 && forall|i: int| 0 <= i < s.len() ==> is_id_char(#[trigger] s[i])
}

/// Relies on uuid's `Uuid::new_v4` and its `Display` form: the hyphenated
/// lowercase rendering is 36 characters of hexadecimal digits and hyphens.
/// The value itself is random, so nothing more is promised; drawing it
/// needs the operating system's randomness source.
#[verifier::external_body]
pub fn new_execution_id() -> (r: String)
    ensures
        wf_execution_id(r@),
{
    uuid::Uuid::new_v4().to_string()
}

} // verus!
