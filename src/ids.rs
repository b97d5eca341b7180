//! Fresh record identifiers.

use vstd::prelude::*;

verus! {

/// A character of the hyphenated lower-case form of a UUID.
pub open spec fn is_id_char(c: char) -> bool {
    ('0' <= c && c <= '9') || ('a' <= c && c <= 'f') || c == '-'
}

/// The shape of a generated identifier: 36 characters, hexadecimal digits
/// and hyphens, so it is one segment of any path it stands in.
pub open spec fn is_generated_id(s: Seq<char>) -> bool {
    s.len() == 36 && forall|i: int| 0 <= i < s.len() ==> is_id_char(#[trigger] s[i])
}

/// Relies on uuid::Uuid::new_v4 and its `Display`, which writes the
/// hyphenated lower-case form: a random identifier of that shape.
#[verifier::external_body]
pub(crate) fn new_id() -> (r: String)
    ensures
        is_generated_id(r@),
{
    uuid::Uuid::new_v4().to_string()
}

} // verus!
