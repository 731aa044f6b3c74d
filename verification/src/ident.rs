//! Identifiers for tasks.

use vstd::prelude::*;

verus! {

/// Whether `c` is a digit or one of the letters `a` to `f`.
pub open spec fn is_lower_hex(c: char) -> bool {
    ('0' <= c && c <= '9') || ('a' <= c && c <= 'f')
}

/// Whether `text` has the shape of a random (version 4) UUID written with
/// hyphens: `xxxxxxxx-xxxx-4xxx-yxxx-xxxxxxxxxxxx`, each `x` a lower-case
/// hexadecimal digit and `y` one of `8`, `9`, `a`, `b`.
pub open spec fn is_random_uuid_text(text: Seq<char>) -> bool {
    &&& text.len() == 36
    &&& forall|i: int|
        0 <= i < 36 ==> if i == 8 || i == 13 || i == 18 || i == 23 {
            #[trigger] text[i] == '-'
        } else {
            is_lower_hex(text[i])
        }
    &&& text[14] == '4'
    &&& (text[19] == '8' || text[19] == '9' || text[19] == 'a' || text[19] == 'b')
}

/// Makes an id with `uuid::Uuid::new_v4` and writes it with `to_string`.
///
/// Trusted, not proved: the text has the shape of a hyphenated version 4
/// UUID. Nothing is claimed of which one comes back: the bits are random, and
/// that two calls give different ids is likely but not certain.
#[verifier::external_body]
pub(crate) fn fresh_task_id() -> (id: String)
    ensures
        is_random_uuid_text(id@),
{
    uuid::Uuid::new_v4().to_string()
}

} // verus!
