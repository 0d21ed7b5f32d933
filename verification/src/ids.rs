//! Random identifiers in the hyphenated UUID text form.

use vstd::prelude::*;

verus! {

/// A lower-case hexadecimal digit.
pub open spec fn is_lower_hex(c: char) -> bool {
    ('0' <= c && c <= '9') || ('a' <= c && c <= 'f')
}

/// Whether `i` is one of the four hyphen positions of the hyphenated form.
pub open spec fn is_uuid_hyphen_position(i: int) -> bool {
    i == 8 || i == 13 || i == 18 || i == 23
}

/// The hyphenated text form `xxxxxxxx-xxxx-xxxx-xxxx-xxxxxxxxxxxx` with
/// lower-case hexadecimal digits.
pub open spec fn is_hyphenated_uuid(s: Seq<char>) -> bool {
    &&& s.len() == 36
    &&& forall|i: int|
        0 <= i < 36 ==> (if is_uuid_hyphen_position(i) {
            #[trigger] s[i] == '-'
        } else {
            is_lower_hex(s[i])
        })
}

/// A fresh random (version 4) UUID in its hyphenated text form.
///
/// Calls `uuid::Uuid::new_v4` and formats the value with `to_string`, which the
/// `uuid` crate renders through its lower-case hyphenated formatter. The value
/// is random: only its shape is stated.
#[verifier::external_body]
pub(crate) fn new_v4_text() -> (s: String)
    ensures
        is_hyphenated_uuid(s@),
{
    uuid::Uuid::new_v4().to_string()
}

} // verus!
