//! Fresh ids.

use vstd::prelude::*;

verus! {

/// Whether a character is a lower-case hexadecimal digit.
pub open spec fn hex_digit(c: char) -> bool {
    '0' <= c <= '9' || 'a' <= c <= 'f'
}

/// Whether a text is a random UUID in its usual notation: groups of lower-case hexadecimal
/// digits with hyphens between them, the version and the variant in their places.
pub open spec fn is_uuid(id: Seq<char>) -> bool {
    &&& id.len() == 36
    &&& id[8] == '-' && id[13] == '-' && id[18] == '-' && id[23] == '-'
    &&& id[14] == '4'
    &&& id[19] == '8' || id[19] == '9' || id[19] == 'a' || id[19] == 'b'
    &&& forall|i: int|
        0 <= i < 36 && i != 8 && i != 13 && i != 18 && i != 23 ==> hex_digit(#[trigger] id[i])
}

/// Draws an id with `uuid::Uuid::new_v4`, in the notation of its `Display`. Which id it is rests
/// on chance, and so does that two ids differ, which is not claimed; that it is a random UUID
/// does not.
#[verifier::external_body]
pub(crate) fn new_id() -> (id: String)
    ensures
        is_uuid(id@),
{
    uuid::Uuid::new_v4().to_string()
}

} // verus!
