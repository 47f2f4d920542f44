//! Fresh identifiers.

use vstd::prelude::*;

verus! {

/// A lower-case hexadecimal digit.
pub open spec fn lower_hex_digit(c: char) -> bool {
    ('0' <= c && c <= '9') || ('a' <= c && c <= 'f')
}

/// The hyphenated form of a version-4 UUID: 36 characters, hyphens at
/// 8, 13, 18 and 23, lower-case hexadecimal digits elsewhere, the version
/// digit `4` at 14.
pub open spec fn hyphenated_v4(s: Seq<char>) -> bool {
    &&& s.len() == 36
    &&& forall|i: int| 0 <= i < 36 ==> (if i == 8 || i == 13 || i == 18 || i == 23 {
        #[trigger] s[i] == '-'
    } else {
        lower_hex_digit(s[i])
    })
    &&& s[14] == '4'
}

/// A fresh random identifier: `uuid::Uuid::new_v4()` rendered by its
/// `Display` impl, the hyphenated lower-case form. Which identifier comes
/// back is left open: it is random.
#[verifier::external_body]
pub(crate) fn new_uuid_v4() -> (r: String)
    ensures
        hyphenated_v4(r@),
{
    uuid::Uuid::new_v4().to_string()
}

} // verus!
