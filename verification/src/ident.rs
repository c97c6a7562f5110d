//! Project identifiers: where they come from and what they look like.

use vstd::prelude::*;

verus! {

/// A digit of lower-case hexadecimal notation.
pub open spec fn is_lower_hex(c: char) -> bool {
    ('0' <= c && c <= '9') || ('a' <= c && c <= 'f')
}

/// The places of the four hyphens in the 36-character notation of a UUID.
pub open spec fn is_hyphen_place(i: int) -> bool {
    i == 8 || i == 13 || i == 18 || i == 23
}

/// `s` is the hyphenated lower-case notation of a random (version 4) UUID:
/// `xxxxxxxx-xxxx-4xxx-yxxx-xxxxxxxxxxxx`, where each `x` is a hexadecimal
/// digit and `y` is one of `8`, `9`, `a`, `b`.
pub open spec fn is_random_uuid_text(s: Seq<char>) -> bool {
    &&& s.len() == 36
    &&& forall|i: int|
        0 <= i < 36 ==> if is_hyphen_place(i) {
            #[trigger] s[i] == '-'
        } else {
            is_lower_hex(s[i])
        }
    &&& s[14] == '4'
    &&& (s[19] == '8' || s[19] == '9' || s[19] == 'a' || s[19] == 'b')
}

/// Draws a new project identifier.
///
/// Trusted: the body calls `uuid::Uuid::new_v4` and writes the result out
/// through the `Display` impl of `uuid::Uuid`. The contract claims that what
/// comes back is always the 36-character hyphenated lower-case notation, with
/// the version digit `4` and a variant digit among `8`, `9`, `a`, `b`. It
/// claims nothing of the other digits, which are random, and in particular
/// not that two draws differ. `new_v4` panics when the operating system
/// hands out no random bytes; nothing here rules that out.
#[verifier::external_body]
pub(crate) fn fresh_token() -> (token: String)
    ensures
        is_random_uuid_text(token@),
{
    uuid::Uuid::new_v4().to_string()
}

} // verus!
