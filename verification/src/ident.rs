//! Job identifiers: the caller's own, or a fresh random one.

use vstd::prelude::*;

verus! {

/// Whether `c` is a hexadecimal digit in lower case.
pub open spec fn is_lower_hex(c: char) -> bool {
    ('0' <= c && c <= '9') || ('a' <= c && c <= 'f')
}

/// Whether `s` has the shape of a random UUID (version 4) written in lower
/// case with hyphens, as in `67e55044-10b1-426f-9247-bb680e5fe0c8`: 36
/// characters, hyphens at the places 8, 13, 18 and 23, hexadecimal digits
/// elsewhere, the version digit `4` at place 14 and a variant digit of `8`
/// to `b` at place 19.
pub open spec fn is_random_uuid_text(s: Seq<char>) -> bool {
    &&& s.len() == 36
    &&& forall|i: int|
        #![trigger s[i]]
        0 <= i < 36 ==> if i == 8 || i == 13 || i == 18 || i == 23 {
            s[i] == '-'
        } else {
            is_lower_hex(s[i])
        }
    &&& s[14] == '4'
    &&& (s[19] == '8' || s[19] == '9' || s[19] == 'a' || s[19] == 'b')
}

/// A fresh random identifier. Calls `uuid::Uuid::new_v4` and writes the
/// result with `to_string`.
///
/// Believed, not proved: the text has the shape of a hyphenated lower-case
/// version 4 UUID. Which identifier comes is left open, and two calls may
/// give two identifiers. `new_v4` stops the program where the operating
/// system can give no random bytes.
#[verifier::external_body]
fn fresh_uuid_text() -> (text: String)
    ensures
        is_random_uuid_text(text@),
{
    uuid::Uuid::new_v4().to_string()
}

/// The identifier of a new job: the one the caller supplied, or else a
/// fresh random one.
pub fn assign_job_id(supplied: Option<String>) -> (id: String)
    ensures
        match supplied {
            Some(own) => id@ == own@,
            None => is_random_uuid_text(id@),
        },
{
    match supplied {
        Some(own) => own,
        None => fresh_uuid_text(),
    }
}

} // verus!
