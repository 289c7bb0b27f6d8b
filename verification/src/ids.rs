use vstd::prelude::*;

verus! {

/// Relies on ulid's `Ulid::generate` and `to_string`: a fresh identifier in
/// the canonical 26-character base32 text. The value is random, so only its
/// length is claimed.
#[verifier::external_body]
pub(crate) fn new_ulid() -> (r: String)
    ensures
        r@.len() == 26,
{
    ulid::Ulid::generate().to_string()
}

} // verus!
