use vstd::prelude::*;

verus! {

/// Relies on chrono's `Utc::now` and `to_rfc3339`: the current moment as an
/// RFC 3339 text. The clock decides the value, so only non-emptiness is
/// claimed of the formatted text.
#[verifier::external_body]
pub(crate) fn now_rfc3339() -> (r: String)
    ensures
        r@.len() > 0,
{
    chrono::Utc::now().to_rfc3339()
}

/// Relies on chrono's `Utc::now` and its `format`: the current moment in the
/// fixed-GMT HTTP date layout. The clock decides the value, so only
/// non-emptiness is claimed of the formatted text.
#[verifier::external_body]
pub(crate) fn http_date_now() -> (r: String)
    ensures
        r@.len() > 0,
{
    chrono::Utc::now().format("%a, %d %b %Y %H:%M:%S GMT").to_string()
}

} // verus!
