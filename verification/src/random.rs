//! The boundary to the external random-token generator.

use vstd::prelude::*;

use crate::chars::is_alnum_seq;

verus! {

/// Relies on rand's `Alphanumeric` distribution through
/// `DistString::sample_string`: the returned string consists of exactly
/// `len` characters, each drawn from the ASCII letters and digits. Nothing
/// further is assumed of the content, which is random and may differ
/// between two calls on the same length.
#[verifier::external_body]
pub(crate) fn random_alphanumeric(len: usize) -> (r: String)
    ensures
        r@.len() == len as nat,
        is_alnum_seq(r@),
{
    rand::distributions::DistString::sample_string(
        &rand::distributions::Alphanumeric,
        &mut rand::thread_rng(),
        len,
    )
}

} // verus!
