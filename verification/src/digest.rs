//! The off-device message digest loaded before signing.

use vstd::prelude::*;

use sha2::Digest;

verus! {

/// The SHA-256 digest of a byte sequence, named but not restated: the full
/// compression function is the outside crate's business.
pub uninterp spec fn sha256_of(data: Seq<u8>) -> Seq<u8>;

/// Relies on `sha2::Sha256::digest`: a 32-byte digest that depends on the
/// input bytes alone.
#[verifier::external_body]
pub(crate) fn sha256(data: &[u8]) -> (r: Vec<u8>)
    ensures
        r@ == sha256_of(data@),
        r@.len() == 32,
{
    <sha2::Sha256 as Digest>::digest(data).to_vec()
}

} // verus!
