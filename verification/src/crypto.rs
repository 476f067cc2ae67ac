//! The digest that the protocol derives shared values with.

use vstd::prelude::*;

verus! {

/// The MD5 digest of `data`. The name has no definition: the digest is
/// computed by the `md5` crate, and nothing is proved of it but that equal
/// bytes have equal digests.
pub uninterp spec fn md5_digest(data: Seq<u8>) -> Seq<u8>;

/// The length of a digest in bytes.
pub const DIGEST_LEN: usize = 16;

/// Computes the MD5 digest of `data`.
///
/// Trusted: calls `md5::compute`, a function of its argument alone, whose
/// result is an array of sixteen bytes.
#[verifier::external_body]
pub(crate) fn md5_compute(data: &[u8]) -> (r: Vec<u8>)
    ensures
        r@ == md5_digest(data@),
        r@.len() == DIGEST_LEN,
{
    md5::compute(data).0.to_vec()
}

} // verus!
