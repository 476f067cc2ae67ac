//! Shared byte buffers, in which outcomes hand out what they carry.

use bytes::Bytes;
use vstd::prelude::*;

verus! {

/// `bytes::Bytes`, declared so that outcomes can carry it. Nothing inside a
/// buffer is seen here: what it holds goes by the name `contents`.
#[verifier::external_type_specification]
#[verifier::external_body]
pub struct ExBytes(bytes::Bytes);

/// The bytes that a buffer holds. The name has no definition: what is known
/// of it is what the functions that make buffers say.
pub uninterp spec fn contents(b: Bytes) -> Seq<u8>;

/// Makes a shared buffer of a vector.
///
/// Trusted: calls `Bytes::from` on a `Vec<u8>`, which takes the vector's
/// storage over, so that the buffer holds the bytes of the vector.
#[verifier::external_body]
pub(crate) fn into_bytes(v: Vec<u8>) -> (b: Bytes)
    ensures
        contents(b) == v@,
{
    Bytes::from(v)
}

} // verus!
