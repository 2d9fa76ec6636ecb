//! The payloads of messages, held in the shared buffers of the `bytes` crate.

use bytes::Bytes;
use vstd::prelude::*;

verus! {

/// The shared byte buffer of the `bytes` crate.
#[verifier::external_type_specification]
#[verifier::external_body]
pub struct ExBytes(bytes::Bytes);

/// The bytes that a buffer holds.
pub uninterp spec fn contents(payload: Bytes) -> Seq<u8>;

/// Makes a buffer out of a vector with `Bytes::from`: the buffer holds the bytes of the
/// vector, in order.
#[verifier::external_body]
pub(crate) fn from_vec(bytes: Vec<u8>) -> (payload: Bytes)
    ensures
        contents(payload) == bytes@,
{
    Bytes::from(bytes)
}

/// Gives the bytes of a buffer as a slice, with the `AsRef` of `Bytes`.
#[verifier::external_body]
pub(crate) fn as_slice(payload: &Bytes) -> (bytes: &[u8])
    ensures
        bytes@ == contents(*payload),
{
    payload.as_ref()
}

} // verus!
