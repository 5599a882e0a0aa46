//! Trusted interface to the `bytes` crate's reference-counted byte buffer,
//! the type in which server-assigned statement identifiers arrive.

use vstd::prelude::*;

verus! {

#[verifier::external_type_specification]
#[verifier::external_body]
pub struct ExBytes(bytes::Bytes);

/// The byte contents that a `bytes::Bytes` handle refers to.
pub uninterp spec fn bytes_view(b: bytes::Bytes) -> Seq<u8>;

/// Relies on `<bytes::Bytes as AsRef<[u8]>>::as_ref`: it returns the slice
/// of all the bytes the handle refers to, in order.
#[verifier::external_body]
pub(crate) fn bytes_as_slice(b: &bytes::Bytes) -> (r: &[u8])
    ensures
        r@ == bytes_view(*b),
{
    b.as_ref()
}

} // verus!
