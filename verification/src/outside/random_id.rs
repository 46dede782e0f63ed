//! Random identifiers of the crate `uuid`.

use vstd::prelude::*;

verus! {

/// Whether sixteen bytes are marked as a random UUID: version 4 and the RFC variant.
pub open spec fn is_random_uuid(id: Seq<u8>) -> bool {
    &&& id.len() == 16
    &&& 0x40 <= id[6] <= 0x4f
    &&& 0x80 <= id[8] <= 0xbf
}

/// `Uuid::new_v4`: the bytes of a random UUID. Which one is left open; every one of them has the
/// version and variant bits of a random UUID.
#[verifier::external_body]
pub(crate) fn random_uuid() -> (r: [u8; 16])
    ensures
        is_random_uuid(r@),
{
    uuid::Uuid::new_v4().into_bytes()
}

} // verus!
