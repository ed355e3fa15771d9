//! Fresh identifiers: random (version 4) UUIDs, held as their 128-bit value.
use vstd::prelude::*;

verus! {

/// Whether a 128-bit value is laid out as a version 4, RFC 4122 UUID
/// (version nibble 4, variant bits `10`).
pub open spec fn is_v4(x: u128) -> bool {
    &&& (x >> 76u128) & 0xfu128 == 4
    &&& (x >> 62u128) & 0x3u128 == 2
}

/// `uuid::Uuid::new_v4`, as its 128-bit value: random bits with the version
/// and variant bits set.
#[verifier::external_body]
fn uuid_new_v4() -> (r: u128)
    ensures
        is_v4(r),
{
    uuid::Uuid::new_v4().as_u128()
}

/// A version 4 UUID is never the nil UUID.
pub proof fn lemma_v4_not_nil(x: u128)
    requires
        is_v4(x),
    ensures
        x != 0,
{
    assert(is_v4(x) ==> x != 0) by (bit_vector);
}

/// A fresh random identifier; never nil.
pub fn fresh_id() -> (r: u128)
    ensures
        is_v4(r),
        r != 0,
{
    let r = uuid_new_v4();
    proof {
        lemma_v4_not_nil(r);
    }
    r
}

} // verus!
