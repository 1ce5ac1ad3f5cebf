//! Deterministic keyed addressing for tip records.
//!
//! The store's location for a (sender, recipient) pair is a pure function of
//! the pair and a fixed domain tag: the same pair always yields the same
//! location, and distinct pairs never collide (proved below). Alongside the
//! location, a one-byte proof value is derived and stored in the record, so
//! that a record can be re-authenticated against its own pair on every access.

use vstd::prelude::*;

verus! {

/// Fixed domain tag mixed into every derivation, so that record locations
/// live in their own namespace.
pub const TIP_DOMAIN_TAG: u64 = 0x746970;

/// The derived store location for a (sender, recipient) pair: the tagged
/// sender in the high half, the recipient in the low half.
pub open spec fn spec_derive_location(sender: u64, recipient: u64) -> u128 {
    (((sender ^ TIP_DOMAIN_TAG) as u128) << 64) | (recipient as u128)
}

/// The derived key proof for a (sender, recipient) pair: a one-byte digest
/// of the tagged pair, stored in the record and checked on every access.
pub open spec fn spec_derive_bump(sender: u64, recipient: u64) -> u8 {
    ((sender ^ recipient ^ TIP_DOMAIN_TAG) & 0xff) as u8
}

/// Computes the store location for a pair.
pub fn derive_location(sender: u64, recipient: u64) -> (location: u128)
    ensures
        location == spec_derive_location(sender, recipient),
{
    (((sender ^ TIP_DOMAIN_TAG) as u128) << 64) | (recipient as u128)
}

/// Computes the key proof for a pair.
pub fn derive_bump(sender: u64, recipient: u64) -> (bump: u8)
    ensures
        bump == spec_derive_bump(sender, recipient),
{
    ((sender ^ recipient ^ TIP_DOMAIN_TAG) & 0xff) as u8
}

/// Derivation is collision-free: distinct pairs yield distinct locations.
pub proof fn lemma_derive_location_injective(s1: u64, r1: u64, s2: u64, r2: u64)
    requires
        spec_derive_location(s1, r1) == spec_derive_location(s2, r2),
    ensures
        s1 == s2,
        r1 == r2,
{
    assert((((s1 ^ 0x746970u64) as u128) << 64) | (r1 as u128) == (((s2 ^ 0x746970u64) as u128)
        << 64) | (r2 as u128) ==> s1 == s2 && r1 == r2) by (bit_vector);
}

} // verus!
