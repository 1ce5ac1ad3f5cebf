//! The persistent per-pair state: one tip record per (sender, recipient) pair.

use vstd::prelude::*;

use crate::addressing::spec_derive_bump;

verus! {

/// Sentinel asset identifier denoting the native currency; any other value
/// identifies a fungible-token type.
pub const NATIVE_MINT: u64 = 0;

/// The record of tipping activity from one sender to one recipient.
///
/// Created on the first successful tip for the pair, mutated in place on
/// every later one, never deleted. `amount`, `token_mint` and `timestamp`
/// reflect only the most recent tip; `tip_count` counts every successful tip
/// from this sender to this recipient.
#[derive(Clone, Copy, Debug, PartialEq, Eq, Structural)]
pub struct Tip {
    /// Identity of the paying party.
    pub sender: u64,
    /// Identity of the receiving party.
    pub recipient: u64,
    /// Quantity transferred in the most recent tip.
    pub amount: u64,
    /// Asset moved by the most recent tip: `NATIVE_MINT` for the native
    /// currency, otherwise the token type's identifier.
    pub token_mint: u64,
    /// Logical time of the most recent tip, supplied by the environment.
    pub timestamp: i64,
    /// How many tips have flowed from this sender to this recipient;
    /// saturates instead of wrapping.
    pub tip_count: u64,
    /// The derivation parameter proving the record's location was produced
    /// deterministically from its pair.
    pub bump: u8,
}

/// A record as it may be persisted: a real pair, a non-zero amount, at least
/// one counted tip, and a key proof that matches its own pair.
pub open spec fn record_wf(t: Tip) -> bool {
    &&& t.sender != t.recipient
    &&& t.amount > 0
    &&& t.tip_count >= 1
    &&& t.bump == spec_derive_bump(t.sender, t.recipient)
}

} // verus!
