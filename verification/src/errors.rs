//! Error kinds surfaced by the tip-processing operation.
//!
//! Every failure is flat and terminal: the first failing check aborts the
//! whole operation, and exactly one of these kinds reaches the caller.

use vstd::prelude::*;

verus! {

/// The typed failures of the ledger.
#[derive(Clone, Copy, Debug, PartialEq, Eq, Structural)]
pub enum TipLinkError {
    /// The asset/account linkage is malformed, or a stored record's key
    /// proof does not match the value re-derived from its pair.
    InvalidRecipient,
    /// The requested amount is zero.
    InvalidAmount,
    /// The sender and the recipient are the same party.
    SelfTip,
    /// The sender's balance for the chosen asset is below the amount.
    InsufficientFunds,
    /// The value-transfer step reported failure after validation passed.
    TransferFailed,
}

} // verus!
