//! The value-transfer collaborator: atomically moves value between two
//! balance-bearing accounts, or fails with no change to either.
//!
//! The tip processor only orchestrates calls into this module and reacts to
//! their success or failure; it never moves value itself.

use vstd::prelude::*;

verus! {

/// A party's wallet: its identity and its native-currency balance.
#[derive(Clone, Copy, Debug, PartialEq, Eq, Structural)]
pub struct Wallet {
    /// The party's identity.
    pub id: u64,
    /// The party's native-currency balance.
    pub balance: u64,
}

/// A per-holder balance account for one fungible-token type.
#[derive(Clone, Copy, Debug, PartialEq, Eq, Structural)]
pub struct TokenAccount {
    /// The identity of the party holding this account.
    pub owner: u64,
    /// The token type this account holds.
    pub mint: u64,
    /// The account's token balance.
    pub amount: u64,
}

/// Why a transfer was refused; the accounts are left untouched.
#[derive(Clone, Copy, Debug, PartialEq, Eq, Structural)]
pub enum TransferError {
    /// The paying account's balance is below the requested amount.
    InsufficientFunds,
    /// The receiving account's balance would exceed its capacity.
    BalanceOverflow,
    /// The claimed authority does not own the paying account.
    NotAuthorized,
    /// An account is not an account of the requested token type.
    MintMismatch,
}

/// Why `transfer_native` would refuse to move `amount` from `from` to `to`,
/// if anything.
pub open spec fn spec_native_transfer_error(from: Wallet, to: Wallet, amount: u64) -> Option<
    TransferError,
> {
    if from.balance < amount {
        Some(TransferError::InsufficientFunds)
    } else if to.balance + amount > u64::MAX {
        Some(TransferError::BalanceOverflow)
    } else {
        None
    }
}

/// Why `transfer_token` would refuse the move, if anything.
pub open spec fn spec_token_transfer_error(
    mint: u64,
    from: TokenAccount,
    to: TokenAccount,
    authority: u64,
    amount: u64,
) -> Option<TransferError> {
    if authority != from.owner {
        Some(TransferError::NotAuthorized)
    } else if from.mint != mint || to.mint != mint {
        Some(TransferError::MintMismatch)
    } else if from.amount < amount {
        Some(TransferError::InsufficientFunds)
    } else if to.amount + amount > u64::MAX {
        Some(TransferError::BalanceOverflow)
    } else {
        None
    }
}

/// Moves `amount` native units from `from` to `to`, or fails with both
/// wallets unchanged.
pub fn transfer_native(from: &mut Wallet, to: &mut Wallet, amount: u64) -> (result: Result<
    (),
    TransferError,
>)
    ensures
        match spec_native_transfer_error(*old(from), *old(to), amount) {
            Some(e) => {
                &&& result == Err::<(), TransferError>(e)
                &&& *final(from) == *old(from)
                &&& *final(to) == *old(to)
            },
            None => {
                &&& result == Ok::<(), TransferError>(())
                &&& final(from).id == old(from).id
                &&& final(to).id == old(to).id
                &&& final(from).balance == old(from).balance - amount
                &&& final(to).balance == old(to).balance + amount
            },
        },
{
    if from.balance < amount {
        return Err(TransferError::InsufficientFunds);
    }
    if amount > u64::MAX - to.balance {
        return Err(TransferError::BalanceOverflow);
    }
    from.balance = from.balance - amount;
    to.balance = to.balance + amount;
    Ok(())
}

/// Moves `amount` units of the token `mint` from `from` to `to`, authorized
/// by the paying account's owner, or fails with both accounts unchanged.
pub fn transfer_token(
    mint: u64,
    from: &mut TokenAccount,
    to: &mut TokenAccount,
    authority: u64,
    amount: u64,
) -> (result: Result<(), TransferError>)
    ensures
        match spec_token_transfer_error(mint, *old(from), *old(to), authority, amount) {
            Some(e) => {
                &&& result == Err::<(), TransferError>(e)
                &&& *final(from) == *old(from)
                &&& *final(to) == *old(to)
            },
            None => {
                &&& result == Ok::<(), TransferError>(())
                &&& final(from).owner == old(from).owner
                &&& final(to).owner == old(to).owner
                &&& final(from).mint == old(from).mint
                &&& final(to).mint == old(to).mint
                &&& final(from).amount == old(from).amount - amount
                &&& final(to).amount == old(to).amount + amount
            },
        },
{
    if authority != from.owner {
        return Err(TransferError::NotAuthorized);
    }
    if from.mint != mint || to.mint != mint {
        return Err(TransferError::MintMismatch);
    }
    if from.amount < amount {
        return Err(TransferError::InsufficientFunds);
    }
    if amount > u64::MAX - to.amount {
        return Err(TransferError::BalanceOverflow);
    }
    from.amount = from.amount - amount;
    to.amount = to.amount + amount;
    Ok(())
}

} // verus!
