//! The tip processor: validates a tip request, has the value-transfer
//! collaborator move the funds, and only then updates the pair's record.
//!
//! Any validation or transfer failure aborts the whole operation with no
//! state change: the record is touched only after the transfer is confirmed,
//! so it never claims a transfer that did not happen.

use vstd::prelude::*;

use crate::addressing::spec_derive_bump;
use crate::errors::TipLinkError;
use crate::states::record_wf;
use crate::states::Tip;
use crate::states::NATIVE_MINT;
use crate::store::RecordStore;
use crate::transfer::spec_native_transfer_error;
use crate::transfer::spec_token_transfer_error;
use crate::transfer::transfer_native;
use crate::transfer::transfer_token;
use crate::transfer::TokenAccount;
use crate::transfer::Wallet;

verus! {

/// The accounts a tip may move value through: none beyond the two wallets
/// for a native tip, or the token type and the pair's token accounts for a
/// token tip. Exactly these two shapes exist, so an incomplete token bundle
/// cannot be expressed.
#[derive(Clone, Copy, Debug, PartialEq, Eq, Structural)]
pub enum AssetAccounts {
    /// Move native currency between the two wallets.
    Native,
    /// Move units of the token `mint` between the two token accounts.
    Token {
        /// The token type to move.
        mint: u64,
        /// The sender's balance account for `mint`.
        sender_token_account: TokenAccount,
        /// The recipient's balance account for `mint`.
        recipient_token_account: TokenAccount,
    },
}

/// The account bundle a tip request works on.
#[derive(Clone, Copy, Debug, PartialEq, Eq, Structural)]
pub struct SendTip {
    /// The paying party's wallet.
    pub sender: Wallet,
    /// The receiving party's wallet.
    pub recipient: Wallet,
    /// The asset to move, with its accounts if it is a token.
    pub asset: AssetAccounts,
}

/// The observable outcome of a successful tip: a snapshot of the pair's
/// record as persisted, for external consumption.
#[derive(Clone, Copy, Debug, PartialEq, Eq, Structural)]
pub struct TipOutcome {
    /// The pair's record after this tip.
    pub record: Tip,
}

/// The asset identifier a tip stores in the record: the native sentinel, or
/// the token type.
pub open spec fn spec_asset_id(asset: AssetAccounts) -> u64 {
    match asset {
        AssetAccounts::Native => NATIVE_MINT,
        AssetAccounts::Token { mint, .. } => mint,
    }
}

/// Which error validation rejects the request with, if any. The checks run
/// in this order: zero amount, self tip, then (token tips only) the asset
/// linkage of the supplied accounts, then the sender's balance.
pub open spec fn spec_validation_error(accounts: SendTip, amount: u64) -> Option<TipLinkError> {
    if amount == 0 {
        Some(TipLinkError::InvalidAmount)
    } else if accounts.sender.id == accounts.recipient.id {
        Some(TipLinkError::SelfTip)
    } else {
        match accounts.asset {
            AssetAccounts::Native => {
                if accounts.sender.balance < amount {
                    Some(TipLinkError::InsufficientFunds)
                } else {
                    None
                }
            },
            AssetAccounts::Token { mint, sender_token_account, recipient_token_account } => {
                if mint == NATIVE_MINT {
                    Some(TipLinkError::InvalidRecipient)
                } else if sender_token_account.mint != mint {
                    Some(TipLinkError::InvalidRecipient)
                } else if recipient_token_account.mint != mint {
                    Some(TipLinkError::InvalidRecipient)
                } else if sender_token_account.amount < amount {
                    Some(TipLinkError::InsufficientFunds)
                } else {
                    None
                }
            },
        }
    }
}

/// Whether the value-transfer collaborator would refuse the move that a
/// validated request asks for.
pub open spec fn spec_transfer_rejected(accounts: SendTip, amount: u64) -> bool {
    match accounts.asset {
        AssetAccounts::Native => spec_native_transfer_error(
            accounts.sender,
            accounts.recipient,
            amount,
        ) is Some,
        AssetAccounts::Token { mint, sender_token_account, recipient_token_account } =>
            spec_token_transfer_error(
            mint,
            sender_token_account,
            recipient_token_account,
            accounts.sender.id,
            amount,
        ) is Some,
    }
}

/// Which error the whole operation fails with, if any: the first failing
/// validation check, or `TransferFailed` when validation passes but the
/// collaborator refuses the move.
pub open spec fn spec_process_error(accounts: SendTip, amount: u64) -> Option<TipLinkError> {
    match spec_validation_error(accounts, amount) {
        Some(e) => Some(e),
        None => if spec_transfer_rejected(accounts, amount) {
            Some(TipLinkError::TransferFailed)
        } else {
            None
        },
    }
}

/// The account bundle after a successful tip: `amount` moved from the
/// sender's to the recipient's balance of the chosen asset, everything else
/// untouched.
pub open spec fn spec_accounts_after(accounts: SendTip, amount: u64) -> SendTip {
    match accounts.asset {
        AssetAccounts::Native => SendTip {
            sender: Wallet {
                id: accounts.sender.id,
                balance: (accounts.sender.balance - amount) as u64,
            },
            recipient: Wallet {
                id: accounts.recipient.id,
                balance: (accounts.recipient.balance + amount) as u64,
            },
            asset: AssetAccounts::Native,
        },
        AssetAccounts::Token { mint, sender_token_account, recipient_token_account } => SendTip {
            sender: accounts.sender,
            recipient: accounts.recipient,
            asset: AssetAccounts::Token {
                mint,
                sender_token_account: TokenAccount {
                    owner: sender_token_account.owner,
                    mint: sender_token_account.mint,
                    amount: (sender_token_account.amount - amount) as u64,
                },
                recipient_token_account: TokenAccount {
                    owner: recipient_token_account.owner,
                    mint: recipient_token_account.mint,
                    amount: (recipient_token_account.amount + amount) as u64,
                },
            },
        },
    }
}

/// The pair's tip count after one more successful tip: one on the first
/// tip, otherwise the previous count plus one, saturating instead of
/// wrapping.
pub open spec fn spec_next_count(previous: Option<Tip>) -> u64 {
    match previous {
        Some(t) => if t.tip_count == u64::MAX {
            u64::MAX
        } else {
            (t.tip_count + 1) as u64
        },
        None => 1,
    }
}

/// The pair's record after a successful tip against the given store state:
/// amount, asset and timestamp of this tip alone, and the advanced count.
pub open spec fn spec_record_after(
    store: RecordStore,
    accounts: SendTip,
    amount: u64,
    now: i64,
) -> Tip {
    Tip {
        sender: accounts.sender.id,
        recipient: accounts.recipient.id,
        amount,
        token_mint: spec_asset_id(accounts.asset),
        timestamp: now,
        tip_count: spec_next_count(store.spec_get(accounts.sender.id, accounts.recipient.id)),
        bump: spec_derive_bump(accounts.sender.id, accounts.recipient.id),
    }
}

/// Processes one tip: validates the request, moves `amount` of the chosen
/// asset from sender to recipient, and records the tip in the pair's record,
/// stamped with the collaborator-supplied time `now`. Fails atomically: on
/// any error, neither the accounts nor the store change.
pub fn send_tip(
    store: &mut RecordStore,
    accounts: &mut SendTip,
    amount: u64,
    now: i64,
) -> (result: Result<TipOutcome, TipLinkError>)
    requires
        old(store).wf(),
    ensures
        final(store).wf(),
        match spec_process_error(*old(accounts), amount) {
            Some(e) => {
                &&& result == Err::<TipOutcome, TipLinkError>(e)
                &&& *final(accounts) == *old(accounts)
                &&& final(store)@ == old(store)@
            },
            None => {
                &&& result == Ok::<TipOutcome, TipLinkError>(
                    TipOutcome {
                        record: spec_record_after(*old(store), *old(accounts), amount, now),
                    },
                )
                &&& *final(accounts) == spec_accounts_after(*old(accounts), amount)
                &&& final(store).spec_get(old(accounts).sender.id, old(accounts).recipient.id)
                    == Some(spec_record_after(*old(store), *old(accounts), amount, now))
                &&& forall|s2: u64, r2: u64|
                    !(s2 == old(accounts).sender.id && r2 == old(accounts).recipient.id)
                        ==> #[trigger] final(store).spec_get(s2, r2) == old(store).spec_get(s2, r2)
            },
        },
{
    if amount == 0 {
        return Err(TipLinkError::InvalidAmount);
    }
    if accounts.sender.id == accounts.recipient.id {
        return Err(TipLinkError::SelfTip);
    }
    match accounts.asset {
        AssetAccounts::Native => {
            if accounts.sender.balance < amount {
                return Err(TipLinkError::InsufficientFunds);
            }
            let mut from = accounts.sender;
            let mut to = accounts.recipient;
            match transfer_native(&mut from, &mut to, amount) {
                Ok(()) => {
                    accounts.sender = from;
                    accounts.recipient = to;
                },
                Err(_) => {
                    return Err(TipLinkError::TransferFailed);
                },
            }
        },
        AssetAccounts::Token { mint, sender_token_account, recipient_token_account } => {
            if mint == NATIVE_MINT {
                return Err(TipLinkError::InvalidRecipient);
            }
            if sender_token_account.mint != mint {
                return Err(TipLinkError::InvalidRecipient);
            }
            if recipient_token_account.mint != mint {
                return Err(TipLinkError::InvalidRecipient);
            }
            if sender_token_account.amount < amount {
                return Err(TipLinkError::InsufficientFunds);
            }
            let mut from = sender_token_account;
            let mut to = recipient_token_account;
            match transfer_token(mint, &mut from, &mut to, accounts.sender.id, amount) {
                Ok(()) => {
                    accounts.asset = AssetAccounts::Token {
                        mint,
                        sender_token_account: from,
                        recipient_token_account: to,
                    };
                },
                Err(_) => {
                    return Err(TipLinkError::TransferFailed);
                },
            }
        },
    }
    let mut tip = store.get_or_create(accounts.sender.id, accounts.recipient.id);
    tip.amount = amount;
    tip.token_mint = match accounts.asset {
        AssetAccounts::Native => NATIVE_MINT,
        AssetAccounts::Token { mint, .. } => mint,
    };
    tip.timestamp = now;
    tip.tip_count = if tip.tip_count == u64::MAX {
        u64::MAX
    } else {
        tip.tip_count + 1
    };
    proof {
        assert(record_wf(tip));
    }
    match store.save(tip) {
        Ok(()) => Ok(TipOutcome { record: tip }),
        Err(e) => {
            proof {
                assert(false);
            }
            Err(e)
        },
    }
}

} // verus!
