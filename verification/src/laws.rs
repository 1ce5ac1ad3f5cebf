//! The ledger's laws, stated over the same spec functions that the
//! executable functions' contracts use.
//!
//! `send_tip`'s contract ties its result and every state change to
//! `spec_process_error`, `spec_accounts_after` and `spec_record_after`; on
//! any error it leaves the store and the accounts untouched. Each lemma
//! below pins down what those spec functions say on a whole class of
//! inputs, so together with that contract it is a statement about every
//! call of `send_tip`.

use vstd::prelude::*;

use crate::addressing::spec_derive_bump;
use crate::errors::TipLinkError;
use crate::instructions::send_tip::spec_accounts_after;
use crate::instructions::send_tip::spec_asset_id;
use crate::instructions::send_tip::spec_process_error;
use crate::instructions::send_tip::spec_record_after;
use crate::instructions::send_tip::AssetAccounts;
use crate::instructions::send_tip::SendTip;
use crate::states::record_wf;
use crate::states::Tip;
use crate::store::pair_matches;
use crate::store::seq_has_pair;
use crate::store::seq_pair_index;
use crate::store::RecordStore;
use crate::transfer::TokenAccount;

verus! {

/// A request for a zero amount always fails with `InvalidAmount`, whatever
/// the parties and the asset; by `send_tip`'s contract, no record is then
/// created or modified and no balance changes.
pub proof fn lemma_zero_amount_rejected(accounts: SendTip, amount: u64)
    requires
        amount == 0,
    ensures
        spec_process_error(accounts, amount) == Some(TipLinkError::InvalidAmount),
{
}

/// A request from a party to itself always fails with `SelfTip`, whatever
/// the (non-zero) amount and the asset; by `send_tip`'s contract, no record
/// or balance then changes. A zero amount is rejected first, as
/// `InvalidAmount`, so it is left out here.
pub proof fn lemma_self_tip_rejected(accounts: SendTip, amount: u64)
    requires
        amount != 0,
        accounts.sender.id == accounts.recipient.id,
    ensures
        spec_process_error(accounts, amount) == Some(TipLinkError::SelfTip),
{
}

/// On every successful native tip, the sender's native balance decreases by
/// the amount, the recipient's increases by it, and the pair's tip count
/// advances by exactly one (counting an absent record as zero). The count
/// saturates at its maximum, so a pair already at it is left out here.
pub proof fn lemma_native_tip_effects(store: RecordStore, accounts: SendTip, amount: u64, now: i64)
    requires
        accounts.asset is Native,
        spec_process_error(accounts, amount) is None,
        match store.spec_get(accounts.sender.id, accounts.recipient.id) {
            Some(t) => t.tip_count < u64::MAX,
            None => true,
        },
    ensures
        spec_accounts_after(accounts, amount).sender.balance == accounts.sender.balance - amount,
        spec_accounts_after(accounts, amount).recipient.balance == accounts.recipient.balance
            + amount,
        spec_record_after(store, accounts, amount, now).tip_count == match store.spec_get(
            accounts.sender.id,
            accounts.recipient.id,
        ) {
            Some(t) => t.tip_count + 1,
            None => 1,
        },
{
}

/// On every successful token tip, the sender's token balance decreases by
/// the amount, the recipient's token balance increases by it, and the
/// recorded asset is exactly the token's identifier.
pub proof fn lemma_token_tip_effects(
    store: RecordStore,
    accounts: SendTip,
    amount: u64,
    now: i64,
    mint: u64,
    sender_token_account: TokenAccount,
    recipient_token_account: TokenAccount,
)
    requires
        accounts.asset == (AssetAccounts::Token { mint, sender_token_account, recipient_token_account }),
        spec_process_error(accounts, amount) is None,
    ensures
        spec_accounts_after(accounts, amount).asset == (AssetAccounts::Token {
            mint,
            sender_token_account: TokenAccount {
                owner: sender_token_account.owner,
                mint: sender_token_account.mint,
                amount: (sender_token_account.amount - amount) as u64,
            },
            recipient_token_account: TokenAccount {
                owner: recipient_token_account.owner,
                mint: recipient_token_account.mint,
                amount: (recipient_token_account.amount + amount) as u64,
            },
        }),
        spec_record_after(store, accounts, amount, now).token_mint == mint,
{
}

/// Addressing is idempotent: against equal store states, `get_or_create`
/// for the same pair yields the very same record, and that record carries
/// the pair itself together with its derived key proof.
pub proof fn lemma_get_or_create_idempotent(
    store1: RecordStore,
    store2: RecordStore,
    sender: u64,
    recipient: u64,
)
    requires
        store1.wf(),
        store1@ == store2@,
    ensures
        store1.spec_get_or_create(sender, recipient) == store2.spec_get_or_create(
            sender,
            recipient,
        ),
        store1.spec_get_or_create(sender, recipient).sender == sender,
        store1.spec_get_or_create(sender, recipient).recipient == recipient,
        store1.spec_get_or_create(sender, recipient).bump == spec_derive_bump(sender, recipient),
{
    if seq_has_pair(store1@, sender, recipient) {
        let i = seq_pair_index(store1@, sender, recipient);
        assert(0 <= i < store1@.len() && pair_matches(store1@[i], sender, recipient)) by {
            assert(exists|k: int|
                0 <= k < store1@.len() && #[trigger] pair_matches(store1@[k], sender, recipient));
        }
        assert(record_wf(store1@[i]));
    }
}

/// Two sequential successful tips for one pair leave a single record whose
/// count is two and whose amount, asset and timestamp come from the second
/// tip alone — never an aggregate of both. The store states are related as
/// `send_tip`'s contract leaves them: the pair is new in the first, and the
/// second finds exactly the first tip's record.
pub proof fn lemma_two_tips_one_record(
    store0: RecordStore,
    store1: RecordStore,
    accounts1: SendTip,
    amount1: u64,
    now1: i64,
    accounts2: SendTip,
    amount2: u64,
    now2: i64,
)
    requires
        accounts2.sender.id == accounts1.sender.id,
        accounts2.recipient.id == accounts1.recipient.id,
        store0.spec_get(accounts1.sender.id, accounts1.recipient.id) is None,
        store1.spec_get(accounts1.sender.id, accounts1.recipient.id) == Some(
            spec_record_after(store0, accounts1, amount1, now1),
        ),
    ensures
        spec_record_after(store1, accounts2, amount2, now2) == (Tip {
            sender: accounts1.sender.id,
            recipient: accounts1.recipient.id,
            amount: amount2,
            token_mint: spec_asset_id(accounts2.asset),
            timestamp: now2,
            tip_count: 2,
            bump: spec_derive_bump(accounts1.sender.id, accounts1.recipient.id),
        }),
{
}

} // verus!
