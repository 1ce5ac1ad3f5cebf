use tiplink::addressing::derive_bump;
use tiplink::addressing::derive_location;
use tiplink::errors::TipLinkError;
use tiplink::instructions::send_tip::AssetAccounts;
use tiplink::instructions::send_tip::SendTip;
use tiplink::instructions::send_tip::TipOutcome;
use tiplink::send_tip;
use tiplink::states::Tip;
use tiplink::states::NATIVE_MINT;
use tiplink::store::RecordStore;
use tiplink::transfer::TokenAccount;
use tiplink::transfer::Wallet;

fn native_pair(sender_balance: u64, recipient_balance: u64) -> SendTip {
    SendTip {
        sender: Wallet { id: 1, balance: sender_balance },
        recipient: Wallet { id: 2, balance: recipient_balance },
        asset: AssetAccounts::Native,
    }
}

fn token_pair(mint: u64, sender_tokens: u64, recipient_tokens: u64) -> SendTip {
    SendTip {
        sender: Wallet { id: 1, balance: 500 },
        recipient: Wallet { id: 2, balance: 0 },
        asset: AssetAccounts::Token {
            mint,
            sender_token_account: TokenAccount { owner: 1, mint, amount: sender_tokens },
            recipient_token_account: TokenAccount { owner: 2, mint, amount: recipient_tokens },
        },
    }
}

#[test]
fn native_tip_moves_balances_and_records() {
    let mut store = RecordStore::new();
    let mut accounts = native_pair(500, 0);
    let result = send_tip(&mut store, &mut accounts, 100, 7);
    let expected = Tip {
        sender: 1,
        recipient: 2,
        amount: 100,
        token_mint: NATIVE_MINT,
        timestamp: 7,
        tip_count: 1,
        bump: derive_bump(1, 2),
    };
    assert_eq!(result, Ok(TipOutcome { record: expected }));
    assert_eq!(accounts.sender.balance, 400);
    assert_eq!(accounts.recipient.balance, 100);
    assert_eq!(store.len(), 1);
    assert_eq!(store.get_or_create(1, 2), expected);
}

#[test]
fn scenario_two_tips_then_shortfall_then_self_tip() {
    let mut store = RecordStore::new();
    let mut accounts = native_pair(500, 0);

    let first = send_tip(&mut store, &mut accounts, 100, 1).unwrap();
    assert_eq!(accounts.sender.balance, 400);
    assert_eq!(accounts.recipient.balance, 100);
    assert_eq!(first.record.amount, 100);
    assert_eq!(first.record.tip_count, 1);
    assert_eq!(first.record.timestamp, 1);

    let second = send_tip(&mut store, &mut accounts, 50, 2).unwrap();
    assert_eq!(accounts.sender.balance, 350);
    assert_eq!(accounts.recipient.balance, 150);
    assert_eq!(second.record.amount, 50);
    assert_eq!(second.record.tip_count, 2);
    assert_eq!(second.record.timestamp, 2);
    assert_eq!(store.len(), 1);

    let shortfall = send_tip(&mut store, &mut accounts, 10_000, 3);
    assert_eq!(shortfall, Err(TipLinkError::InsufficientFunds));
    assert_eq!(accounts.sender.balance, 350);
    assert_eq!(accounts.recipient.balance, 150);
    assert_eq!(store.get_or_create(1, 2), second.record);

    let mut self_accounts = SendTip {
        sender: Wallet { id: 1, balance: 350 },
        recipient: Wallet { id: 1, balance: 350 },
        asset: AssetAccounts::Native,
    };
    let selfish = send_tip(&mut store, &mut self_accounts, 10, 4);
    assert_eq!(selfish, Err(TipLinkError::SelfTip));
    assert_eq!(store.len(), 1);
}

#[test]
fn zero_amount_is_rejected_with_no_state_change() {
    let mut store = RecordStore::new();
    let mut accounts = native_pair(500, 0);
    let result = send_tip(&mut store, &mut accounts, 0, 1);
    assert_eq!(result, Err(TipLinkError::InvalidAmount));
    assert_eq!(accounts, native_pair(500, 0));
    assert_eq!(store.len(), 0);
}

#[test]
fn zero_amount_is_rejected_for_token_asset_too() {
    let mut store = RecordStore::new();
    let mut accounts = token_pair(9, 30, 0);
    let result = send_tip(&mut store, &mut accounts, 0, 1);
    assert_eq!(result, Err(TipLinkError::InvalidAmount));
    assert_eq!(accounts, token_pair(9, 30, 0));
    assert_eq!(store.len(), 0);
}

#[test]
fn self_tip_is_rejected_whatever_the_asset() {
    let mut store = RecordStore::new();
    let mut native_accounts = SendTip {
        sender: Wallet { id: 5, balance: 40 },
        recipient: Wallet { id: 5, balance: 40 },
        asset: AssetAccounts::Native,
    };
    assert_eq!(send_tip(&mut store, &mut native_accounts, 10, 1), Err(TipLinkError::SelfTip));

    let mut token_accounts = SendTip {
        sender: Wallet { id: 5, balance: 40 },
        recipient: Wallet { id: 5, balance: 40 },
        asset: AssetAccounts::Token {
            mint: 9,
            sender_token_account: TokenAccount { owner: 5, mint: 9, amount: 100 },
            recipient_token_account: TokenAccount { owner: 5, mint: 9, amount: 0 },
        },
    };
    assert_eq!(send_tip(&mut store, &mut token_accounts, 10, 2), Err(TipLinkError::SelfTip));
    assert_eq!(store.len(), 0);
}

#[test]
fn token_tip_moves_token_balances_and_records_mint() {
    let mut store = RecordStore::new();
    let mut accounts = token_pair(9, 30, 5);
    let result = send_tip(&mut store, &mut accounts, 20, 11);
    let expected = Tip {
        sender: 1,
        recipient: 2,
        amount: 20,
        token_mint: 9,
        timestamp: 11,
        tip_count: 1,
        bump: derive_bump(1, 2),
    };
    assert_eq!(result, Ok(TipOutcome { record: expected }));
    assert_eq!(accounts.sender.balance, 500);
    assert_eq!(accounts.recipient.balance, 0);
    match accounts.asset {
        AssetAccounts::Token { mint, sender_token_account, recipient_token_account } => {
            assert_eq!(mint, 9);
            assert_eq!(sender_token_account.amount, 10);
            assert_eq!(recipient_token_account.amount, 25);
        }
        AssetAccounts::Native => panic!("asset class changed"),
    }
    assert_eq!(store.get_or_create(1, 2), expected);
}

#[test]
fn token_tip_with_mismatched_mint_is_rejected() {
    let mut store = RecordStore::new();
    let mut accounts = SendTip {
        sender: Wallet { id: 1, balance: 500 },
        recipient: Wallet { id: 2, balance: 0 },
        asset: AssetAccounts::Token {
            mint: 9,
            sender_token_account: TokenAccount { owner: 1, mint: 8, amount: 30 },
            recipient_token_account: TokenAccount { owner: 2, mint: 9, amount: 0 },
        },
    };
    assert_eq!(send_tip(&mut store, &mut accounts, 10, 1), Err(TipLinkError::InvalidRecipient));

    let mut accounts2 = SendTip {
        sender: Wallet { id: 1, balance: 500 },
        recipient: Wallet { id: 2, balance: 0 },
        asset: AssetAccounts::Token {
            mint: 9,
            sender_token_account: TokenAccount { owner: 1, mint: 9, amount: 30 },
            recipient_token_account: TokenAccount { owner: 2, mint: 7, amount: 0 },
        },
    };
    assert_eq!(send_tip(&mut store, &mut accounts2, 10, 2), Err(TipLinkError::InvalidRecipient));
    assert_eq!(store.len(), 0);
}

#[test]
fn token_tip_with_native_sentinel_mint_is_rejected() {
    let mut store = RecordStore::new();
    let mut accounts = token_pair(NATIVE_MINT, 30, 0);
    assert_eq!(send_tip(&mut store, &mut accounts, 10, 1), Err(TipLinkError::InvalidRecipient));
    assert_eq!(store.len(), 0);
}

#[test]
fn token_tip_without_funds_is_rejected() {
    let mut store = RecordStore::new();
    let mut accounts = token_pair(9, 5, 0);
    assert_eq!(send_tip(&mut store, &mut accounts, 10, 1), Err(TipLinkError::InsufficientFunds));
    assert_eq!(accounts, token_pair(9, 5, 0));
    assert_eq!(store.len(), 0);
}

#[test]
fn token_tip_with_foreign_paying_account_fails_at_transfer() {
    let mut store = RecordStore::new();
    let mut accounts = SendTip {
        sender: Wallet { id: 1, balance: 500 },
        recipient: Wallet { id: 2, balance: 0 },
        asset: AssetAccounts::Token {
            mint: 9,
            sender_token_account: TokenAccount { owner: 3, mint: 9, amount: 30 },
            recipient_token_account: TokenAccount { owner: 2, mint: 9, amount: 0 },
        },
    };
    assert_eq!(send_tip(&mut store, &mut accounts, 10, 1), Err(TipLinkError::TransferFailed));
    assert_eq!(store.len(), 0);
}

#[test]
fn native_tip_overflowing_recipient_fails_at_transfer() {
    let mut store = RecordStore::new();
    let mut accounts = native_pair(500, u64::MAX);
    assert_eq!(send_tip(&mut store, &mut accounts, 1, 1), Err(TipLinkError::TransferFailed));
    assert_eq!(accounts, native_pair(500, u64::MAX));
    assert_eq!(store.len(), 0);
}

#[test]
fn tip_count_saturates_at_maximum() {
    let mut store = RecordStore::new();
    let saturated = Tip {
        sender: 1,
        recipient: 2,
        amount: 3,
        token_mint: NATIVE_MINT,
        timestamp: 0,
        tip_count: u64::MAX,
        bump: derive_bump(1, 2),
    };
    assert_eq!(store.save(saturated), Ok(()));
    let mut accounts = native_pair(500, 0);
    let result = send_tip(&mut store, &mut accounts, 10, 1).unwrap();
    assert_eq!(result.record.tip_count, u64::MAX);
    assert_eq!(result.record.amount, 10);
}

#[test]
fn independent_pairs_keep_independent_records() {
    let mut store = RecordStore::new();
    let mut first = native_pair(500, 0);
    let mut second = SendTip {
        sender: Wallet { id: 3, balance: 80 },
        recipient: Wallet { id: 4, balance: 0 },
        asset: AssetAccounts::Native,
    };
    send_tip(&mut store, &mut first, 100, 1).unwrap();
    send_tip(&mut store, &mut second, 30, 2).unwrap();
    assert_eq!(store.len(), 2);
    assert_eq!(store.get_or_create(1, 2).amount, 100);
    assert_eq!(store.get_or_create(3, 4).amount, 30);
    assert_eq!(store.get_or_create(3, 4).tip_count, 1);
}

#[test]
fn opposite_directions_are_distinct_pairs() {
    let mut store = RecordStore::new();
    let mut forward = native_pair(500, 0);
    let mut backward = SendTip {
        sender: Wallet { id: 2, balance: 100 },
        recipient: Wallet { id: 1, balance: 400 },
        asset: AssetAccounts::Native,
    };
    send_tip(&mut store, &mut forward, 100, 1).unwrap();
    send_tip(&mut store, &mut backward, 40, 2).unwrap();
    assert_eq!(store.len(), 2);
    assert_eq!(store.get_or_create(1, 2).amount, 100);
    assert_eq!(store.get_or_create(2, 1).amount, 40);
}

#[test]
fn derived_locations_are_deterministic_and_distinct() {
    assert_eq!(derive_location(1, 2), derive_location(1, 2));
    assert_ne!(derive_location(1, 2), derive_location(2, 1));
    assert_ne!(derive_location(1, 2), derive_location(1, 3));
    assert_ne!(derive_location(0, 0), derive_location(0, 1));
    assert_eq!(derive_bump(1, 2), derive_bump(1, 2));
}
