//! A minimal peer-to-peer tip ledger.
//!
//! A tip moves value (native currency or a fungible token) from a sender to a
//! recipient and records the cumulative tipping activity between the pair in a
//! single per-pair record, stored at a deterministically derived location.

use vstd::prelude::*;

pub mod addressing;
pub mod errors;
pub mod instructions;
pub mod laws;
pub mod states;
pub mod store;
pub mod transfer;

use crate::errors::TipLinkError;
use crate::instructions::send_tip::spec_accounts_after;
use crate::instructions::send_tip::spec_process_error;
use crate::instructions::send_tip::spec_record_after;
use crate::instructions::send_tip::SendTip;
use crate::instructions::send_tip::TipOutcome;
use crate::store::RecordStore;

verus! {

/// The ledger's only entry point: processes one tip request against the
/// store and the supplied accounts, stamped with the collaborator-supplied
/// time `now`. Succeeds with a snapshot of the pair's updated record, or
/// fails atomically with one typed error and no state change.
pub fn send_tip(
    store: &mut RecordStore,
    accounts: &mut SendTip,
    amount: u64,
    now: i64,
) -> (result: Result<TipOutcome, TipLinkError>)
    requires
        old(store).wf(),
    ensures
        final(store).wf(),
        match spec_process_error(*old(accounts), amount) {
            Some(e) => {
                &&& result == Err::<TipOutcome, TipLinkError>(e)
                &&& *final(accounts) == *old(accounts)
                &&& final(store)@ == old(store)@
            },
            None => {
                &&& result == Ok::<TipOutcome, TipLinkError>(
                    TipOutcome {
                        record: spec_record_after(*old(store), *old(accounts), amount, now),
                    },
                )
                &&& *final(accounts) == spec_accounts_after(*old(accounts), amount)
                &&& final(store).spec_get(old(accounts).sender.id, old(accounts).recipient.id)
                    == Some(spec_record_after(*old(store), *old(accounts), amount, now))
                &&& forall|s2: u64, r2: u64|
                    !(s2 == old(accounts).sender.id && r2 == old(accounts).recipient.id)
                        ==> #[trigger] final(store).spec_get(s2, r2) == old(store).spec_get(s2, r2)
            },
        },
{
    instructions::send_tip::send_tip(store, accounts, amount, now)
}

} // verus!
