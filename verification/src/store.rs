//! The record store: a deterministic keyed store mapping each
//! (sender, recipient) pair to its single tip record.
//!
//! Records are kept in insertion order and addressed through the derived
//! location of their pair; derivation is collision-free, so each pair owns at
//! most one record. `get_or_create` reads (or freshly builds, without
//! persisting) the record of a pair; `save` authenticates a record against
//! its own pair and persists it, creating or mutating in place.

use vstd::prelude::*;

use crate::addressing::derive_bump;
use crate::addressing::derive_location;
use crate::addressing::lemma_derive_location_injective;
use crate::addressing::spec_derive_bump;
use crate::addressing::spec_derive_location;
use crate::errors::TipLinkError;
use crate::states::record_wf;
use crate::states::Tip;
use crate::states::NATIVE_MINT;

verus! {

/// Whether a record belongs to the given (sender, recipient) pair.
pub open spec fn pair_matches(t: Tip, sender: u64, recipient: u64) -> bool {
    t.sender == sender && t.recipient == recipient
}

/// Whether some record in the sequence belongs to the pair.
pub open spec fn seq_has_pair(records: Seq<Tip>, sender: u64, recipient: u64) -> bool {
    exists|i: int|
        0 <= i < records.len() && #[trigger] pair_matches(records[i], sender, recipient)
}

/// The index of the record of the pair (meaningful only when one exists).
pub open spec fn seq_pair_index(records: Seq<Tip>, sender: u64, recipient: u64) -> int {
    choose|i: int|
        0 <= i < records.len() && #[trigger] pair_matches(records[i], sender, recipient)
}

/// The record of the pair, if any.
pub open spec fn seq_get_pair(records: Seq<Tip>, sender: u64, recipient: u64) -> Option<Tip> {
    if seq_has_pair(records, sender, recipient) {
        Some(records[seq_pair_index(records, sender, recipient)])
    } else {
        None
    }
}

/// No two records belong to the same pair.
pub open spec fn pairs_unique(records: Seq<Tip>) -> bool {
    forall|i: int, j: int| #![trigger records[i], records[j]]
        0 <= i < j < records.len() ==> !pair_matches(
            records[i],
            records[j].sender,
            records[j].recipient,
        )
}

/// When a record of the pair stands at index `i`, the lookup finds exactly it.
pub proof fn lemma_seq_get_pair_at(records: Seq<Tip>, sender: u64, recipient: u64, i: int)
    requires
        pairs_unique(records),
        0 <= i < records.len(),
        pair_matches(records[i], sender, recipient),
    ensures
        seq_has_pair(records, sender, recipient),
        seq_pair_index(records, sender, recipient) == i,
        seq_get_pair(records, sender, recipient) == Some(records[i]),
{
    assert(seq_has_pair(records, sender, recipient));
    let j = seq_pair_index(records, sender, recipient);
    assert(0 <= j < records.len() && pair_matches(records[j], sender, recipient)) by {
        assert(exists|k: int|
            0 <= k < records.len() && #[trigger] pair_matches(records[k], sender, recipient));
    }
    if i < j {
        assert(!pair_matches(records[i], records[j].sender, records[j].recipient));
        assert(false);
    }
    if j < i {
        assert(!pair_matches(records[j], records[i].sender, records[i].recipient));
        assert(false);
    }
}

/// The tip-record store.
pub struct RecordStore {
    records: Vec<Tip>,
}

impl View for RecordStore {
    type V = Seq<Tip>;

    closed spec fn view(&self) -> Seq<Tip> {
        self.records@
    }
}

impl RecordStore {
    /// Every stored record is well-formed and no pair owns two records.
    pub open spec fn wf(&self) -> bool {
        &&& pairs_unique(self@)
        &&& forall|i: int| 0 <= i < self@.len() ==> record_wf(#[trigger] self@[i])
    }

    /// The record stored for the pair, if any.
    pub open spec fn spec_get(&self, sender: u64, recipient: u64) -> Option<Tip> {
        seq_get_pair(self@, sender, recipient)
    }

    /// A fresh, not yet persisted record for the pair: no tip has been
    /// counted, but the key proof is already derived.
    pub open spec fn spec_fresh_record(sender: u64, recipient: u64) -> Tip {
        Tip {
            sender,
            recipient,
            amount: 0,
            token_mint: NATIVE_MINT,
            timestamp: 0,
            tip_count: 0,
            bump: spec_derive_bump(sender, recipient),
        }
    }

    /// What `get_or_create` returns: the stored record of the pair, or a
    /// fresh one.
    pub open spec fn spec_get_or_create(&self, sender: u64, recipient: u64) -> Tip {
        match self.spec_get(sender, recipient) {
            Some(t) => t,
            None => Self::spec_fresh_record(sender, recipient),
        }
    }

    /// Which error `save` rejects a record with, if any.
    pub open spec fn spec_save_error(record: Tip) -> Option<TipLinkError> {
        if record.amount == 0 {
            Some(TipLinkError::InvalidAmount)
        } else if record.sender == record.recipient {
            Some(TipLinkError::SelfTip)
        } else if record.bump != spec_derive_bump(record.sender, record.recipient)
            || record.tip_count == 0 {
            Some(TipLinkError::InvalidRecipient)
        } else {
            None
        }
    }

    /// An empty store.
    pub fn new() -> (store: Self)
        ensures
            store@ == Seq::<Tip>::empty(),
            store.wf(),
    {
        RecordStore { records: Vec::new() }
    }

    /// How many pairs have a record.
    pub fn len(&self) -> (n: usize)
        ensures
            n == self@.len(),
    {
        self.records.len()
    }

    /// Finds the index of the pair's record by its derived location.
    fn find_index(&self, sender: u64, recipient: u64) -> (found: Option<usize>)
        requires
            self.wf(),
        ensures
            match found {
                Some(i) => {
                    &&& 0 <= i < self@.len()
                    &&& pair_matches(self@[i as int], sender, recipient)
                    &&& seq_get_pair(self@, sender, recipient) == Some(self@[i as int])
                    &&& seq_pair_index(self@, sender, recipient) == i as int
                },
                None => !seq_has_pair(self@, sender, recipient),
            },
    {
        let target: u128 = derive_location(sender, recipient);
        let n: usize = self.records.len();
        let mut i: usize = 0;
        while i < n
            invariant
                self.wf(),
                n == self@.len(),
                i <= n,
                target == spec_derive_location(sender, recipient),
                forall|j: int|
                    0 <= j < i ==> !(#[trigger] pair_matches(self@[j], sender, recipient)),
            decreases n - i,
        {
            let rec = self.records[i];
            let loc = derive_location(rec.sender, rec.recipient);
            if loc == target {
                proof {
                    lemma_derive_location_injective(rec.sender, rec.recipient, sender, recipient);
                    lemma_seq_get_pair_at(self@, sender, recipient, i as int);
                }
                return Some(i);
            }
            proof {
                if pair_matches(self@[i as int], sender, recipient) {
                    assert(loc == target);
                }
            }
            i = i + 1;
        }
        None
    }

    /// Returns the record of the pair, creating (but not persisting) a fresh
    /// one when the pair has never been tipped. Deterministic in the store's
    /// state and the pair, so repeated calls with no intervening save agree.
    pub fn get_or_create(&self, sender: u64, recipient: u64) -> (record: Tip)
        requires
            self.wf(),
        ensures
            record == self.spec_get_or_create(sender, recipient),
            record.sender == sender,
            record.recipient == recipient,
            record.bump == spec_derive_bump(sender, recipient),
            record.tip_count >= 1 <==> self.spec_get(sender, recipient) is Some,
    {
        match self.find_index(sender, recipient) {
            Some(i) => {
                let record = self.records[i];
                proof {
                    assert(record_wf(self@[i as int]));
                }
                record
            },
            None => Tip {
                sender,
                recipient,
                amount: 0,
                token_mint: NATIVE_MINT,
                timestamp: 0,
                tip_count: 0,
                bump: derive_bump(sender, recipient),
            },
        }
    }

    /// Authenticates the record against its own pair (key proof, non-zero
    /// amount and count, no self pair) and persists it: the pair's record is
    /// created or replaced, and no other pair's record changes.
    pub fn save(&mut self, record: Tip) -> (result: Result<(), TipLinkError>)
        requires
            old(self).wf(),
        ensures
            final(self).wf(),
            match Self::spec_save_error(record) {
                Some(e) => result == Err::<(), TipLinkError>(e) && final(self)@ == old(self)@,
                None => {
                    &&& result == Ok::<(), TipLinkError>(())
                    &&& final(self).spec_get(record.sender, record.recipient) == Some(record)
                    &&& forall|s2: u64, r2: u64|
                        !(s2 == record.sender && r2 == record.recipient)
                            ==> #[trigger] final(self).spec_get(s2, r2) == old(self).spec_get(
                            s2,
                            r2,
                        )
                },
            },
    {
        let expected_bump = derive_bump(record.sender, record.recipient);
        if record.amount == 0 {
            return Err(TipLinkError::InvalidAmount);
        }
        if record.sender == record.recipient {
            return Err(TipLinkError::SelfTip);
        }
        if record.bump != expected_bump || record.tip_count == 0 {
            return Err(TipLinkError::InvalidRecipient);
        }
        assert(record_wf(record));
        match self.find_index(record.sender, record.recipient) {
            Some(i) => {
                let ghost before = self@;
                self.records[i] = record;
                proof {
                    lemma_update_keeps_other_pairs(before, i as int, record);
                    assert forall|k: int| 0 <= k < self@.len() implies record_wf(
                        #[trigger] self@[k],
                    ) by {
                        if k != i as int {
                            assert(self@[k] == before[k]);
                            assert(record_wf(before[k]));
                        }
                    }
                }
            },
            None => {
                let ghost before = self@;
                self.records.push(record);
                proof {
                    lemma_push_keeps_other_pairs(before, record);
                    assert forall|k: int| 0 <= k < self@.len() implies record_wf(
                        #[trigger] self@[k],
                    ) by {
                        if k != before.len() as int {
                            assert(self@[k] == before[k]);
                            assert(record_wf(before[k]));
                        }
                    }
                }
            },
        }
        Ok(())
    }
}

/// Replacing the pair's record in place keeps uniqueness, makes the lookup
/// of that pair yield the new record, and leaves every other pair's lookup
/// unchanged.
proof fn lemma_update_keeps_other_pairs(records: Seq<Tip>, i: int, record: Tip)
    requires
        pairs_unique(records),
        0 <= i < records.len(),
        pair_matches(records[i], record.sender, record.recipient),
    ensures
        pairs_unique(records.update(i, record)),
        seq_get_pair(records.update(i, record), record.sender, record.recipient) == Some(record),
        forall|s2: u64, r2: u64|
            !(s2 == record.sender && r2 == record.recipient) ==> #[trigger] seq_get_pair(
                records.update(i, record),
                s2,
                r2,
            ) == seq_get_pair(records, s2, r2),
{
    let u = records.update(i, record);
    assert(u.len() == records.len());
    assert forall|a: int, b: int| 0 <= a < b < u.len() implies !pair_matches(
        u[a],
        u[b].sender,
        u[b].recipient,
    ) by {
        if a == i {
            if pair_matches(u[a], u[b].sender, u[b].recipient) {
                assert(pair_matches(records[i], records[b].sender, records[b].recipient));
            }
        } else if b == i {
            if pair_matches(u[a], u[b].sender, u[b].recipient) {
                assert(pair_matches(records[a], records[i].sender, records[i].recipient));
            }
        } else {
            assert(!pair_matches(records[a], records[b].sender, records[b].recipient));
        }
    }
    lemma_seq_get_pair_at(u, record.sender, record.recipient, i);
    assert forall|s2: u64, r2: u64| !(s2 == record.sender && r2 == record.recipient)
        implies #[trigger] seq_get_pair(u, s2, r2) == seq_get_pair(records, s2, r2) by {
        if seq_has_pair(records, s2, r2) {
            let j = seq_pair_index(records, s2, r2);
            assert(0 <= j < records.len() && pair_matches(records[j], s2, r2)) by {
                assert(exists|k: int|
                    0 <= k < records.len() && #[trigger] pair_matches(records[k], s2, r2));
            }
            assert(j != i);
            lemma_seq_get_pair_at(records, s2, r2, j);
            lemma_seq_get_pair_at(u, s2, r2, j);
            assert(u[j] == records[j]);
        } else {
            if seq_has_pair(u, s2, r2) {
                let k = seq_pair_index(u, s2, r2);
                assert(0 <= k < u.len() && pair_matches(u[k], s2, r2)) by {
                    assert(exists|m: int|
                        0 <= m < u.len() && #[trigger] pair_matches(u[m], s2, r2));
                }
                assert(k != i);
                assert(pair_matches(records[k], s2, r2));
            }
        }
    }
}

/// Appending the record of a pair not yet in the store keeps uniqueness,
/// makes the lookup of that pair yield the new record, and leaves every
/// other pair's lookup unchanged.
proof fn lemma_push_keeps_other_pairs(records: Seq<Tip>, record: Tip)
    requires
        pairs_unique(records),
        !seq_has_pair(records, record.sender, record.recipient),
    ensures
        pairs_unique(records.push(record)),
        seq_get_pair(records.push(record), record.sender, record.recipient) == Some(record),
        forall|s2: u64, r2: u64|
            !(s2 == record.sender && r2 == record.recipient) ==> #[trigger] seq_get_pair(
                records.push(record),
                s2,
                r2,
            ) == seq_get_pair(records, s2, r2),
{
    let u = records.push(record);
    assert(u.len() == records.len() + 1);
    assert(u[records.len() as int] == record);
    assert forall|a: int, b: int| 0 <= a < b < u.len() implies !pair_matches(
        u[a],
        u[b].sender,
        u[b].recipient,
    ) by {
        if b == records.len() as int {
            assert(u[a] == records[a]);
            if pair_matches(u[a], u[b].sender, u[b].recipient) {
                assert(pair_matches(records[a], record.sender, record.recipient));
                assert(seq_has_pair(records, record.sender, record.recipient));
            }
        } else {
            assert(u[a] == records[a]);
            assert(u[b] == records[b]);
            assert(!pair_matches(records[a], records[b].sender, records[b].recipient));
        }
    }
    lemma_seq_get_pair_at(u, record.sender, record.recipient, records.len() as int);
    assert forall|s2: u64, r2: u64| !(s2 == record.sender && r2 == record.recipient)
        implies #[trigger] seq_get_pair(u, s2, r2) == seq_get_pair(records, s2, r2) by {
        if seq_has_pair(records, s2, r2) {
            let j = seq_pair_index(records, s2, r2);
            assert(0 <= j < records.len() && pair_matches(records[j], s2, r2)) by {
                assert(exists|k: int|
                    0 <= k < records.len() && #[trigger] pair_matches(records[k], s2, r2));
            }
            lemma_seq_get_pair_at(records, s2, r2, j);
            lemma_seq_get_pair_at(u, s2, r2, j);
            assert(u[j] == records[j]);
        } else {
            if seq_has_pair(u, s2, r2) {
                let k = seq_pair_index(u, s2, r2);
                assert(0 <= k < u.len() && pair_matches(u[k], s2, r2)) by {
                    assert(exists|m: int|
                        0 <= m < u.len() && #[trigger] pair_matches(u[m], s2, r2));
                }
                if k == records.len() as int {
                    assert(pair_matches(record, s2, r2));
                } else {
                    assert(pair_matches(records[k], s2, r2));
                }
            }
        }
    }
}

} // verus!
