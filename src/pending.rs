//! The pending-transfer ledger: at most one transfer identifier per
//! initiating account while its transfer is outstanding, so that a repeated
//! attempt reuses the identifier and the value ledger can deduplicate it.
//! Each record also names the round the transfer was made for.

use vstd::prelude::*;

use crate::identity::Identity;

verus! {

/// Outstanding transfers, keyed by the initiator's bytes: identifier and round.
#[verifier::external_body]
pub struct TransferTable {
    map: hashbrown::HashMap<[u8; 32], (u64, u64)>,
}

/// What a transfer table holds: initiator bytes to (identifier, round).
pub uninterp spec fn table_entries(t: TransferTable) -> Map<[u8; 32], (u64, u64)>;

/// Relies on `hashbrown::HashMap::new`: a new map holds nothing.
#[verifier::external_body]
fn table_new() -> (table: TransferTable)
    ensures
        table_entries(table).is_empty(),
{
    TransferTable { map: hashbrown::HashMap::new() }
}

/// Relies on `hashbrown::HashMap::get`: the value stored under the key, if
/// there is one.
#[verifier::external_body]
fn table_get(t: &TransferTable, key: &[u8; 32]) -> (r: Option<(u64, u64)>)
    ensures
        r == (if table_entries(*t).contains_key(*key) {
            Some(table_entries(*t)[*key])
        } else {
            None
        }),
{
    t.map.get(key).copied()
}

/// Relies on `hashbrown::HashMap::insert`: afterwards the key maps to the
/// value and no other entry has changed.
#[verifier::external_body]
fn table_insert(t: &mut TransferTable, key: [u8; 32], value: (u64, u64))
    ensures
        table_entries(*final(t)) == table_entries(*old(t)).insert(key, value),
{
    t.map.insert(key, value);
}

/// Relies on `hashbrown::HashMap::remove`: afterwards the key is absent and
/// no other entry has changed.
#[verifier::external_body]
fn table_remove(t: &mut TransferTable, key: &[u8; 32])
    ensures
        table_entries(*final(t)) == table_entries(*old(t)).remove(*key),
{
    t.map.remove(key);
}

/// Outstanding transfers and the next identifier to hand out.
pub struct PendingTransfers {
    table: TransferTable,
    nonce: u64,
}

impl PendingTransfers {
    /// The identifier and the round of each initiator's outstanding transfer.
    pub closed spec fn entries(&self) -> Map<[u8; 32], (u64, u64)> {
        table_entries(self.table)
    }

    /// The identifier that the next new transfer receives.
    pub closed spec fn next_id(&self) -> u64 {
        self.nonce
    }

    /// No transfer outstanding; identifiers start at zero.
    pub fn new() -> (r: PendingTransfers)
        ensures
            r.entries() == Map::<[u8; 32], (u64, u64)>::empty(),
            r.next_id() == 0,
    {
        PendingTransfers { table: table_new(), nonce: 0 }
    }

    /// The identifier and round of `initiator`'s outstanding transfer, if any.
    pub fn lookup(&self, initiator: &Identity) -> (r: Option<(u64, u64)>)
        ensures
            r == (if self.entries().contains_key(initiator.0) {
                Some(self.entries()[initiator.0])
            } else {
                None
            }),
    {
        table_get(&self.table, &initiator.0)
    }

    /// The identifier for a transfer by `initiator` in `round`: the
    /// outstanding one if there is one, else the next identifier, which is
    /// recorded for it with the round and the counter advanced (wrapping).
    pub fn acquire(&mut self, initiator: &Identity, round: u64) -> (id: u64)
        ensures
            old(self).entries().contains_key(initiator.0) ==> {
                &&& id == old(self).entries()[initiator.0].0
                &&& final(self).entries() == old(self).entries()
                &&& final(self).next_id() == old(self).next_id()
            },
            !old(self).entries().contains_key(initiator.0) ==> {
                &&& id == old(self).next_id()
                &&& final(self).entries() == old(self).entries().insert(initiator.0, (id, round))
                &&& final(self).next_id() == old(self).next_id().wrapping_add(1)
            },
    {
        match table_get(&self.table, &initiator.0) {
            Some(record) => record.0,
            None => {
                let id = self.nonce;
                self.nonce = self.nonce.wrapping_add(1);
                table_insert(&mut self.table, initiator.0, (id, round));
                id
            },
        }
    }

    /// A fresh identifier for a transfer that is made once and never
    /// repeated; nothing is recorded.
    pub fn issue(&mut self) -> (id: u64)
        ensures
            id == old(self).next_id(),
            final(self).next_id() == old(self).next_id().wrapping_add(1),
            final(self).entries() == old(self).entries(),
    {
        let id = self.nonce;
        self.nonce = self.nonce.wrapping_add(1);
        id
    }

    /// Forgets `initiator`'s outstanding transfer, whatever its outcome.
    pub fn release(&mut self, initiator: &Identity)
        ensures
            final(self).entries() == old(self).entries().remove(initiator.0),
            final(self).next_id() == old(self).next_id(),
    {
        table_remove(&mut self.table, &initiator.0);
    }
}

} // verus!
