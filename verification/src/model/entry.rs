use vstd::prelude::*;
use crate::model::account::Account;

verus! {

/// A monetary amount, carried as the bit pattern of the store's
/// double-precision column. The repository never interprets the number;
/// it only moves it between the caller and the store, so the payload is
/// kept opaque and conversion happens at the process boundary.
#[derive(Debug, Clone, Copy, PartialEq, Eq, Structural)]
pub struct Amount {
    pub bits: u64,
}

/// A point in time in UTC, as microseconds since the Unix epoch — the
/// resolution the store keeps for its timestamp columns. The textual
/// rendering of the fixed wire format lives at the process boundary.
#[derive(Debug, Clone, Copy, PartialEq, Eq, Structural)]
pub struct Timestamp {
    pub micros: i64,
}

/// A double-entry bookkeeping entry: a description, an amount, the moment
/// the event took place, and the credited and debited accounts.
#[derive(Debug, PartialEq, Eq)]
pub struct Entry {
    pub description: String,
    pub amount: Amount,
    pub event_date: Timestamp,
    pub credit: Account,
    pub debit: Account,
}

impl Clone for Entry {
    fn clone(&self) -> (res: Self)
        ensures
            res == *self,
    {
        Entry {
            description: self.description.clone(),
            amount: self.amount,
            event_date: self.event_date,
            credit: self.credit.clone(),
            debit: self.debit.clone(),
        }
    }
}

} // verus!
