use vstd::prelude::*;

verus! {

/// The accounting classification of an account: the five fundamental
/// account families of double-entry bookkeeping.
#[derive(Debug, PartialEq, Eq)]
pub enum AccountFamily {
    Asset,
    Liability,
    Equity,
    Revenue,
    Expense,
}

/// A ledger account. The store-assigned numeric identifier is not part of
/// the domain object; it is tracked only by the cache and the store gateway.
#[derive(Debug, PartialEq, Eq)]
pub struct Account {
    pub name: String,
    pub family: AccountFamily,
}

impl Clone for AccountFamily {
    fn clone(&self) -> (res: Self)
        ensures
            res == *self,
    {
        match self {
            AccountFamily::Asset => AccountFamily::Asset,
            AccountFamily::Liability => AccountFamily::Liability,
            AccountFamily::Equity => AccountFamily::Equity,
            AccountFamily::Revenue => AccountFamily::Revenue,
            AccountFamily::Expense => AccountFamily::Expense,
        }
    }
}

impl Clone for Account {
    fn clone(&self) -> (res: Self)
        ensures
            res == *self,
    {
        Account { name: self.name.clone(), family: self.family.clone() }
    }
}

} // verus!
