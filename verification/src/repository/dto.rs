use vstd::prelude::*;
use crate::model;

verus! {

/// The transfer record of one row of the accounts table:
/// `id serial, name text, family integer`.
#[derive(Debug, PartialEq, Eq)]
pub struct Account {
    pub id: i32,
    pub name: String,
    pub family: i32,
}

/// The transfer record of one row of the entries table. The credited and
/// debited accounts appear only as foreign keys.
#[derive(Debug, PartialEq, Eq)]
pub struct Entry {
    pub id: i32,
    pub description: String,
    pub amount: model::entry::Amount,
    pub event_date: model::entry::Timestamp,
    pub credit_id: i32,
    pub debit_id: i32,
}

/// Whether a stored family code is one that the fixed bijection between
/// account families and small integers defines.
pub open spec fn spec_valid_family_code(code: i32) -> bool {
    1 <= code <= 5
}

/// Run-time check of `spec_valid_family_code`, for callers that receive
/// codes from outside and must reject undefined ones before decoding.
pub fn is_valid_family_code(code: i32) -> (r: bool)
    ensures
        r == spec_valid_family_code(code),
{
    1 <= code && code <= 5
}

/// The integer the store keeps for each account family.
pub open spec fn spec_family_to_int(family: model::account::AccountFamily) -> i32 {
    match family {
        model::account::AccountFamily::Asset => 1,
        model::account::AccountFamily::Liability => 2,
        model::account::AccountFamily::Equity => 3,
        model::account::AccountFamily::Revenue => 4,
        model::account::AccountFamily::Expense => 5,
    }
}

/// The account family a stored code decodes to. Outside the valid range
/// the value is immaterial: executable decoding excludes such codes.
pub open spec fn spec_family_from_int(code: i32) -> model::account::AccountFamily
    recommends
        spec_valid_family_code(code),
{
    if code == 1 {
        model::account::AccountFamily::Asset
    } else if code == 2 {
        model::account::AccountFamily::Liability
    } else if code == 3 {
        model::account::AccountFamily::Equity
    } else if code == 4 {
        model::account::AccountFamily::Revenue
    } else {
        model::account::AccountFamily::Expense
    }
}

/// Decodes a stored family code. The store must never contain an
/// undefined code, so meeting one is a programming-invariant violation:
/// the precondition excludes it instead of recovering at run time.
pub fn family_from_int(family: i32) -> (r: model::account::AccountFamily)
    requires
        spec_valid_family_code(family),
    ensures
        r == spec_family_from_int(family),
{
    if family == 1 {
        model::account::AccountFamily::Asset
    } else if family == 2 {
        model::account::AccountFamily::Liability
    } else if family == 3 {
        model::account::AccountFamily::Equity
    } else if family == 4 {
        model::account::AccountFamily::Revenue
    } else {
        model::account::AccountFamily::Expense
    }
}

/// Encodes an account family as the integer the store keeps.
pub fn family_to_int(family: &model::account::AccountFamily) -> (r: i32)
    ensures
        r == spec_family_to_int(*family),
{
    match family {
        model::account::AccountFamily::Asset => 1,
        model::account::AccountFamily::Liability => 2,
        model::account::AccountFamily::Equity => 3,
        model::account::AccountFamily::Revenue => 4,
        model::account::AccountFamily::Expense => 5,
    }
}

/// The family code mapping is a fixed bijection: decoding inverts
/// encoding, encoding inverts decoding on valid codes, and every encoded
/// code is valid.
pub proof fn lemma_family_code_bijection(family: model::account::AccountFamily, code: i32)
    ensures
        spec_family_from_int(spec_family_to_int(family)) == family,
        spec_valid_family_code(code) ==> spec_family_to_int(spec_family_from_int(code)) == code,
        spec_valid_family_code(spec_family_to_int(family)),
{
}

/// Decoding inverts encoding for account records: any domain value that
/// the record encoded from `a` decodes to is `a` itself. The store keeps
/// no part of an account beyond what the record carries, so a round trip
/// through the store loses nothing (the assigned identifier aside).
pub proof fn lemma_account_record_round_trip(
    a: model::account::Account,
    b: model::account::Account,
)
    requires
        <Account as DtoModelNoRef<model::account::Account>>::spec_from_model(a).models(b),
    ensures
        b == a,
{
    lemma_family_code_bijection(a.family, 0);
}

/// Conversion between a domain object and its transfer record, without
/// following references: identifiers and foreign keys are placeholders
/// that the repository fills in, never derived by the conversion itself.
pub trait DtoModelNoRef<T>: Sized {
    /// The record a given domain value encodes to.
    spec fn spec_from_model(t: T) -> Self;

    /// Whether this record can be decoded into a domain value.
    spec fn to_model_ok(&self) -> bool;

    /// What it means for a domain value to be the decoding of this record.
    spec fn models(&self, t: T) -> bool;

    fn from_model(t: &T) -> (r: Self)
        ensures
            r == Self::spec_from_model(*t),
    ;

    fn to_model(&self) -> (r: T)
        requires
            self.to_model_ok(),
        ensures
            self.models(r),
    ;
}

impl DtoModelNoRef<model::account::Account> for Account {
    open spec fn spec_from_model(t: model::account::Account) -> Account {
        Account { id: -1i32, name: t.name, family: spec_family_to_int(t.family) }
    }

    open spec fn to_model_ok(&self) -> bool {
        spec_valid_family_code(self.family)
    }

    open spec fn models(&self, t: model::account::Account) -> bool {
        t.name == self.name && t.family == spec_family_from_int(self.family)
    }

    fn from_model(t: &model::account::Account) -> (r: Account) {
        Account { id: -1, name: t.name.clone(), family: family_to_int(&t.family) }
    }

    fn to_model(&self) -> (r: model::account::Account) {
        model::account::Account {
            name: self.name.clone(),
            family: family_from_int(self.family),
        }
    }
}

impl DtoModelNoRef<model::entry::Entry> for Entry {
    open spec fn spec_from_model(t: model::entry::Entry) -> Entry {
        Entry {
            id: -1i32,
            description: t.description,
            amount: t.amount,
            event_date: t.event_date,
            credit_id: -1i32,
            debit_id: -1i32,
        }
    }

    open spec fn to_model_ok(&self) -> bool {
        true
    }

    /// The decoding carries the entry's own columns over; the two account
    /// references cannot be resolved here, so they decode to empty
    /// placeholder accounts that the repository replaces.
    open spec fn models(&self, t: model::entry::Entry) -> bool {
        &&& t.description == self.description
        &&& t.amount == self.amount
        &&& t.event_date == self.event_date
        &&& t.credit.name@ == Seq::<char>::empty()
        &&& t.credit.family == model::account::AccountFamily::Asset
        &&& t.debit.name@ == Seq::<char>::empty()
        &&& t.debit.family == model::account::AccountFamily::Asset
    }

    fn from_model(t: &model::entry::Entry) -> (r: Entry) {
        Entry {
            id: -1,
            description: t.description.clone(),
            amount: t.amount,
            event_date: t.event_date,
            credit_id: -1,
            debit_id: -1,
        }
    }

    fn to_model(&self) -> (r: model::entry::Entry) {
        model::entry::Entry {
            description: self.description.clone(),
            amount: self.amount,
            event_date: self.event_date,
            credit: model::account::Account {
                name: String::new(),
                family: model::account::AccountFamily::Asset,
            },
            debit: model::account::Account {
                name: String::new(),
                family: model::account::AccountFamily::Asset,
            },
        }
    }
}

} // verus!
