pub mod cache;
pub mod db_listener;
pub mod dto;
pub mod filter;

use vstd::prelude::*;
use crate::model;
use crate::repository::cache::{AccountRepository, Repository as CacheRepository};
use crate::repository::cache::spec_has_account_named;
use crate::repository::dto::DtoModelNoRef;

verus! {

/// The error taxonomy of the repository layer: a row or referenced entity
/// is absent; a connection, pool or statement failed; or the one-time
/// startup work (cache warm-up, listener connect) failed, which aborts
/// the process.
#[derive(Debug, Clone, Copy, PartialEq, Eq, Structural)]
pub enum RepositoryError {
    NotFound,
    Persistence,
    FatalInit,
}

impl RepositoryError {
    /// A short human-readable description, for the process boundary.
    pub fn message(&self) -> (r: &'static str)
        ensures
            *self == RepositoryError::NotFound ==> r@ == "not found"@,
            *self == RepositoryError::Persistence ==> r@ == "persistence failure"@,
            *self == RepositoryError::FatalInit ==> r@ == "fatal initialization failure"@,
    {
        match self {
            RepositoryError::NotFound => "not found",
            RepositoryError::Persistence => "persistence failure",
            RepositoryError::FatalInit => "fatal initialization failure",
        }
    }
}

/// The one account a stored record decodes to: its name, and the family
/// its code stands for.
pub open spec fn spec_account_of_record(rec: dto::Account) -> model::account::Account {
    model::account::Account {
        name: rec.name,
        family: dto::spec_family_from_int(rec.family),
    }
}

/// The cache contents after admitting a list of records in order, each
/// keyed by its persisted identifier; a later record under the same
/// identifier overwrites an earlier one.
pub open spec fn spec_warmed(
    m: Map<i32, model::account::Account>,
    records: Seq<dto::Account>,
) -> Map<i32, model::account::Account>
    decreases records.len(),
{
    if records.len() == 0 {
        m
    } else {
        spec_warmed(m, records.drop_last()).insert(
            records.last().id,
            spec_account_of_record(records.last()),
        )
    }
}

/// The repository front: the single component request handlers touch.
/// It owns the account cache and decides every read and write; the store
/// round trips themselves happen at the caller's edge, which completes
/// each operation through the methods below.
pub struct Repository {
    account_repository: AccountRepository,
}

impl View for Repository {
    type V = Map<i32, model::account::Account>;

    closed spec fn view(&self) -> Map<i32, model::account::Account> {
        self.account_repository.cache_view()
    }
}

impl Repository {
    /// The cache's internal well-formedness; `new` establishes it and
    /// every method preserves it.
    pub closed spec fn inv(&self) -> bool {
        self.account_repository.inv()
    }

    /// A repository with an empty cache. Startup then warms it with the
    /// store's current accounts before the service begins to serve.
    pub fn new() -> (r: Repository)
        ensures
            r.inv(),
            r@ == Map::<i32, model::account::Account>::empty(),
    {
        Repository { account_repository: AccountRepository::new() }
    }

    /// The one-time warm step of startup: admits every listed account
    /// record into the cache, keyed by its persisted identifier. The
    /// caller aborts startup instead of calling this when the listing
    /// failed or a record carries an undefined family code.
    pub fn warm(&mut self, records: &Vec<dto::Account>)
        requires
            old(self).inv(),
            forall|i: int|
                0 <= i < records@.len() ==> dto::spec_valid_family_code(
                    (#[trigger] records@[i]).family,
                ),
        ensures
            final(self).inv(),
            final(self)@ == spec_warmed(old(self)@, records@),
    {
        let mut i: usize = 0;
        proof {
            assert(records@.take(0).len() == 0);
        }
        while i < records.len()
            invariant
                self.inv(),
                i <= records@.len(),
                forall|j: int|
                    0 <= j < records@.len() ==> dto::spec_valid_family_code(
                        (#[trigger] records@[j]).family,
                    ),
                self@ == spec_warmed(old(self)@, records@.take(i as int)),
            decreases records@.len() - i,
        {
            let record = &records[i];
            let account = record.to_model();
            proof {
                assert(account == spec_account_of_record(*record));
            }
            let _ = self.account_repository.add(record.id, account);
            proof {
                let next = records@.take(i + 1 as int);
                assert(next.drop_last() =~= records@.take(i as int));
                assert(next.last() == records@[i as int]);
            }
            i = i + 1;
        }
        proof {
            assert(records@.take(records@.len() as int) =~= records@);
        }
    }

    /// Write-through completion: the store has inserted the account and
    /// assigned it `id`; mirror it into the cache unconditionally. When
    /// the store write failed, the caller does not reach this point, so
    /// the cache stays untouched on failure.
    pub fn insert_account(&mut self, account: &model::account::Account, id: i32)
        requires
            old(self).inv(),
        ensures
            final(self).inv(),
            final(self)@ == old(self)@.insert(id, *account),
    {
        let _ = self.account_repository.add(id, account.clone());
    }

    /// Cache-first read: answers from the cache alone. `Some` is a hit —
    /// no store read is needed. `None` means the identifier is not yet
    /// cached; the caller reads the store and completes the call with
    /// `admit_account` (or fails with `NotFound` on a store miss, leaving
    /// the cache unpopulated — no negative caching).
    pub fn get_account(&self, id: i32) -> (r: Option<model::account::Account>)
        requires
            self.inv(),
        ensures
            match r {
                Option::Some(a) => self@.contains_key(id) && a == self@[id],
                Option::None => !self@.contains_key(id),
            },
    {
        match self.account_repository.get(&id) {
            Result::Ok(found) => found,
            Result::Err(_) => {
                proof {
                    assert(false);
                }
                Option::None
            },
        }
    }

    /// Read-through completion: decodes the record the store returned
    /// for `id`, populates the cache with the account, and returns it.
    /// A second read of `id` is then a hit and issues no store read.
    pub fn admit_account(&mut self, id: i32, record: &dto::Account) -> (r:
        model::account::Account)
        requires
            old(self).inv(),
            dto::spec_valid_family_code(record.family),
        ensures
            final(self).inv(),
            r == spec_account_of_record(*record),
            final(self)@ == old(self)@.insert(id, r),
    {
        let account = record.to_model();
        proof {
            assert(account == spec_account_of_record(*record));
        }
        let _ = self.account_repository.add(id, account.clone());
        account
    }

    /// Builds the persisted record for a new entry by resolving the
    /// credited and debited account names to cached identifiers. Fails
    /// with `NotFound` exactly when either name is unknown to the cache:
    /// entries may only reference accounts this process has already
    /// observed. On success the record carries the entry's own columns
    /// and two foreign keys that resolve, in the cache, to accounts
    /// bearing the entry's credit and debit names.
    pub fn insert_entry(&self, entry: &model::entry::Entry) -> (r: Result<
        dto::Entry,
        RepositoryError,
    >)
        requires
            self.inv(),
        ensures
            match r {
                Result::Ok(rec) => {
                    &&& rec.description == entry.description
                    &&& rec.amount == entry.amount
                    &&& rec.event_date == entry.event_date
                    &&& self@.contains_key(rec.credit_id)
                    &&& self@[rec.credit_id].name@ == entry.credit.name@
                    &&& self@.contains_key(rec.debit_id)
                    &&& self@[rec.debit_id].name@ == entry.debit.name@
                },
                Result::Err(e) => e == RepositoryError::NotFound && (!spec_has_account_named(
                    self@,
                    entry.credit.name@,
                ) || !spec_has_account_named(self@, entry.debit.name@)),
            },
    {
        let mut record: dto::Entry = DtoModelNoRef::from_model(entry);
        record.credit_id = match self.account_repository.get_id_by_name(
            entry.credit.name.as_str(),
        ) {
            Result::Ok(k) => k,
            Result::Err(e) => {
                return Result::Err(e);
            },
        };
        record.debit_id = match self.account_repository.get_id_by_name(
            entry.debit.name.as_str(),
        ) {
            Result::Ok(k) => k,
            Result::Err(e) => {
                return Result::Err(e);
            },
        };
        Result::Ok(record)
    }

    /// Assembles the full domain entry from its persisted record and the
    /// two accounts its foreign keys were resolved to (each through the
    /// cache-first account read).
    pub fn assemble_entry(
        record: &dto::Entry,
        credit: model::account::Account,
        debit: model::account::Account,
    ) -> (r: model::entry::Entry)
        ensures
            r.description == record.description,
            r.amount == record.amount,
            r.event_date == record.event_date,
            r.credit == credit,
            r.debit == debit,
    {
        let mut res: model::entry::Entry = record.to_model();
        res.credit = credit;
        res.debit = debit;
        res
    }
}

/// Startup protocol: after the warm step, every listed identifier is
/// cached, bound to the account of its last record in the listing — the
/// service never begins serving with a missing pre-existing account.
pub proof fn lemma_warm_admits_all(
    m: Map<i32, model::account::Account>,
    records: Seq<dto::Account>,
    i: int,
)
    requires
        0 <= i < records.len(),
        forall|j: int| i < j < records.len() ==> (#[trigger] records[j]).id != records[i].id,
    ensures
        spec_warmed(m, records).contains_key(records[i].id),
        spec_warmed(m, records)[records[i].id] == spec_account_of_record(records[i]),
    decreases records.len(),
{
    if i < records.len() - 1 {
        let shorter = records.drop_last();
        assert(shorter[i] == records[i]);
        assert(records[records.len() - 1].id != records[i].id);
        lemma_warm_admits_all(m, shorter, i);
    }
}

/// Cache coherence: a write-through insert under the store-assigned
/// identifier makes the very next cache-first read of that identifier a
/// hit, so it issues no store read.
pub proof fn lemma_write_through_coherence(
    cache: Map<i32, model::account::Account>,
    a: model::account::Account,
    id: i32,
)
    ensures
        cache.insert(id, a).contains_key(id),
{
}

/// Round trip: inserting an account and then reading the same identifier
/// back yields the inserted account unchanged (the identifier aside),
/// because the read is answered by the cache the insert populated.
pub proof fn lemma_account_round_trip(
    cache: Map<i32, model::account::Account>,
    a: model::account::Account,
    id: i32,
)
    ensures
        cache.insert(id, a).contains_key(id),
        cache.insert(id, a)[id] == a,
{
}

/// Read-through population: completing a cache miss by admitting the
/// store's record leaves that record's account cached under the read
/// identifier, so a second read of it is a hit and issues zero further
/// store reads.
pub proof fn lemma_read_through_population(
    cache: Map<i32, model::account::Account>,
    rec: dto::Account,
    id: i32,
)
    ensures
        cache.insert(id, spec_account_of_record(rec)).contains_key(id),
        cache.insert(id, spec_account_of_record(rec))[id] == spec_account_of_record(rec),
{
}

/// Entry resolution: the record built for an entry carries foreign keys
/// that the cache resolves to accounts bearing the entry's credit and
/// debit names; assembling the read-back record with those accounts
/// therefore reproduces the referenced names.
pub proof fn lemma_entry_resolution(
    cache: Map<i32, model::account::Account>,
    e: model::entry::Entry,
    rec: dto::Entry,
    credit: model::account::Account,
    debit: model::account::Account,
)
    requires
        cache.contains_key(rec.credit_id),
        cache[rec.credit_id].name@ == e.credit.name@,
        cache.contains_key(rec.debit_id),
        cache[rec.debit_id].name@ == e.debit.name@,
        credit == cache[rec.credit_id],
        debit == cache[rec.debit_id],
    ensures
        credit.name@ == e.credit.name@,
        debit.name@ == e.debit.name@,
{
}

/// No lost update: two inserts under distinct store-assigned identifiers
/// leave both accounts cached, each independently retrievable, whichever
/// order the two completions interleave in.
pub proof fn lemma_distinct_inserts_no_lost_update(
    cache: Map<i32, model::account::Account>,
    id1: i32,
    a1: model::account::Account,
    id2: i32,
    a2: model::account::Account,
)
    requires
        id1 != id2,
    ensures
        cache.insert(id1, a1).insert(id2, a2).contains_key(id1),
        cache.insert(id1, a1).insert(id2, a2)[id1] == a1,
        cache.insert(id1, a1).insert(id2, a2).contains_key(id2),
        cache.insert(id1, a1).insert(id2, a2)[id2] == a2,
{
}

} // verus!
