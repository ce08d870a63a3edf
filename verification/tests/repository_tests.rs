use finance::model::account::{Account, AccountFamily};
use finance::model::entry::{Amount, Entry, Timestamp};
use finance::repository::cache::{AccountRepository, Repository as CacheRepository};
use finance::repository::dto;
use finance::repository::dto::DtoModelNoRef;
use finance::repository::{Repository, RepositoryError};

fn sample_account(name: &str, family: AccountFamily) -> Account {
    Account {
        name: name.to_string(),
        family,
    }
}

fn sample_entry(description: &str, credit: Account, debit: Account) -> Entry {
    Entry {
        description: description.to_string(),
        amount: Amount {
            bits: 100.0f64.to_bits(),
        },
        event_date: Timestamp {
            micros: 1_696_161_600_000_000,
        },
        credit,
        debit,
    }
}

#[test]
fn account_round_trip_through_repository() {
    let mut repo = Repository::new();
    let account = sample_account("Cash", AccountFamily::Asset);
    repo.insert_account(&account, 1);
    let read_back = repo.get_account(1).expect("the inserted account is cached");
    assert_eq!(read_back, account);
}

#[test]
fn write_through_makes_next_read_a_cache_hit() {
    let mut repo = Repository::new();
    let account = sample_account("Payroll", AccountFamily::Expense);
    repo.insert_account(&account, 42);
    // A hit means the caller never consults the store for this id.
    assert!(repo.get_account(42).is_some());
}

#[test]
fn read_through_populates_the_cache() {
    let mut repo = Repository::new();
    // Not cached yet: the caller must go to the store.
    assert!(repo.get_account(7).is_none());
    // The store returned this record; admitting it completes the read.
    let record = dto::Account {
        id: 7,
        name: "Loans".to_string(),
        family: 2,
    };
    let admitted = repo.admit_account(7, &record);
    assert_eq!(admitted.name, "Loans");
    assert_eq!(admitted.family, AccountFamily::Liability);
    // The second read is a hit: zero additional store reads.
    let again = repo.get_account(7).expect("the admitted account is cached");
    assert_eq!(again, admitted);
}

#[test]
fn entry_resolution_reproduces_account_names() {
    let mut repo = Repository::new();
    let credit = sample_account("Credit Account", AccountFamily::Liability);
    let debit = sample_account("Debit Account", AccountFamily::Expense);
    repo.insert_account(&credit, 1);
    repo.insert_account(&debit, 2);

    let entry = sample_entry("Test Entry", credit.clone(), debit.clone());
    let record = repo.insert_entry(&entry).expect("both names are cached");
    assert_eq!(record.credit_id, 1);
    assert_eq!(record.debit_id, 2);
    assert_eq!(record.description, "Test Entry");

    // Reading the entry back resolves both foreign keys cache-first.
    let credit_back = repo.get_account(record.credit_id).unwrap();
    let debit_back = repo.get_account(record.debit_id).unwrap();
    let assembled = Repository::assemble_entry(&record, credit_back, debit_back);
    assert_eq!(assembled.credit.name, credit.name);
    assert_eq!(assembled.debit.name, debit.name);
    assert_eq!(assembled.description, entry.description);
    assert_eq!(assembled.amount, entry.amount);
    assert_eq!(assembled.event_date, entry.event_date);
}

#[test]
fn entry_with_unknown_account_name_is_not_found() {
    let mut repo = Repository::new();
    let known = sample_account("Known", AccountFamily::Asset);
    repo.insert_account(&known, 1);

    let never_seen = sample_account("Never Seen", AccountFamily::Revenue);
    let entry = sample_entry("Dangling", known.clone(), never_seen);
    assert_eq!(repo.insert_entry(&entry), Err(RepositoryError::NotFound));

    let other_way = sample_entry(
        "Dangling too",
        sample_account("Also Unknown", AccountFamily::Equity),
        known,
    );
    assert_eq!(repo.insert_entry(&other_way), Err(RepositoryError::NotFound));
}

#[test]
fn distinct_inserts_lose_no_update() {
    let mut repo = Repository::new();
    let names = ["One", "Two", "Three", "Four", "Five"];
    for (i, name) in names.iter().enumerate() {
        let account = sample_account(name, AccountFamily::Asset);
        repo.insert_account(&account, (i + 1) as i32);
    }
    for (i, name) in names.iter().enumerate() {
        let got = repo.get_account((i + 1) as i32).expect("still cached");
        assert_eq!(got.name, *name);
    }
}

#[test]
fn warm_admits_every_listed_record() {
    let mut repo = Repository::new();
    let records = vec![
        dto::Account {
            id: 1,
            name: "Cash".to_string(),
            family: 1,
        },
        dto::Account {
            id: 2,
            name: "Sales".to_string(),
            family: 4,
        },
    ];
    repo.warm(&records);
    assert_eq!(repo.get_account(1).unwrap().name, "Cash");
    let sales = repo.get_account(2).unwrap();
    assert_eq!(sales.name, "Sales");
    assert_eq!(sales.family, AccountFamily::Revenue);
}

#[test]
fn warm_lets_a_later_record_overwrite() {
    let mut repo = Repository::new();
    let records = vec![
        dto::Account {
            id: 1,
            name: "Old Name".to_string(),
            family: 1,
        },
        dto::Account {
            id: 1,
            name: "New Name".to_string(),
            family: 3,
        },
    ];
    repo.warm(&records);
    let got = repo.get_account(1).unwrap();
    assert_eq!(got.name, "New Name");
    assert_eq!(got.family, AccountFamily::Equity);
}

#[test]
fn cache_lookup_by_name() {
    let mut cache = AccountRepository::new();
    let account = sample_account("Inventory", AccountFamily::Asset);
    cache.add(3, account).unwrap();
    assert_eq!(cache.get_id_by_name("Inventory"), Ok(3));
    assert_eq!(
        cache.get_id_by_name("Missing"),
        Err(RepositoryError::NotFound)
    );
}

#[test]
fn cache_get_answers_exactly_what_was_added() {
    let mut cache = AccountRepository::new();
    assert_eq!(cache.get(&9).unwrap(), None);
    let account = sample_account("Equity", AccountFamily::Equity);
    cache.add(9, account.clone()).unwrap();
    assert_eq!(cache.get(&9).unwrap(), Some(account));
}

#[test]
fn family_codes_are_the_fixed_bijection() {
    let pairs = [
        (AccountFamily::Asset, 1),
        (AccountFamily::Liability, 2),
        (AccountFamily::Equity, 3),
        (AccountFamily::Revenue, 4),
        (AccountFamily::Expense, 5),
    ];
    for (family, code) in pairs {
        assert_eq!(dto::family_to_int(&family), code);
        assert_eq!(dto::family_from_int(code), family);
    }
    assert!(!dto::is_valid_family_code(0));
    assert!(!dto::is_valid_family_code(6));
    assert!(dto::is_valid_family_code(1));
    assert!(dto::is_valid_family_code(5));
}

#[test]
fn account_record_round_trip() {
    let account = sample_account("Test Account", AccountFamily::Asset);
    let record: dto::Account = DtoModelNoRef::from_model(&account);
    assert_eq!(record.id, -1);
    assert_eq!(record.name, "Test Account");
    assert_eq!(record.family, 1);
    let back = record.to_model();
    assert_eq!(back, account);
}

#[test]
fn entry_record_carries_columns_and_placeholder_references() {
    let entry = sample_entry(
        "Groceries",
        sample_account("Cash", AccountFamily::Asset),
        sample_account("Food", AccountFamily::Expense),
    );
    let record: dto::Entry = DtoModelNoRef::from_model(&entry);
    assert_eq!(record.id, -1);
    assert_eq!(record.credit_id, -1);
    assert_eq!(record.debit_id, -1);
    assert_eq!(record.description, "Groceries");
    assert_eq!(record.amount, entry.amount);
    assert_eq!(record.event_date, entry.event_date);

    let decoded = record.to_model();
    assert_eq!(decoded.description, "Groceries");
    assert_eq!(decoded.credit.name, "");
    assert_eq!(decoded.credit.family, AccountFamily::Asset);
    assert_eq!(decoded.debit.name, "");
}

#[test]
fn error_messages_name_the_failure() {
    assert_eq!(RepositoryError::NotFound.message(), "not found");
    assert_eq!(RepositoryError::Persistence.message(), "persistence failure");
    assert_eq!(
        RepositoryError::FatalInit.message(),
        "fatal initialization failure"
    );
}
