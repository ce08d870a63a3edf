use std::collections::HashMap;
use vstd::prelude::*;
use vstd::assert_by_contradiction;
use crate::model;
use crate::repository::RepositoryError;

verus! {

broadcast use vstd::std_specs::hash::group_hash_axioms;

/// A key-value cache capability. `cache_view` is the mapping the
/// implementation currently holds; `inv` is its internal well-formedness,
/// established by its constructor and preserved by every operation.
pub trait Repository<K, V>: Sized where K: Eq + core::hash::Hash + Copy {
    spec fn cache_view(&self) -> Map<K, V>;

    spec fn inv(&self) -> bool;

    /// Looks the key up; never fails, and answers exactly according to
    /// the held mapping.
    fn get(&self, key: &K) -> (r: Result<Option<V>, RepositoryError>)
        requires
            self.inv(),
        ensures
            match r {
                Result::Ok(Option::Some(v)) => self.cache_view().contains_key(*key)
                    && v == self.cache_view()[*key],
                Result::Ok(Option::None) => !self.cache_view().contains_key(*key),
                Result::Err(_) => false,
            },
    ;

    /// Binds the key to the value, overwriting any earlier binding;
    /// never fails.
    fn add(&mut self, key: K, value: V) -> (r: Result<(), RepositoryError>)
        requires
            old(self).inv(),
        ensures
            final(self).inv(),
            r == Result::<(), RepositoryError>::Ok(()),
            final(self).cache_view() == old(self).cache_view().insert(key, value),
    ;
}

/// Whether some cached account carries the given name.
pub open spec fn spec_has_account_named(
    m: Map<i32, model::account::Account>,
    name: Seq<char>,
) -> bool {
    exists|k: i32| m.contains_key(k) && m[k].name@ == name
}

/// The in-memory account cache: identifier to account, with a secondary
/// linear-scan lookup by name. The insertion-ordered key list backs the
/// scan; it holds exactly the keys of the map, each once.
pub struct AccountRepository {
    cache: HashMap<i32, model::account::Account>,
    ids: Vec<i32>,
}

impl AccountRepository {
    pub fn new() -> (r: Self)
        ensures
            r.inv(),
            r.cache_view() == Map::<i32, model::account::Account>::empty(),
    {
        let r = AccountRepository { cache: HashMap::new(), ids: Vec::new() };
        proof {
            assert(forall|k: i32| !r.ids@.contains(k));
        }
        r
    }

    /// Scans the cached accounts for one with the given name and returns
    /// its identifier; fails with `NotFound` exactly when no cached
    /// account has that name. Linear in the cache size, which stays at
    /// chart-of-accounts scale.
    pub fn get_id_by_name(&self, name: &str) -> (r: Result<i32, RepositoryError>)
        requires
            self.inv(),
        ensures
            match r {
                Result::Ok(k) => self.cache_view().contains_key(k)
                    && self.cache_view()[k].name@ == name@,
                Result::Err(e) => e == RepositoryError::NotFound && !spec_has_account_named(
                    self.cache_view(),
                    name@,
                ),
            },
    {
        let target: String = name.to_owned();
        let mut i: usize = 0;
        while i < self.ids.len()
            invariant
                self.inv(),
                i <= self.ids@.len(),
                target@ == name@,
                forall|j: int| 0 <= j < i ==> {
                    &&& self.cache_view().contains_key(#[trigger] self.ids@[j])
                    &&& self.cache_view()[self.ids@[j]].name@ != name@
                },
            decreases self.ids@.len() - i,
        {
            let k = self.ids[i];
            proof {
                assert(self.ids@.contains(k));
            }
            match self.cache.get(&k) {
                Option::Some(account) => {
                    if account.name == target {
                        return Result::Ok(k);
                    }
                },
                Option::None => {
                    proof {
                        assert(false);
                    }
                },
            }
            i = i + 1;
        }
        proof {
            assert_by_contradiction!(!spec_has_account_named(self.cache_view(), name@), {
                let k = choose|k: i32| self.cache_view().contains_key(k)
                    && self.cache_view()[k].name@ == name@;
                assert(self.ids@.contains(k));
                let j = choose|j: int| 0 <= j < self.ids@.len() && self.ids@[j] == k;
                assert(self.cache_view()[self.ids@[j]].name@ != name@);
            });
        }
        Result::Err(RepositoryError::NotFound)
    }
}

impl Repository<i32, model::account::Account> for AccountRepository {
    closed spec fn cache_view(&self) -> Map<i32, model::account::Account> {
        self.cache@
    }

    closed spec fn inv(&self) -> bool {
        &&& self.ids@.no_duplicates()
        &&& forall|k: i32| self.cache@.contains_key(k) <==> self.ids@.contains(k)
    }

    fn get(&self, key: &i32) -> (r: Result<Option<model::account::Account>, RepositoryError>) {
        match self.cache.get(key) {
            Option::Some(account) => Result::Ok(Option::Some(account.clone())),
            Option::None => Result::Ok(Option::None),
        }
    }

    fn add(&mut self, key: i32, value: model::account::Account) -> (r: Result<
        (),
        RepositoryError,
    >) {
        let ghost ids0 = self.ids@;
        let ghost m0 = self.cache@;
        let had = self.cache.contains_key(&key);
        if !had {
            self.ids.push(key);
            proof {
                assert(!ids0.contains(key));
                assert forall|x: i32| self.ids@.contains(x) implies ids0.contains(x) || x == key by {
                    let j = choose|j: int| 0 <= j < self.ids@.len() && self.ids@[j] == x;
                    if j < ids0.len() {
                        assert(ids0[j] == x);
                    }
                }
                assert forall|x: i32| ids0.contains(x) implies self.ids@.contains(x) by {
                    let j = choose|j: int| 0 <= j < ids0.len() && ids0[j] == x;
                    assert(self.ids@[j] == x);
                }
                assert(self.ids@.contains(key)) by {
                    assert(self.ids@[ids0.len() as int] == key);
                }
                assert(self.ids@.no_duplicates());
            }
        }
        self.cache.insert(key, value);
        proof {
            assert(self.cache@ == m0.insert(key, value));
            assert(m0 == old(self).cache@);
            assert(forall|k: i32| m0.contains_key(k) <==> ids0.contains(k));
            assert forall|k: i32| self.cache@.contains_key(k) implies self.ids@.contains(k) by {
                assert(m0.contains_key(k) || k == key);
                if k == key {
                    if had {
                        assert(m0.contains_key(key));
                        assert(ids0.contains(key));
                        assert(self.ids@ == ids0);
                    }
                    assert(self.ids@.contains(key));
                } else {
                    assert(m0.contains_key(k));
                    assert(ids0.contains(k));
                    if !had {
                        let j = choose|j: int| 0 <= j < ids0.len() && ids0[j] == k;
                        assert(self.ids@[j] == k);
                    }
                }
            }
            assert forall|k: i32| self.ids@.contains(k) implies self.cache@.contains_key(k) by {
                if had {
                    assert(m0.contains_key(k));
                } else {
                    if k != key {
                        assert(ids0.contains(k)) by {
                            let j = choose|j: int|
                                0 <= j < self.ids@.len() && self.ids@[j] == k;
                            assert(ids0[j] == k);
                        }
                        assert(m0.contains_key(k));
                    }
                }
            }
        }
        Result::Ok(())
    }
}

} // verus!
