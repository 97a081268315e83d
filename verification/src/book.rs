//! Records kept by address, where an address that was never written has no
//! record.

use vstd::prelude::*;
use crate::order::key_after;
use crate::order::key_lt;
use crate::order::lemma_key_lt_transitive;
use crate::order::order_of;
use crate::order::KeyOrder;

verus! {

/// One record and the address it is kept under.
#[derive(Debug)]
pub struct Entry<V> {
    pub address: String,
    pub info: V,
}

/// A finite map from addresses to records.
#[derive(Debug)]
pub struct AddressBook<V> {
    entries: Vec<Entry<V>>,
}

/// Whether some entry of `entries` is kept under `key`.
pub open spec fn has_key<V>(entries: Seq<Entry<V>>, key: Seq<char>) -> bool {
    exists|i: int| 0 <= i < entries.len() && #[trigger] entries[i].address@ == key
}

/// The position of an entry kept under `key`.
pub open spec fn position_of<V>(entries: Seq<Entry<V>>, key: Seq<char>) -> int {
    choose|i: int| 0 <= i < entries.len() && #[trigger] entries[i].address@ == key
}

/// No address is kept twice.
pub open spec fn distinct_keys<V>(entries: Seq<Entry<V>>) -> bool {
    forall|i: int, j: int|
        0 <= i < j < entries.len() ==> #[trigger] entries[i].address@ != #[trigger] entries[j].address@
}

impl<V: View> View for AddressBook<V> {
    type V = Map<Seq<char>, V::V>;

    closed spec fn view(&self) -> Map<Seq<char>, V::V> {
        Map::new(
            |key: Seq<char>| has_key(self.entries@, key),
            |key: Seq<char>| self.entries@[position_of(self.entries@, key)].info@,
        )
    }
}

impl<V> AddressBook<V> {
    #[verifier::type_invariant]
    closed spec fn inv(&self) -> bool {
        distinct_keys(self.entries@)
    }
}

impl<V: View> AddressBook<V> {
    /// A book without records.
    pub fn new() -> (r: Self)
        ensures
            r@ == Map::<Seq<char>, V::V>::empty(),
    {
        let r = AddressBook { entries: Vec::new() };
        assert(r@ =~= Map::<Seq<char>, V::V>::empty());
        r
    }

    /// How many addresses have a record.
    pub fn len(&self) -> (r: usize)
        ensures
            r == self@.dom().len(),
            self@.dom().finite(),
    {
        proof {
            use_type_invariant(self);
            lemma_domain_size(self.entries@);
            assert(self@.dom() =~= key_set(self.entries@));
        }
        self.entries.len()
    }

    fn find(&self, address: &String) -> (r: Option<usize>)
        ensures
            match r {
                Some(i) => i < self.entries@.len() && self.entries@[i as int].address@ == address@
                    && position_of(self.entries@, address@) == i,
                None => !has_key(self.entries@, address@),
            },
    {
        proof {
            use_type_invariant(self);
        }
        let mut i: usize = 0;
        while i < self.entries.len()
            invariant
                i <= self.entries@.len(),
                distinct_keys(self.entries@),
                forall|j: int| 0 <= j < i ==> (#[trigger] self.entries@[j]).address@ != address@,
            decreases self.entries@.len() - i,
        {
            if self.entries[i].address == *address {
                proof {
                    let j = position_of(self.entries@, address@);
                    assert(self.entries@[i as int].address@ == address@);
                    assert(self.entries@[j].address@ == address@);
                    assert(j == i);
                }
                return Some(i);
            }
            i = i + 1;
        }
        None
    }

    /// The record kept under `address`, if there is one.
    pub fn get(&self, address: &String) -> (r: Option<&V>)
        ensures
            match r {
                Some(info) => self@.contains_key(address@) && info@ == self@[address@],
                None => !self@.contains_key(address@),
            },
    {
        match self.find(address) {
            Some(i) => Some(&self.entries[i].info),
            None => None,
        }
    }

    /// Whether `address` has a record.
    pub fn contains(&self, address: &String) -> (r: bool)
        ensures
            r == self@.contains_key(address@),
    {
        self.find(address).is_some()
    }

    /// The first record behind `bound` in the order of addresses: the one
    /// with the least address among those behind it.
    pub fn next_after(&self, bound: Option<&String>) -> (r: Option<&Entry<V>>)
        ensures
            match r {
                Some(entry) => {
                    &&& self@.contains_key(entry.address@)
                    &&& entry.info@ == self@[entry.address@]
                    &&& key_after(opt_key(bound), entry.address@)
                    &&& forall|k: Seq<char>| #[trigger]
                        self@.contains_key(k) && key_after(opt_key(bound), k) ==> k == entry.address@
                            || key_lt(entry.address@, k)
                },
                None => forall|k: Seq<char>| #[trigger] self@.contains_key(k) ==> !key_after(opt_key(bound), k),
            },
    {
        proof {
            use_type_invariant(self);
        }
        let ghost limit = opt_key(bound);
        let mut best: Option<usize> = None;
        let mut i: usize = 0;
        while i < self.entries.len()
            invariant
                i <= self.entries@.len(),
                distinct_keys(self.entries@),
                limit == opt_key(bound),
                match best {
                    Some(b) => {
                        &&& b < i
                        &&& key_after(limit, self.entries@[b as int].address@)
                        &&& forall|j: int|
                            0 <= j < i && key_after(limit, (#[trigger] self.entries@[j]).address@) ==> j == b
                                || key_lt(self.entries@[b as int].address@, self.entries@[j].address@)
                    },
                    None => forall|j: int| 0 <= j < i ==> !key_after(limit, (#[trigger] self.entries@[j]).address@),
                },
            decreases self.entries@.len() - i,
        {
            let behind = match bound {
                Some(b) => match order_of(b, &self.entries[i].address) {
                    KeyOrder::Before => true,
                    _ => false,
                },
                None => true,
            };
            if behind {
                match best {
                    None => {
                        best = Some(i);
                    },
                    Some(b) => {
                        match order_of(&self.entries[i].address, &self.entries[b].address) {
                            KeyOrder::Before => {
                                proof {
                                    let fresh = self.entries@[i as int].address@;
                                    let stale = self.entries@[b as int].address@;
                                    assert forall|j: int|
                                        0 <= j < i + 1 && key_after(
                                            limit,
                                            (#[trigger] self.entries@[j]).address@,
                                        ) implies j == i || key_lt(fresh, self.entries@[j].address@) by {
                                        if j != i && j != b {
                                            lemma_key_lt_transitive(fresh, stale, self.entries@[j].address@);
                                        }
                                    }
                                }
                                best = Some(i);
                            },
                            KeyOrder::Same => {
                                proof {
                                    assert(self.entries@[i as int].address@ == self.entries@[b as int].address@);
                                    assert(false);
                                }
                            },
                            KeyOrder::After => {},
                        }
                    },
                }
            }
            i = i + 1;
        }
        match best {
            Some(b) => {
                proof {
                    let found = self.entries@[b as int];
                    assert(has_key(self.entries@, found.address@));
                    let p = position_of(self.entries@, found.address@);
                    assert(self.entries@[p].address@ == found.address@);
                    assert(p == b);
                    assert forall|k: Seq<char>| #[trigger]
                        self@.contains_key(k) && key_after(limit, k) implies k == found.address@ || key_lt(
                        found.address@,
                        k,
                    ) by {
                        let j = position_of(self.entries@, k);
                        assert(self.entries@[j].address@ == k);
                    }
                }
                Some(&self.entries[b])
            },
            None => {
                proof {
                    assert forall|k: Seq<char>| #[trigger] self@.contains_key(k) implies !key_after(limit, k) by {
                        let j = position_of(self.entries@, k);
                        assert(self.entries@[j].address@ == k);
                    }
                }
                None
            },
        }
    }

    /// Keeps `info` under `address`, in place of the record that was there.
    pub fn insert(&mut self, address: String, info: V)
        ensures
            final(self)@ == old(self)@.insert(address@, info@),
    {
        proof {
            use_type_invariant(&*self);
        }
        let ghost before = self.entries@;
        let ghost key = address@;
        let ghost value = info@;
        let found = self.find(&address);
        let mut taken = AddressBook { entries: Vec::new() };
        std::mem::swap(self, &mut taken);
        let AddressBook { entries: mut entries } = taken;
        match found {
            Some(i) => {
                entries[i] = Entry { address, info };
                *self = AddressBook { entries };
                proof {
                    let after = self.entries@;
                    assert(after == before.update(i as int, after[i as int]));
                    assert forall|k: Seq<char>| has_key(after, k) == has_key(before, k) by {
                        if has_key(before, k) {
                            let j = position_of(before, k);
                            assert(after[j].address@ == k);
                        }
                        if has_key(after, k) {
                            let j = position_of(after, k);
                            assert(before[j].address@ == k);
                        }
                    }
                    assert forall|k: Seq<char>| has_key(after, k) implies after[position_of(
                        after,
                        k,
                    )].info@ == (if k == key {
                        value
                    } else {
                        before[position_of(before, k)].info@
                    }) by {
                        let a = position_of(after, k);
                        let b = position_of(before, k);
                        assert(before[a].address@ == k);
                        assert(a == b);
                    }
                    assert(distinct_keys(after));
                    assert(self@ =~= old(self)@.insert(key, value));
                }
            },
            None => {
                entries.push(Entry { address, info });
                *self = AddressBook { entries };
                proof {
                    let after = self.entries@;
                    let n = before.len() as int;
                    assert(after[n].address@ == key);
                    assert forall|k: Seq<char>| has_key(after, k) == (k == key || has_key(before, k)) by {
                        if has_key(before, k) {
                            let j = position_of(before, k);
                            assert(after[j].address@ == k);
                        }
                        if has_key(after, k) {
                            let j = position_of(after, k);
                            if j < n {
                                assert(before[j].address@ == k);
                            }
                        }
                    }
                    assert(distinct_keys(after));
                    assert forall|k: Seq<char>| has_key(after, k) implies after[position_of(
                        after,
                        k,
                    )].info@ == (if k == key {
                        value
                    } else {
                        before[position_of(before, k)].info@
                    }) by {
                        let a = position_of(after, k);
                        if k == key {
                            assert(a == n);
                        } else {
                            let b = position_of(before, k);
                            assert(before[a].address@ == k);
                            assert(a == b);
                        }
                    }
                    assert(self@ =~= old(self)@.insert(key, value));
                }
            },
        }
    }
}

/// The view of an optional address.
pub open spec fn opt_key(address: Option<&String>) -> Option<Seq<char>> {
    match address {
        Some(a) => Some(a@),
        None => None,
    }
}

/// The addresses under which `entries` keeps a record.
pub open spec fn key_set<V>(entries: Seq<Entry<V>>) -> Set<Seq<char>> {
    Set::new(|key: Seq<char>| has_key(entries, key))
}

proof fn lemma_domain_size<V>(entries: Seq<Entry<V>>)
    requires
        distinct_keys(entries),
    ensures
        key_set(entries).finite(),
        key_set(entries).len() == entries.len(),
    decreases entries.len(),
{
    if entries.len() == 0 {
        assert(key_set(entries) =~= Set::<Seq<char>>::empty());
    } else {
        let front = entries.drop_last();
        let last = entries.last();
        assert forall|i: int, j: int| 0 <= i < j < front.len() implies #[trigger] front[i].address@
            != #[trigger] front[j].address@ by {
            assert(front[i] == entries[i]);
            assert(front[j] == entries[j]);
        }
        lemma_domain_size(front);
        assert(!has_key(front, last.address@)) by {
            if has_key(front, last.address@) {
                let i = position_of(front, last.address@);
                assert(front[i] == entries[i]);
                assert(entries[i].address@ == entries[entries.len() - 1].address@);
            }
        }
        assert(key_set(entries) =~= key_set(front).insert(last.address@)) by {
            assert forall|k: Seq<char>| has_key(entries, k) == (k == last.address@ || has_key(front, k)) by {
                if has_key(front, k) {
                    let i = position_of(front, k);
                    assert(front[i] == entries[i]);
                    assert(entries[i].address@ == k);
                }
                if has_key(entries, k) {
                    let i = position_of(entries, k);
                    if i < front.len() {
                        assert(front[i] == entries[i]);
                        assert(front[i].address@ == k);
                    }
                }
                if k == last.address@ {
                    assert(entries[entries.len() - 1].address@ == k);
                }
            }
        }
    }
}

} // verus!
