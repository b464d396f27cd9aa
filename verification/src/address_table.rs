//! Sets and maps keyed by address.
//!
//! Each holds one hash table per address family, keyed by the address's
//! numeric value, so that a lookup costs the same however many addresses are
//! held.

use crate::address::IpAddress;
use std::collections::{HashMap, HashSet};
use vstd::prelude::*;
use vstd::std_specs::hash::*;
use vstd::std_specs::iter::IteratorSpec;

verus! {

broadcast use vstd::std_specs::hash::group_hash_axioms;

/// A finite set of addresses.
#[derive(Debug)]
pub struct AddressSet {
    v4: HashSet<u32>,
    v6: HashSet<u128>,
}

impl View for AddressSet {
    type V = Set<IpAddress>;

    closed spec fn view(&self) -> Set<IpAddress> {
        Set::new(
            |a: IpAddress|
                match a {
                    IpAddress::V4(bits) => self.v4@.contains(bits),
                    IpAddress::V6(bits) => self.v6@.contains(bits),
                },
        )
    }
}

impl AddressSet {
    pub fn new() -> (set: AddressSet)
        ensures
            set@ == Set::<IpAddress>::empty(),
    {
        let set = AddressSet { v4: HashSet::new(), v6: HashSet::new() };
        assert(set@ =~= Set::<IpAddress>::empty());
        set
    }

    pub fn insert(&mut self, ip: IpAddress)
        ensures
            final(self)@ == old(self)@.insert(ip),
    {
        match ip {
            IpAddress::V4(bits) => {
                self.v4.insert(bits);
            },
            IpAddress::V6(bits) => {
                self.v6.insert(bits);
            },
        }
        assert(final(self)@ =~= old(self)@.insert(ip));
    }

    pub fn contains(&self, ip: &IpAddress) -> (r: bool)
        ensures
            r == self@.contains(*ip),
    {
        match ip {
            IpAddress::V4(bits) => self.v4.contains(bits),
            IpAddress::V6(bits) => self.v6.contains(bits),
        }
    }
}

impl Clone for AddressSet {
    fn clone(&self) -> (copy: AddressSet)
        ensures
            copy@ == self@,
    {
        let mut v4: HashSet<u32> = HashSet::new();
        for bits in it: self.v4.iter()
            invariant
                forall|b: u32|
                    v4@.contains(b) <==> exists|j: int|
                        0 <= j < it.index() && *(#[trigger] it.seq()[j]) == b,
        {
            v4.insert(*bits);
        }
        let mut v6: HashSet<u128> = HashSet::new();
        for bits in it: self.v6.iter()
            invariant
                forall|b: u128|
                    v6@.contains(b) <==> exists|j: int|
                        0 <= j < it.index() && *(#[trigger] it.seq()[j]) == b,
        {
            v6.insert(*bits);
        }
        proof {
            let seq4 = spec_hash_keys_iter(&self.v4).remaining();
            let seq6 = spec_hash_keys_iter(&self.v6).remaining();
            assert(seq4.unref().to_set() == self.v4@);
            assert(seq6.unref().to_set() == self.v6@);
            assert forall|b: u32| v4@.contains(b) <==> self.v4@.contains(b) by {
                if v4@.contains(b) {
                    let j = choose|j: int| 0 <= j < seq4.len() && *(#[trigger] seq4[j]) == b;
                    assert(seq4.unref()[j] == b);
                }
                if self.v4@.contains(b) {
                    let j = choose|j: int| 0 <= j < seq4.unref().len() && seq4.unref()[j] == b;
                    assert(*seq4[j] == b);
                }
            }
            assert forall|b: u128| v6@.contains(b) <==> self.v6@.contains(b) by {
                if v6@.contains(b) {
                    let j = choose|j: int| 0 <= j < seq6.len() && *(#[trigger] seq6[j]) == b;
                    assert(seq6.unref()[j] == b);
                }
                if self.v6@.contains(b) {
                    let j = choose|j: int| 0 <= j < seq6.unref().len() && seq6.unref()[j] == b;
                    assert(*seq6[j] == b);
                }
            }
            assert(v4@ =~= self.v4@);
            assert(v6@ =~= self.v6@);
        }
        let copy = AddressSet { v4, v6 };
        assert(copy@ =~= self@);
        copy
    }
}

/// A finite map from addresses to values.
#[derive(Debug)]
pub struct AddressMap<V> {
    v4: HashMap<u32, V>,
    v6: HashMap<u128, V>,
}

impl<V> View for AddressMap<V> {
    type V = Map<IpAddress, V>;

    closed spec fn view(&self) -> Map<IpAddress, V> {
        Map::new(
            |a: IpAddress|
                match a {
                    IpAddress::V4(bits) => self.v4@.contains_key(bits),
                    IpAddress::V6(bits) => self.v6@.contains_key(bits),
                },
            |a: IpAddress|
                match a {
                    IpAddress::V4(bits) => self.v4@[bits],
                    IpAddress::V6(bits) => self.v6@[bits],
                },
        )
    }
}

impl<V: Clone> Clone for AddressMap<V> {
    fn clone(&self) -> (copy: AddressMap<V>)
        ensures
            copy@ == self@,
    {
        let copy = AddressMap { v4: self.v4.clone(), v6: self.v6.clone() };
        assert(copy@ =~= self@);
        copy
    }
}

impl<V> AddressMap<V> {
    pub fn new() -> (map: AddressMap<V>)
        ensures
            map@ == Map::<IpAddress, V>::empty(),
    {
        let map = AddressMap { v4: HashMap::new(), v6: HashMap::new() };
        assert(map@ =~= Map::<IpAddress, V>::empty());
        map
    }

    /// The value held for an address, if one is.
    pub fn get(&self, ip: &IpAddress) -> (r: Option<&V>)
        ensures
            match r {
                Some(value) => self@.contains_key(*ip) && *value == self@[*ip],
                None => !self@.contains_key(*ip),
            },
    {
        match ip {
            IpAddress::V4(bits) => self.v4.get(bits),
            IpAddress::V6(bits) => self.v6.get(bits),
        }
    }

    /// Holds `value` for the address, in place of any value held before.
    pub fn insert(&mut self, ip: IpAddress, value: V)
        ensures
            final(self)@ == old(self)@.insert(ip, value),
    {
        match ip {
            IpAddress::V4(bits) => {
                self.v4.insert(bits, value);
            },
            IpAddress::V6(bits) => {
                self.v6.insert(bits, value);
            },
        }
        assert(final(self)@ =~= old(self)@.insert(ip, value));
    }

    /// Holds nothing for the address any more, and returns what was held.
    pub fn remove(&mut self, ip: &IpAddress) -> (r: Option<V>)
        ensures
            final(self)@ == old(self)@.remove(*ip),
            r == if old(self)@.contains_key(*ip) {
                Some(old(self)@[*ip])
            } else {
                None
            },
    {
        let removed = match ip {
            IpAddress::V4(bits) => self.v4.remove(bits),
            IpAddress::V6(bits) => self.v6.remove(bits),
        };
        assert(final(self)@ =~= old(self)@.remove(*ip));
        removed
    }

    /// The addresses for which a value is held, each once, in no particular
    /// order.
    pub fn keys(&self) -> (keys: Vec<IpAddress>)
        ensures
            keys@.to_set() == self@.dom(),
            keys@.no_duplicates(),
    {
        let mut keys: Vec<IpAddress> = Vec::new();
        for bits in it: self.v4.keys()
            invariant
                keys@.len() == it.index(),
                forall|j: int| 0 <= j < it.index() ==> keys@[j] == IpAddress::V4(*it.seq()[j]),
        {
            keys.push(IpAddress::V4(*bits));
        }
        let ghost n4 = keys@.len() as int;
        let ghost seq4 = spec_keys_iter(&self.v4).remaining();
        assert(forall|j: int| 0 <= j < n4 ==> keys@[j] == IpAddress::V4(*seq4[j]));
        for bits in it: self.v6.keys()
            invariant
                keys@.len() == n4 + it.index(),
                n4 == seq4.len(),
                forall|j: int| 0 <= j < n4 ==> keys@[j] == IpAddress::V4(*seq4[j]),
                forall|j: int|
                    0 <= j < it.index() ==> keys@[n4 + j] == IpAddress::V6(*it.seq()[j]),
        {
            keys.push(IpAddress::V6(*bits));
        }
        let ghost seq6 = spec_keys_iter(&self.v6).remaining();
        proof {
            assert(seq4.unref().to_set() == self.v4@.dom());
            assert(seq6.unref().to_set() == self.v6@.dom());
            assert forall|a: IpAddress| keys@.to_set().contains(a) <==> self@.dom().contains(
                a,
            ) by {
                if keys@.to_set().contains(a) {
                    let j = choose|j: int| 0 <= j < keys@.len() && keys@[j] == a;
                    if j < n4 {
                        assert(seq4.unref()[j] == *seq4[j]);
                        assert(seq4.unref().to_set().contains(*seq4[j]));
                    } else {
                        assert(seq6.unref()[j - n4] == *seq6[j - n4]);
                        assert(seq6.unref().to_set().contains(*seq6[j - n4]));
                    }
                }
                if self@.dom().contains(a) {
                    match a {
                        IpAddress::V4(bits) => {
                            assert(seq4.unref().to_set().contains(bits));
                            let j = choose|j: int|
                                0 <= j < seq4.unref().len() && seq4.unref()[j] == bits;
                            assert(keys@[j] == a);
                        },
                        IpAddress::V6(bits) => {
                            assert(seq6.unref().to_set().contains(bits));
                            let j = choose|j: int|
                                0 <= j < seq6.unref().len() && seq6.unref()[j] == bits;
                            assert(keys@[n4 + j] == a);
                        },
                    }
                }
            }
            assert(keys@.to_set() =~= self@.dom());
            assert forall|i: int, j: int|
                0 <= i < keys@.len() && 0 <= j < keys@.len() && i != j implies keys@[i]
                != keys@[j] by {
                assert(seq4.no_duplicates());
                assert(seq6.no_duplicates());
                if i < n4 {
                    assert(keys@[i] == IpAddress::V4(*seq4[i]));
                } else {
                    assert(keys@[n4 + (i - n4)] == IpAddress::V6(*seq6[i - n4]));
                }
                if j < n4 {
                    assert(keys@[j] == IpAddress::V4(*seq4[j]));
                } else {
                    assert(keys@[n4 + (j - n4)] == IpAddress::V6(*seq6[j - n4]));
                }
                if i < n4 && j < n4 {
                    assert(seq4[i] != seq4[j]);
                } else if i >= n4 && j >= n4 {
                    assert(seq6[i - n4] != seq6[j - n4]);
                }
            }
        }
        keys
    }
}

} // verus!
