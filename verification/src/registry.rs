//! A per-domain registry: at most one value for each destination domain.

use vstd::prelude::*;
use crate::assoc::{as_map, lemma_empty, lemma_entry, lemma_push, lemma_remove, lemma_update, well_keyed};

verus! {

/// One configured domain with its value.
pub struct DomainEntry<V> {
    pub domain: u32,
    pub value: V,
}

/// A registry keyed by destination domain. It stands for a map from domain
/// to value; no domain is ever held twice.
pub struct DomainMap<V> {
    entries: Vec<DomainEntry<V>>,
}

impl<V> DomainMap<V> {
    /// The domains held, in storage order.
    pub closed spec fn keys(self) -> Seq<u32> {
        Seq::new(self.entries@.len(), |i: int| self.entries@[i].domain)
    }

    /// The values held, in storage order.
    pub closed spec fn vals(self) -> Seq<V> {
        Seq::new(self.entries@.len(), |i: int| self.entries@[i].value)
    }

    /// No domain is held twice.
    pub closed spec fn wf(self) -> bool {
        well_keyed(self.keys(), self.vals())
    }

    /// The registry with no domain configured.
    pub fn new() -> (registry: DomainMap<V>)
        ensures
            registry.wf(),
            registry@ == Map::<u32, V>::empty(),
    {
        let registry = DomainMap { entries: Vec::new() };
        proof {
            lemma_empty::<u32, V>();
            assert(registry.keys() =~= Seq::<u32>::empty());
            assert(registry.vals() =~= Seq::<V>::empty());
        }
        registry
    }

    /// The position at which `domain` is held, if it is held.
    fn position(&self, domain: u32) -> (found: Option<usize>)
        ensures
            match found {
                Some(i) => i < self.keys().len() && self.keys()[i as int] == domain,
                None => !self.keys().contains(domain),
            },
    {
        let mut i: usize = 0;
        while i < self.entries.len()
            invariant
                0 <= i <= self.entries@.len(),
                forall|j: int| 0 <= j < i ==> self.keys()[j] != domain,
            decreases self.entries@.len() - i,
        {
            if self.entries[i].domain == domain {
                return Some(i);
            }
            i += 1;
        }
        None
    }

    /// The value configured for `domain`, if there is one.
    pub fn get(&self, domain: u32) -> (value: Option<&V>)
        requires
            self.wf(),
        ensures
            match value {
                Some(v) => self@.contains_key(domain) && self@[domain] == *v,
                None => !self@.contains_key(domain),
            },
    {
        match self.position(domain) {
            Some(i) => {
                proof {
                    lemma_entry(self.keys(), self.vals(), i as int);
                }
                Some(&self.entries[i].value)
            },
            None => None,
        }
    }

    /// Whether a value is configured for `domain`.
    pub fn contains(&self, domain: u32) -> (held: bool)
        requires
            self.wf(),
        ensures
            held == self@.contains_key(domain),
    {
        self.position(domain).is_some()
    }

    /// Configures `value` for `domain`, replacing what was configured before.
    pub fn insert(&mut self, domain: u32, value: V)
        requires
            old(self).wf(),
        ensures
            final(self).wf(),
            final(self)@ == old(self)@.insert(domain, value),
    {
        let ghost keys = self.keys();
        let ghost vals = self.vals();
        match self.position(domain) {
            Some(i) => {
                self.entries.set(i, DomainEntry { domain, value });
                proof {
                    lemma_update(keys, vals, i as int, value);
                    assert(self.keys() =~= keys);
                    assert(self.vals() =~= vals.update(i as int, value));
                }
            },
            None => {
                self.entries.push(DomainEntry { domain, value });
                proof {
                    lemma_push(keys, vals, domain, value);
                    assert(self.keys() =~= keys.push(domain));
                    assert(self.vals() =~= vals.push(value));
                }
            },
        }
    }

    /// Removes what is configured for `domain`, if anything.
    pub fn remove(&mut self, domain: u32)
        requires
            old(self).wf(),
        ensures
            final(self).wf(),
            final(self)@ == old(self)@.remove(domain),
    {
        let ghost keys = self.keys();
        let ghost vals = self.vals();
        match self.position(domain) {
            Some(i) => {
                self.entries.remove(i);
                proof {
                    lemma_remove(keys, vals, i as int);
                    assert(self.keys() =~= keys.remove(i as int));
                    assert(self.vals() =~= vals.remove(i as int));
                }
            },
            None => {
                assert(old(self)@.remove(domain) =~= old(self)@);
            },
        }
    }
}

impl<V> View for DomainMap<V> {
    type V = Map<u32, V>;

    closed spec fn view(&self) -> Map<u32, V> {
        as_map(self.keys(), self.vals())
    }
}

} // verus!
