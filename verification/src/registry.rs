use vstd::prelude::*;
use crate::errors::BridgeError;
use crate::text::str_eq;

verus! {

/// True when `entries` holds no two equal identifiers.
pub open spec fn no_duplicates(entries: Seq<Seq<char>>) -> bool {
    forall|i: int, j: int| 0 <= i < j < entries.len() ==> entries[i] != entries[j]
}

/// The mathematical content of a [`ReplayRegistry`]: the identifiers
/// credited so far, in the order they were recorded, and the configured
/// capacity bound.
pub struct RegistryView {
    pub entries: Seq<Seq<char>>,
    pub capacity: nat,
}

/// The default sizing of the registry: how many deposits a deployment
/// can credit before the bound must be raised.
pub const DEFAULT_REGISTRY_CAPACITY: usize = 100;

/// Tracks which source-chain transaction identifiers have already been
/// credited. Append-only, duplicate-free, bounded by a capacity fixed at
/// construction.
pub struct ReplayRegistry {
    entries: Vec<String>,
    capacity: usize,
}

impl View for ReplayRegistry {
    type V = RegistryView;

    closed spec fn view(&self) -> RegistryView {
        RegistryView { entries: self.entries.deep_view(), capacity: self.capacity as nat }
    }
}

impl ReplayRegistry {
    /// The registry invariant: no identifier appears twice, and the entry
    /// count never exceeds the capacity bound.
    pub open spec fn wf(&self) -> bool {
        &&& no_duplicates(self@.entries)
        &&& self@.entries.len() <= self@.capacity
    }

    /// An empty registry with the given capacity bound.
    pub fn new(capacity: usize) -> (r: ReplayRegistry)
        ensures
            r.wf(),
            r@.entries == Seq::<Seq<char>>::empty(),
            r@.capacity == capacity as nat,
    {
        let r = ReplayRegistry { entries: Vec::new(), capacity };
        proof {
            assert(r@.entries =~= Seq::<Seq<char>>::empty());
        }
        r
    }

    /// Rebuilds a registry from persisted entries, validating the
    /// invariant: returns `None` exactly when the entries hold a duplicate
    /// or exceed the capacity bound.
    pub fn from_entries(entries: Vec<String>, capacity: usize) -> (r: Option<ReplayRegistry>)
        ensures
            match r {
                Some(reg) => {
                    &&& reg.wf()
                    &&& reg@.entries == entries.deep_view()
                    &&& reg@.capacity == capacity as nat
                },
                None => !(no_duplicates(entries.deep_view()) && entries.deep_view().len()
                    <= capacity as nat),
            },
    {
        if entries.len() > capacity {
            return None;
        }
        let n = entries.len();
        let mut i: usize = 1;
        while i < n
            invariant
                n == entries.len(),
                1 <= i,
                i <= n || n == 0,
                forall|p: int, q: int|
                    0 <= p < q < i ==> entries.deep_view()[p] != entries.deep_view()[q],
            decreases n - i,
        {
            let mut j: usize = 0;
            while j < i
                invariant
                    n == entries.len(),
                    0 <= j <= i < n,
                    forall|p: int| 0 <= p < j ==> entries.deep_view()[p] != entries.deep_view()[i as int],
                decreases i - j,
            {
                assert(entries.deep_view()[j as int] == entries[j as int]@);
                assert(entries.deep_view()[i as int] == entries[i as int]@);
                if str_eq(entries[j].as_str(), entries[i].as_str()) {
                    return None;
                }
                j += 1;
            }
            i += 1;
        }
        Some(ReplayRegistry { entries, capacity })
    }

    /// Pure membership query: has `tx_hash` already been recorded?
    pub fn is_processed(&self, tx_hash: &str) -> (r: bool)
        ensures
            r == self@.entries.contains(tx_hash@),
    {
        let n = self.entries.len();
        let mut i: usize = 0;
        while i < n
            invariant
                n == self.entries.len(),
                0 <= i <= n,
                self@.entries.len() == n,
                forall|j: int| 0 <= j < i ==> self@.entries[j] != tx_hash@,
            decreases n - i,
        {
            assert(self@.entries[i as int] == self.entries[i as int]@);
            if str_eq(self.entries[i].as_str(), tx_hash) {
                return true;
            }
            i += 1;
        }
        false
    }

    /// Records a new identifier. Fails with `AlreadyProcessed` if it was
    /// recorded before, and with `RegistryFull` if the capacity bound is
    /// reached; either failure leaves the registry unchanged.
    pub fn record(&mut self, tx_hash: String) -> (r: Result<(), BridgeError>)
        requires
            old(self).wf(),
        ensures
            final(self).wf(),
            final(self)@.capacity == old(self)@.capacity,
            match r {
                Ok(()) => {
                    &&& !old(self)@.entries.contains(tx_hash@)
                    &&& old(self)@.entries.len() < old(self)@.capacity
                    &&& final(self)@.entries == old(self)@.entries.push(tx_hash@)
                },
                Err(e) => {
                    &&& final(self)@.entries == old(self)@.entries
                    &&& if old(self)@.entries.contains(tx_hash@) {
                        e == BridgeError::AlreadyProcessed
                    } else {
                        &&& e == BridgeError::RegistryFull
                        &&& old(self)@.entries.len() >= old(self)@.capacity
                    }
                },
            },
    {
        if self.is_processed(tx_hash.as_str()) {
            return Err(BridgeError::AlreadyProcessed);
        }
        if self.entries.len() >= self.capacity {
            return Err(BridgeError::RegistryFull);
        }
        self.entries.push(tx_hash);
        proof {
            assert(final(self)@.entries =~= old(self)@.entries.push(tx_hash@));
        }
        Ok(())
    }

    /// The recorded identifiers, oldest first.
    pub fn entries(&self) -> (r: &Vec<String>)
        ensures
            r.deep_view() == self@.entries,
    {
        &self.entries
    }

    /// How many identifiers have been recorded.
    pub fn len(&self) -> (r: usize)
        ensures
            r == self@.entries.len(),
    {
        self.entries.len()
    }

    /// The capacity bound fixed at construction.
    pub fn capacity(&self) -> (r: usize)
        ensures
            r == self@.capacity,
    {
        self.capacity
    }
}

} // verus!
