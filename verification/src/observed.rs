//! The addresses seen during a run, each under its state key. The tries hold
//! state keys only; this map leads from a key back to the address it was
//! derived from, for diagnostics.

use crate::primitives::{Address, H256};
use vstd::prelude::*;

verus! {

/// One observed address with the state key it was recorded under.
#[derive(Clone, Copy, Debug)]
struct Observation {
    key: H256,
    address: Address,
}

/// A map from state key to address. No key is held twice: recording under a
/// key that is present replaces the address kept for it.
#[derive(Debug)]
pub struct ObservedAddresses {
    entries: Vec<Observation>,
}

/// The map that a list of observations stands for, a later one replacing an
/// earlier one of the same key.
spec fn to_map(entries: Seq<Observation>) -> Map<Seq<u8>, Seq<u8>>
    decreases entries.len(),
{
    if entries.len() == 0 {
        Map::empty()
    } else {
        to_map(entries.drop_last()).insert(entries.last().key@, entries.last().address@)
    }
}

/// No two observations have the same key.
spec fn distinct_keys(entries: Seq<Observation>) -> bool {
    forall|i: int, j: int|
        0 <= i < j < entries.len() ==> (#[trigger] entries[i]).key@ != (#[trigger] entries[j]).key@
}

/// The keys of the map are the keys of the observations, and each
/// observation's key leads to its address.
proof fn lemma_to_map_contents(entries: Seq<Observation>)
    requires
        distinct_keys(entries),
    ensures
        to_map(entries).dom().finite(),
        to_map(entries).dom().len() == entries.len(),
        forall|k: Seq<u8>|
            to_map(entries).dom().contains(k) <==> exists|i: int|
                0 <= i < entries.len() && (#[trigger] entries[i]).key@ == k,
        forall|i: int|
            0 <= i < entries.len() ==> to_map(entries)[(#[trigger] entries[i]).key@]
                == entries[i].address@,
    decreases entries.len(),
{
    if entries.len() > 0 {
        let front = entries.drop_last();
        let last = entries.last();
        assert(distinct_keys(front)) by {
            assert forall|i: int, j: int| 0 <= i < j < front.len() implies (#[trigger] front[i]).key@
                != (#[trigger] front[j]).key@ by {
                assert(front[i] == entries[i] && front[j] == entries[j]);
            }
        }
        lemma_to_map_contents(front);
        assert(!to_map(front).dom().contains(last.key@)) by {
            if to_map(front).dom().contains(last.key@) {
                let i = choose|i: int| 0 <= i < front.len() && (#[trigger] front[i]).key@ == last.key@;
                assert(entries[i] == front[i]);
                assert(entries[entries.len() - 1] == last);
            }
        }
        assert forall|k: Seq<u8>|
            to_map(entries).dom().contains(k) <==> exists|i: int|
                0 <= i < entries.len() && (#[trigger] entries[i]).key@ == k by {
            if to_map(entries).dom().contains(k) {
                if k == last.key@ {
                    assert(entries[entries.len() - 1].key@ == k);
                } else {
                    let i = choose|i: int| 0 <= i < front.len() && (#[trigger] front[i]).key@ == k;
                    assert(entries[i] == front[i]);
                }
            }
            if exists|i: int| 0 <= i < entries.len() && (#[trigger] entries[i]).key@ == k {
                let i = choose|i: int| 0 <= i < entries.len() && (#[trigger] entries[i]).key@ == k;
                if i < front.len() {
                    assert(front[i] == entries[i]);
                }
            }
        }
        assert forall|i: int| 0 <= i < entries.len() implies to_map(entries)[(#[trigger] entries[i]).key@]
            == entries[i].address@ by {
            if i < front.len() {
                assert(front[i] == entries[i]);
                assert(entries[entries.len() - 1] == last);
            }
        }
    }
}

/// Replacing the address of one observation replaces it in the map.
proof fn lemma_to_map_update(entries: Seq<Observation>, at: int, address: Address)
    requires
        distinct_keys(entries),
        0 <= at < entries.len(),
    ensures
        distinct_keys(entries.update(at, Observation { key: entries[at].key, address })),
        to_map(entries.update(at, Observation { key: entries[at].key, address })) == to_map(
            entries,
        ).insert(entries[at].key@, address@),
    decreases entries.len(),
{
    let key = entries[at].key;
    let updated = entries.update(at, Observation { key, address });
    assert(distinct_keys(updated)) by {
        assert forall|i: int, j: int| 0 <= i < j < updated.len() implies (#[trigger] updated[i]).key@
            != (#[trigger] updated[j]).key@ by {
            assert(updated[i].key@ == entries[i].key@);
            assert(updated[j].key@ == entries[j].key@);
        }
    }
    let front = entries.drop_last();
    let last = entries.last();
    if at == entries.len() - 1 {
        assert(updated.drop_last() =~= front);
        assert(to_map(updated) =~= to_map(entries).insert(key@, address@));
    } else {
        assert(distinct_keys(front)) by {
            assert forall|i: int, j: int| 0 <= i < j < front.len() implies (#[trigger] front[i]).key@
                != (#[trigger] front[j]).key@ by {
                assert(front[i] == entries[i] && front[j] == entries[j]);
            }
        }
        assert(front[at] == entries[at]);
        lemma_to_map_update(front, at, address);
        assert(updated.drop_last() =~= front.update(at, Observation { key, address }));
        assert(updated.last() == last);
        assert(entries[entries.len() - 1] == last);
        assert(last.key@ != key@);
        assert(to_map(updated) =~= to_map(entries).insert(key@, address@));
    }
}

impl View for ObservedAddresses {
    type V = Map<Seq<u8>, Seq<u8>>;

    /// The bytes of each recorded state key, leading to the bytes of the
    /// address recorded under it.
    closed spec fn view(&self) -> Map<Seq<u8>, Seq<u8>> {
        to_map(self.entries@)
    }
}

impl ObservedAddresses {
    /// The map's own invariant: no state key is held twice. Every map that
    /// this module hands out has it, and every operation keeps it.
    pub closed spec fn wf(&self) -> bool {
        distinct_keys(self.entries@)
    }

    /// A map without entries.
    pub fn new() -> (observed: ObservedAddresses)
        ensures
            observed.wf(),
            observed@ == Map::<Seq<u8>, Seq<u8>>::empty(),
    {
        ObservedAddresses { entries: Vec::new() }
    }

    /// Where in the list the key stands, if it is there.
    fn position(&self, key: &H256) -> (found: Option<usize>)
        ensures
            match found {
                Some(at) => at < self.entries@.len() && self.entries@[at as int].key@ == key@,
                None => forall|i: int|
                    0 <= i < self.entries@.len() ==> (#[trigger] self.entries@[i]).key@ != key@,
            },
    {
        let mut i: usize = 0;
        while i < self.entries.len()
            invariant
                i <= self.entries@.len(),
                forall|j: int| 0 <= j < i ==> (#[trigger] self.entries@[j]).key@ != key@,
            decreases self.entries@.len() - i,
        {
            if self.entries[i].key.same_bytes(key) {
                return Some(i);
            }
            i += 1;
        }
        None
    }

    /// The number of keys in the map.
    pub fn len(&self) -> (len: usize)
        requires
            self.wf(),
        ensures
            self@.dom().finite(),
            len == self@.dom().len(),
    {
        proof {
            lemma_to_map_contents(self.entries@);
        }
        self.entries.len()
    }

    /// The address recorded under `key`, if there is one.
    pub fn get(&self, key: &H256) -> (address: Option<Address>)
        requires
            self.wf(),
        ensures
            match address {
                Some(found) => self@.dom().contains(key@) && found@ == self@[key@],
                None => !self@.dom().contains(key@),
            },
    {
        proof {
            lemma_to_map_contents(self.entries@);
        }
        match self.position(key) {
            Some(at) => Some(self.entries[at].address),
            None => None,
        }
    }

    /// Records `address` under `key`. An address already recorded under that
    /// key gives way to the new one; every other entry stays.
    pub fn insert(&mut self, key: H256, address: Address)
        requires
            old(self).wf(),
        ensures
            final(self).wf(),
            final(self)@ == old(self)@.insert(key@, address@),
    {
        proof {
            lemma_to_map_contents(self.entries@);
        }
        match self.position(&key) {
            Some(at) => {
                proof {
                    lemma_to_map_update(self.entries@, at as int, address);
                }
                let stored = self.entries[at].key;
                self.entries.set(at, Observation { key: stored, address });
            },
            None => {
                let ghost before = self.entries@;
                self.entries.push(Observation { key, address });
                assert(self.entries@.drop_last() =~= before);
                assert(distinct_keys(self.entries@)) by {
                    assert forall|i: int, j: int| 0 <= i < j < self.entries@.len() implies (
                    #[trigger] self.entries@[i]).key@ != (#[trigger] self.entries@[j]).key@ by {
                        if j < before.len() {
                            assert(before[i] == self.entries@[i] && before[j] == self.entries@[j]);
                        } else {
                            assert(before[i] == self.entries@[i]);
                        }
                    }
                }
            },
        }
    }
}

} // verus!
