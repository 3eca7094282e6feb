use crate::identity::{bytes_equal, Identity, IdentityView};
use vstd::prelude::*;

verus! {

/// One slot of the store: a key and the identity that owns it.
struct Entry {
    key: Vec<u8>,
    owner: Identity,
}

/// The key/value store that the contract guards: for each key at most one owner.
///
/// Its view is the map from the keys that have an entry to their owners.
pub struct Store {
    entries: Vec<Entry>,
}

/// Whether slot `i` of `entries` is the slot of `key`.
spec fn slot_of(entries: Seq<Entry>, key: Seq<u8>, i: int) -> bool {
    0 <= i < entries.len() && entries[i].key@ == key
}

/// No key has two slots.
spec fn distinct_keys(entries: Seq<Entry>) -> bool {
    forall|i: int, j: int| 0 <= i < j < entries.len() ==> entries[i].key@ != entries[j].key@
}

/// The map that a sequence of slots stands for.
spec fn contents(entries: Seq<Entry>) -> Map<Seq<u8>, IdentityView> {
    Map::new(
        |key: Seq<u8>| exists|i: int| slot_of(entries, key, i),
        |key: Seq<u8>| entries[choose|i: int| slot_of(entries, key, i)].owner@,
    )
}

/// With distinct keys, slot `i` decides what the map holds for its key.
proof fn lemma_contents_at(entries: Seq<Entry>, i: int)
    requires
        distinct_keys(entries),
        0 <= i < entries.len(),
    ensures
        contents(entries).contains_key(entries[i].key@),
        contents(entries)[entries[i].key@] == entries[i].owner@,
{
    let key = entries[i].key@;
    assert(slot_of(entries, key, i));
    let chosen = choose|j: int| slot_of(entries, key, j);
    assert(slot_of(entries, key, chosen));
    if chosen < i {
        assert(entries[chosen].key@ != entries[i].key@);
    } else if i < chosen {
        assert(entries[i].key@ != entries[chosen].key@);
    }
}

impl View for Store {
    type V = Map<Seq<u8>, IdentityView>;

    closed spec fn view(&self) -> Map<Seq<u8>, IdentityView> {
        contents(self.entries@)
    }
}

impl Store {
    /// The store's invariant: no key is recorded twice. Every store that
    /// this module hands out is well formed.
    pub closed spec fn wf(&self) -> bool {
        distinct_keys(self.entries@)
    }

    /// A store without entries.
    pub fn new() -> (store: Store)
        ensures
            store.wf(),
            store@ == Map::<Seq<u8>, IdentityView>::empty(),
    {
        let store = Store { entries: Vec::new() };
        assert(store@ =~= Map::<Seq<u8>, IdentityView>::empty());
        store
    }

    /// The slot of `key`, if it has one.
    fn find(&self, key: &Vec<u8>) -> (slot: Option<usize>)
        ensures
            match slot {
                Some(i) => slot_of(self.entries@, key@, i as int),
                None => forall|i: int| !slot_of(self.entries@, key@, i),
            },
    {
        let mut i: usize = 0;
        while i < self.entries.len()
            invariant
                i <= self.entries@.len(),
                forall|j: int| 0 <= j < i ==> !slot_of(self.entries@, key@, j),
            decreases self.entries@.len() - i,
        {
            if bytes_equal(&self.entries[i].key, key) {
                return Some(i);
            }
            i += 1;
        }
        None
    }

    /// The owner recorded for `key`: `None` where the key has no entry.
    pub fn get(&self, key: &Vec<u8>) -> (owner: Option<&Identity>)
        requires
            self.wf(),
        ensures
            match owner {
                Some(identity) => self@.contains_key(key@) && identity@ == self@[key@],
                None => !self@.contains_key(key@),
            },
    {
        match self.find(key) {
            Some(i) => {
                proof {
                    lemma_contents_at(self.entries@, i as int);
                }
                Some(&self.entries[i].owner)
            },
            None => None,
        }
    }

    /// Records `owner` for `key`, in place of the owner it had, if any. Every
    /// other key keeps what it had.
    pub fn set(&mut self, key: Vec<u8>, owner: Identity)
        requires
            old(self).wf(),
        ensures
            final(self).wf(),
            final(self)@ == old(self)@.insert(key@, owner@),
    {
        let ghost before = self.entries@;
        let ghost wanted = contents(before).insert(key@, owner@);
        let slot = self.find(&key);
        match slot {
            Some(i) => {
                self.entries.set(i, Entry { key, owner });
            },
            None => {
                self.entries.push(Entry { key, owner });
            },
        }
        proof {
            let after = self.entries@;
            let at: int = match slot {
                Some(i) => i as int,
                None => before.len() as int,
            };
            assert(after.len() > at && after[at].key@ == key@ && after[at].owner@ == owner@);
            assert(forall|j: int| 0 <= j < before.len() && j != at ==> after[j] == before[j]);
            assert forall|j: int| 0 <= j < after.len() && j != at implies after[j].key@
                != key@ by {
                assert(after[j] == before[j]);
                match slot {
                    Some(_) => {
                        assert(slot_of(before, key@, at));
                        if j < at {
                            assert(before[j].key@ != before[at].key@);
                        } else {
                            assert(before[at].key@ != before[j].key@);
                        }
                    },
                    None => {
                        assert(!slot_of(before, key@, j));
                    },
                }
            }
            assert(distinct_keys(after));
            assert forall|k: Seq<u8>| contents(after).contains_key(k) <==> wanted.contains_key(
                k,
            ) by {
                if contents(after).contains_key(k) {
                    let j = choose|j: int| slot_of(after, k, j);
                    if j != at {
                        assert(slot_of(before, k, j));
                    }
                }
                if wanted.contains_key(k) {
                    if k == key@ {
                        assert(slot_of(after, k, at));
                    } else {
                        let j = choose|j: int| slot_of(before, k, j);
                        assert(slot_of(after, k, j));
                    }
                }
            }
            assert forall|k: Seq<u8>| contents(after).contains_key(k) implies contents(after)[k]
                == wanted[k] by {
                let j = choose|j: int| slot_of(after, k, j);
                lemma_contents_at(after, j);
                if j != at {
                    lemma_contents_at(before, j);
                }
            }
            assert(contents(after) =~= wanted);
        }
    }
}

} // verus!
