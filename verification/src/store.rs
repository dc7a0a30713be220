//! The store: byte payloads addressed by storage key.
//!
//! The store models durable storage as a map from keys to payloads. Writing
//! under a key that already exists overwrites, as rewriting a file would; a
//! stored payload is otherwise immutable, and nothing is ever deleted. The
//! entries are kept in write order, the view is the map they denote with the
//! latest write winning.

use vstd::prelude::*;

verus! {

pub struct Store {
    entries: Vec<(String, Vec<u8>)>,
}

/// The map denoted by a sequence of writes: each entry overwrites whatever
/// an earlier one put under the same key.
pub open spec fn entries_map(s: Seq<(String, Vec<u8>)>) -> Map<Seq<char>, Seq<u8>>
    decreases s.len(),
{
    if s.len() == 0 {
        Map::empty()
    } else {
        entries_map(s.drop_last()).insert(s.last().0@, s.last().1@)
    }
}

impl View for Store {
    type V = Map<Seq<char>, Seq<u8>>;

    closed spec fn view(&self) -> Map<Seq<char>, Seq<u8>> {
        entries_map(self.entries@)
    }
}

/// A write under one key says nothing about any other key: the maps before
/// and after agree everywhere else.
proof fn lemma_entries_map_step(s: Seq<(String, Vec<u8>)>, k: Seq<char>)
    requires
        s.len() > 0,
        s.last().0@ != k,
    ensures
        entries_map(s).contains_key(k) == entries_map(s.drop_last()).contains_key(k),
        entries_map(s).contains_key(k) ==> entries_map(s)[k] == entries_map(s.drop_last())[k],
{
}

impl Store {
    /// A store holding nothing.
    pub fn new() -> (r: Store)
        ensures
            r@ == Map::<Seq<char>, Seq<u8>>::empty(),
    {
        Store { entries: Vec::new() }
    }

    /// Write a payload under a key. The payload stored is exactly the one
    /// received; a payload already stored under the same key is overwritten.
    pub fn put(&mut self, key: String, bytes: Vec<u8>)
        ensures
            final(self)@ == old(self)@.insert(key@, bytes@),
    {
        let ghost pre = self.entries@;
        let ghost k = key@;
        let ghost b = bytes@;
        self.entries.push((key, bytes));
        proof {
            assert(self.entries@.drop_last() =~= pre);
            assert(self.entries@.last().0@ == k);
            assert(self.entries@.last().1@ == b);
        }
    }

    /// Retrieve the payload stored under a key, or nothing where the key
    /// was never written.
    pub fn get(&self, key: &String) -> (r: Option<&Vec<u8>>)
        ensures
            match r {
                Some(v) => self@.contains_key(key@) && v@ == self@[key@],
                None => !self@.contains_key(key@),
            },
    {
        let ghost full = self.entries@;
        let mut i: usize = self.entries.len();
        proof {
            assert(full.take(full.len() as int) =~= full);
        }
        while i > 0
            invariant
                0 <= i <= full.len(),
                full == self.entries@,
                entries_map(full).contains_key(key@) == entries_map(
                    full.take(i as int),
                ).contains_key(key@),
                entries_map(full).contains_key(key@) ==> entries_map(full)[key@] == entries_map(
                    full.take(i as int),
                )[key@],
            decreases i,
        {
            i -= 1;
            let e = &self.entries[i];
            proof {
                assert(full.take(i + 1).last() == full[i as int]);
                assert(full.take(i + 1).drop_last() =~= full.take(i as int));
            }
            if e.0 == *key {
                proof {
                    assert(entries_map(full.take(i + 1)).contains_key(key@));
                    assert(entries_map(full.take(i + 1))[key@] == e.1@);
                }
                return Some(&e.1);
            }
            proof {
                lemma_entries_map_step(full.take(i + 1), key@);
            }
        }
        proof {
            assert(full.take(0) =~= Seq::<(String, Vec<u8>)>::empty());
        }
        None
    }

    /// Whether a payload is stored under the key.
    pub fn exists_key(&self, key: &String) -> (r: bool)
        ensures
            r == self@.contains_key(key@),
    {
        self.get(key).is_some()
    }
}

} // verus!
