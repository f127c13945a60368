//! The key-value store: what a store owes its users, and a store that
//! keeps its entries in memory.

use crate::text::{chars_of, same_text};
use vstd::prelude::*;

verus! {

/// Error of a store.
#[derive(Debug, Clone)]
pub struct StoreError {
    /// What went wrong.
    pub reason: String,
}

/// A store of texts by key.
pub trait KeyValueStore {
    /// What the store holds.
    spec fn contents(&self) -> Map<Seq<char>, Seq<char>>;

    /// Looks a key up.  An answer is the value that the store holds for the
    /// key, or nothing where it holds none.
    fn get(&self, key: &str) -> (r: Result<Option<String>, StoreError>)
        ensures
            r matches Ok(found) ==> match found {
                Some(v) => self.contents().contains_key(key@) && self.contents()[key@] == v@,
                None => !self.contents().contains_key(key@),
            },
    ;

    /// Sets the value of a key.  A store that fails holds what it held.
    fn set(&mut self, key: &str, value: &str) -> (r: Result<(), StoreError>)
        ensures
            r is Ok ==> final(self).contents() == old(self).contents().insert(key@, value@),
            r is Err ==> final(self).contents() == old(self).contents(),
    ;

    /// Removes a key.  A store that fails holds what it held.
    fn delete(&mut self, key: &str) -> (r: Result<(), StoreError>)
        ensures
            r is Ok ==> final(self).contents() == old(self).contents().remove(key@),
            r is Err ==> final(self).contents() == old(self).contents(),
    ;
}

/// The map that a list of entries denotes: of two entries with one key the
/// later counts.
pub open spec fn map_of(entries: Seq<(String, String)>) -> Map<Seq<char>, Seq<char>>
    decreases entries.len(),
{
    if entries.len() == 0 {
        Map::empty()
    } else {
        map_of(entries.drop_last()).insert(entries.last().0@, entries.last().1@)
    }
}

/// A store that keeps its entries in memory.
#[derive(Debug)]
pub struct EmbeddedStore {
    entries: Vec<(String, String)>,
}

impl EmbeddedStore {
    /// An empty store.
    pub fn new() -> (store: EmbeddedStore)
        ensures
            store.contents() == Map::<Seq<char>, Seq<char>>::empty(),
    {
        EmbeddedStore { entries: Vec::new() }
    }

    /// The number of entries that the store keeps.
    pub fn len(&self) -> (n: usize)
        ensures
            n == self.entry_count(),
    {
        self.entries.len()
    }

    /// The number of entries that the store keeps.
    pub closed spec fn entry_count(&self) -> nat {
        self.entries@.len()
    }
}

/// Copies the entries whose key is not `key`.
fn without(entries: &Vec<(String, String)>, key: &str) -> (kept: Vec<(String, String)>)
    ensures
        map_of(kept@) == map_of(entries@).remove(key@),
{
    let wanted = chars_of(key);
    let mut kept: Vec<(String, String)> = Vec::new();
    let mut i: usize = 0;
    proof {
        assert(entries@.take(0) =~= Seq::<(String, String)>::empty());
        assert(map_of(kept@) =~= map_of(entries@.take(0)).remove(key@));
    }
    while i < entries.len()
        invariant
            0 <= i <= entries@.len(),
            wanted@ == key@,
            map_of(kept@) == map_of(entries@.take(i as int)).remove(key@),
        decreases entries@.len() - i,
    {
        let ghost before = kept@;
        proof {
            assert(entries@.take(i + 1).drop_last() =~= entries@.take(i as int));
            assert(entries@.take(i + 1).last() == entries@[i as int]);
        }
        let k = chars_of(entries[i].0.as_str());
        if !same_text(k.as_slice(), wanted.as_slice()) {
            let entry = (entries[i].0.clone(), entries[i].1.clone());
            kept.push(entry);
            proof {
                assert(kept@.drop_last() =~= before);
                assert(map_of(kept@) =~= map_of(entries@.take(i + 1)).remove(key@));
            }
        } else {
            proof {
                assert(map_of(kept@) =~= map_of(entries@.take(i + 1)).remove(key@));
            }
        }
        i = i + 1;
    }
    proof {
        assert(entries@.take(i as int) =~= entries@);
    }
    kept
}

impl KeyValueStore for EmbeddedStore {
    closed spec fn contents(&self) -> Map<Seq<char>, Seq<char>> {
        map_of(self.entries@)
    }

    fn get(&self, key: &str) -> (r: Result<Option<String>, StoreError>)
        ensures
            r is Ok,
    {
        let wanted = chars_of(key);
        let mut i: usize = self.entries.len();
        assert(self.entries@.take(i as int) =~= self.entries@);
        while i > 0
            invariant
                0 <= i <= self.entries@.len(),
                wanted@ == key@,
                map_of(self.entries@).contains_key(key@) <==> map_of(
                    self.entries@.take(i as int),
                ).contains_key(key@),
                map_of(self.entries@).contains_key(key@) ==> map_of(self.entries@)[key@] == map_of(
                    self.entries@.take(i as int),
                )[key@],
            decreases i,
        {
            proof {
                assert(self.entries@.take(i as int).drop_last() =~= self.entries@.take(i - 1));
                assert(self.entries@.take(i as int).last() == self.entries@[i - 1]);
            }
            let k = chars_of(self.entries[i - 1].0.as_str());
            if same_text(k.as_slice(), wanted.as_slice()) {
                return Ok(Some(self.entries[i - 1].1.clone()));
            }
            i = i - 1;
        }
        Ok(None)
    }

    fn set(&mut self, key: &str, value: &str) -> (r: Result<(), StoreError>)
        ensures
            r is Ok,
    {
        let mut kept = without(&self.entries, key);
        let ghost before = kept@;
        kept.push((key.to_owned(), value.to_owned()));
        proof {
            assert(kept@.drop_last() =~= before);
            assert(map_of(kept@) =~= map_of(self.entries@).insert(key@, value@));
        }
        self.entries = kept;
        Ok(())
    }

    fn delete(&mut self, key: &str) -> (r: Result<(), StoreError>)
        ensures
            r is Ok,
    {
        let kept = without(&self.entries, key);
        self.entries = kept;
        Ok(())
    }
}

} // verus!
