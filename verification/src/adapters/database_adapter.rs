//! The database behind the database port: an embedded store.

use crate::database::{EmbeddedStore, KeyValueStore, StoreError};
use vstd::prelude::*;

verus! {

/// The database, as the application sees it.
pub trait DatabasePort {

}

/// A database that keeps its entries in an embedded store.
#[derive(Debug)]
pub struct DatabaseAdapter {
    store: EmbeddedStore,
}

impl DatabaseAdapter {
    /// A database with an empty store.
    pub fn new() -> (db: DatabaseAdapter)
        ensures
            db.contents() == Map::<Seq<char>, Seq<char>>::empty(),
    {
        DatabaseAdapter { store: EmbeddedStore::new() }
    }
}

impl DatabasePort for DatabaseAdapter {

}

impl KeyValueStore for DatabaseAdapter {
    closed spec fn contents(&self) -> Map<Seq<char>, Seq<char>> {
        self.store.contents()
    }

    fn get(&self, key: &str) -> (r: Result<Option<String>, StoreError>)
        ensures
            r is Ok,
    {
        self.store.get(key)
    }

    fn set(&mut self, key: &str, value: &str) -> (r: Result<(), StoreError>)
        ensures
            r is Ok,
    {
        self.store.set(key, value)
    }

    fn delete(&mut self, key: &str) -> (r: Result<(), StoreError>)
        ensures
            r is Ok,
    {
        self.store.delete(key)
    }
}

} // verus!
