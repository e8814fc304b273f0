//! The in-process link store: a map from identifier to target, owned by one
//! running instance.

use crate::errors::Error;
use vstd::hash_map::StringHashMap;
use vstd::prelude::*;

verus! {

/// The reply that a live store gives to a liveness probe.
pub const PONG: &'static str = "PONG";

/// The links of a store as a mathematical map, from identifier to target.
pub type Links = Map<Seq<char>, Seq<char>>;

/// The way back: for a value, the key it was last written under.
pub type Index = Map<Seq<char>, Seq<char>>;

/// The key that `value` is known under: the key it was last stored under,
/// provided that key still holds it.
pub open spec fn known_key(links: Links, latest: Index, value: Seq<char>) -> Option<Seq<char>> {
    match latest.get(value) {
        Some(key) => if links.get(key) == Some(value) {
            Some(key)
        } else {
            None
        },
        None => None,
    }
}

/// An in-memory store. Reads and writes never fail; a write to a key that is
/// already present replaces its value. Beside the links the store remembers,
/// for each value, the key it was last written under.
pub struct MemoryStore {
    links: StringHashMap<String>,
    latest: StringHashMap<String>,
}

impl View for MemoryStore {
    type V = Links;

    closed spec fn view(&self) -> Links {
        self.links@.map_values(|value: String| value@)
    }
}

impl MemoryStore {
    /// For each value ever written, the key of the last write that stored it.
    pub closed spec fn latest(&self) -> Index {
        self.latest@.map_values(|key: String| key@)
    }

    /// A store without links.
    pub fn new() -> (store: Self)
        ensures
            store@ == Links::empty(),
            store.latest() == Index::empty(),
    {
        let store = MemoryStore { links: StringHashMap::new(), latest: StringHashMap::new() };
        assert(store@ =~= Links::empty());
        assert(store.latest() =~= Index::empty());
        store
    }

    /// The value stored under `key`, if there is one.
    pub fn get(&self, key: &str) -> (reply: Result<Option<String>, Error>)
        ensures
            reply matches Ok(found) && match found {
                Some(value) => self@.get(key@) == Some(value@),
                None => self@.get(key@) is None,
            },
    {
        match self.links.get(key) {
            Some(value) => Ok(Some(value.clone())),
            None => Ok(None),
        }
    }

    /// Stores `value` under `key`, whatever was there before.
    pub fn set(&mut self, key: String, value: String) -> (reply: Result<(), Error>)
        ensures
            reply is Ok,
            final(self)@ == old(self)@.insert(key@, value@),
            final(self).latest() == old(self).latest().insert(value@, key@),
    {
        self.latest.insert(value.clone(), key.clone());
        self.links.insert(key, value);
        assert(self@ =~= old(self)@.insert(key@, value@));
        assert(self.latest() =~= old(self).latest().insert(value@, key@));
        Ok(())
    }

    /// The key that `value` is known under, if there is one.
    pub fn find(&self, value: &str) -> (reply: Result<Option<String>, Error>)
        ensures
            reply matches Ok(found) && match found {
                Some(key) => known_key(self@, self.latest(), value@) == Some(key@),
                None => known_key(self@, self.latest(), value@) is None,
            },
    {
        match self.latest.get(value) {
            Some(key) => match self.links.get(key.as_str()) {
                Some(held) => {
                    if *held == value.to_owned() {
                        Ok(Some(key.clone()))
                    } else {
                        Ok(None)
                    }
                },
                None => Ok(None),
            },
            None => Ok(None),
        }
    }

    /// Answers a liveness probe. An in-process store is live as long as the
    /// process runs.
    pub fn ping(&self) -> (reply: Result<String, Error>)
        ensures
            reply matches Ok(text) && text@ == PONG@,
    {
        Ok(PONG.to_owned())
    }
}

} // verus!
