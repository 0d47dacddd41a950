//! The ids already given out during an import, by the text they stand for: each glossary is
//! stored once per hash, and each tag or rule set once per text.
use vstd::prelude::*;

use vstd::hash_map::StringHashMap;

use crate::text::{chars_of, string_from_chars};

verus! {

/// Texts with the ids they were given, held in a hash map keyed by the text.
pub struct InternCache {
    ids: StringHashMap<i64>,
}

impl InternCache {
    /// The ids given out, by text.
    pub closed spec fn view(&self) -> Map<Seq<char>, i64> {
        self.ids@
    }

    /// An empty cache.
    pub fn new() -> (r: InternCache)
        ensures
            r@ == Map::<Seq<char>, i64>::empty(),
    {
        InternCache { ids: StringHashMap::new() }
    }

    /// The id given to `key`, if one was.
    pub fn get(&self, key: &str) -> (r: Option<i64>)
        ensures
            r == (if self@.contains_key(key@) {
                Some(self@[key@])
            } else {
                None::<i64>
            }),
    {
        match self.ids.get(key) {
            Some(id) => Some(*id),
            None => None,
        }
    }

    /// Records `id` as the id of `key`, in place of any id it had.
    pub fn insert(&mut self, key: &str, id: i64)
        ensures
            final(self)@ == old(self)@.insert(key@, id),
    {
        let owned = string_from_chars(chars_of(key).as_slice());
        self.ids.insert(owned, id);
    }
}

/// A text interned once is found again with its id, and no other text's id changes.
pub proof fn lemma_interned_found_again(ids: Map<Seq<char>, i64>, key: Seq<char>, id: i64, other: Seq<char>)
    requires
        other != key,
    ensures
        ids.insert(key, id).contains_key(key),
        ids.insert(key, id)[key] == id,
        ids.insert(key, id).contains_key(other) == ids.contains_key(other),
        ids.contains_key(other) ==> ids.insert(key, id)[other] == ids[other],
{
}

} // verus!
