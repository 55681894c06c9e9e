//! A small verified string-to-string map, used for topic configuration
//! and decoded form payloads.

use vstd::prelude::*;

use crate::strutil::str_eq;

verus! {

broadcast use vstd::std_specs::vec::group_vec_axioms;

/// A string-to-string mapping backed by an entry list; later entries
/// override earlier ones.
pub struct StringMap {
    entries: Vec<(String, String)>,
}

/// The mapping that a sequence of entries denotes: later entries override
/// earlier ones.
pub closed spec fn config_map(entries: Seq<(String, String)>) -> Map<Seq<char>, Seq<char>>
    decreases entries.len(),
{
    if entries.len() == 0 {
        Map::empty()
    } else {
        config_map(entries.drop_last()).insert(entries.last().0@, entries.last().1@)
    }
}

impl View for StringMap {
    type V = Map<Seq<char>, Seq<char>>;

    closed spec fn view(&self) -> Map<Seq<char>, Seq<char>> {
        config_map(self.entries@)
    }
}

impl StringMap {
    /// An empty configuration.
    pub fn new() -> (r: Self)
        ensures
            r@ == Map::<Seq<char>, Seq<char>>::empty(),
    {
        let r = StringMap { entries: Vec::new() };
        proof {
            assert(r@ =~= Map::<Seq<char>, Seq<char>>::empty());
        }
        r
    }

    /// Set a key to a value, overriding any earlier value.
    pub fn insert(&mut self, key: &str, value: &str)
        ensures
            final(self)@ == old(self)@.insert(key@, value@),
    {
        let ghost before = self.entries@;
        self.entries.push((key.to_owned(), value.to_owned()));
        proof {
            assert(self.entries@.drop_last() =~= before);
            assert(self.entries@.last().0@ == key@ && self.entries@.last().1@ == value@);
        }
    }

    /// The value at a key, if any.
    #[verifier::loop_isolation(false)]
    pub fn get(&self, key: &str) -> (r: Option<&String>)
        ensures
            match r {
                Some(v) => self@.contains_key(key@) && v@ == self@[key@],
                None => !self@.contains_key(key@),
            },
    {
        let mut i: usize = self.entries.len();
        proof {
            assert(self.entries@.subrange(0, i as int) =~= self.entries@);
        }
        while i > 0
            invariant
                0 <= i <= self.entries@.len(),
                config_map(self.entries@).contains_key(key@) == config_map(
                    self.entries@.subrange(0, i as int),
                ).contains_key(key@),
                config_map(self.entries@.subrange(0, i as int)).contains_key(key@)
                    ==> config_map(self.entries@)[key@] == config_map(
                    self.entries@.subrange(0, i as int),
                )[key@],
            decreases i,
        {
            i -= 1;
            let ghost pre1 = self.entries@.subrange(0, i as int + 1);
            let ghost pre = self.entries@.subrange(0, i as int);
            proof {
                assert(pre1.drop_last() =~= pre);
                assert(pre1.last() == self.entries@[i as int]);
            }
            if str_eq(self.entries[i].0.as_str(), key) {
                return Some(&self.entries[i].1);
            }
        }
        proof {
            assert(self.entries@.subrange(0, 0) =~= Seq::<(String, String)>::empty());
        }
        None
    }

    /// Whether the configuration holds no keys at all.
    #[verifier::loop_isolation(false)]
    pub fn is_empty(&self) -> (r: bool)
        ensures
            r == (self@ == Map::<Seq<char>, Seq<char>>::empty()),
    {
        if self.entries.len() == 0 {
            proof {
                assert(self@ =~= Map::<Seq<char>, Seq<char>>::empty());
            }
            true
        } else {
            proof {
                assert(self@.contains_key(self.entries@.last().0@));
            }
            false
        }
    }
}

impl Clone for StringMap {
    fn clone(&self) -> (r: Self)
        ensures
            r@ == self@,
    {
        let n = self.entries.len();
        let mut entries: Vec<(String, String)> = Vec::new();
        let mut i: usize = 0;
        while i < n
            invariant
                0 <= i <= n,
                n == self.entries@.len(),
                entries@.len() == i,
                forall|k: int| 0 <= k < i ==> entries@[k] == self.entries@[k],
            decreases n - i,
        {
            entries.push((self.entries[i].0.clone(), self.entries[i].1.clone()));
            i += 1;
        }
        let r = StringMap { entries };
        proof {
            assert(r.entries@ =~= self.entries@);
        }
        r
    }
}

} // verus!
