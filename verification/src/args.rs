//! The argument map a preset shares between all of its transformer steps:
//! string keys to string values.

use vstd::prelude::*;
use crate::strutil::str_eq;

verus! {

/// Looks `key` up in an entry list; a later entry for a key wins.
pub open spec fn spec_lookup(
    entries: Seq<(Seq<char>, Seq<char>)>,
    key: Seq<char>,
) -> Option<Seq<char>>
    decreases entries.len(),
{
    if entries.len() == 0 {
        None
    } else if entries.last().0 == key {
        Some(entries.last().1)
    } else {
        spec_lookup(entries.drop_last(), key)
    }
}

/// A map from string keys to string values, kept as an entry list in which a
/// later entry for a key overrides an earlier one.
#[derive(Debug)]
pub struct ArgMap {
    entries: Vec<(String, String)>,
}

impl View for ArgMap {
    type V = Seq<(Seq<char>, Seq<char>)>;

    closed spec fn view(&self) -> Seq<(Seq<char>, Seq<char>)> {
        self.entries.deep_view()
    }
}

impl Clone for ArgMap {
    fn clone(&self) -> (r: Self)
        ensures
            r@ == self@,
    {
        let mut entries: Vec<(String, String)> = Vec::new();
        let mut i: usize = 0;
        while i < self.entries.len()
            invariant
                i <= self.entries.len(),
                entries.deep_view() == self.entries.deep_view().take(i as int),
            decreases self.entries.len() - i,
        {
            let k = self.entries[i].0.clone();
            let v = self.entries[i].1.clone();
            let ghost pre = entries.deep_view();
            proof {
                assert(pre.len() == entries@.len());
            }
            entries.push((k, v));
            proof {
                let lhs = entries.deep_view();
                let rhs = self.entries.deep_view().take(i as int + 1);
                assert forall|j: int| 0 <= j < lhs.len() implies lhs[j] == rhs[j] by {
                    if j < i as int {
                        assert(lhs[j] == pre[j]);
                    } else {
                        assert((k, v).deep_view() == self.entries@[i as int].deep_view());
                    }
                }
                assert(lhs =~= rhs);
            }
            i = i + 1;
        }
        proof {
            assert(entries.deep_view() =~~= self.entries.deep_view());
        }
        ArgMap { entries }
    }
}

impl ArgMap {
    /// An empty map.
    pub fn new() -> (r: ArgMap)
        ensures
            r@ == Seq::<(Seq<char>, Seq<char>)>::empty(),
    {
        let r = ArgMap { entries: Vec::new() };
        proof {
            assert(r@ =~= Seq::<(Seq<char>, Seq<char>)>::empty());
        }
        r
    }

    /// Adds an entry; it overrides any earlier entry for the same key.
    pub fn insert(&mut self, key: String, value: String)
        ensures
            final(self)@ == old(self)@.push((key@, value@)),
    {
        let ghost before = self@;
        let ghost kv = (key@, value@);
        self.entries.push((key, value));
        proof {
            assert(self@ =~= before.push(kv));
        }
    }

    /// The value under `key`, if any.
    pub fn get(&self, key: &str) -> (r: Option<&String>)
        ensures
            match r {
                Some(v) => spec_lookup(self@, key@) == Some(v@),
                None => spec_lookup(self@, key@) is None,
            },
    {
        let mut i: usize = self.entries.len();
        proof {
            assert(self@.take(i as int) =~= self@);
        }
        while i > 0
            invariant
                i <= self.entries.len(),
                spec_lookup(self@, key@) == spec_lookup(self@.take(i as int), key@),
            decreases i,
        {
            if str_eq(self.entries[i - 1].0.as_str(), key) {
                proof {
                    assert(self@.take(i as int).last() == self@[i - 1]);
                }
                return Some(&self.entries[i - 1].1);
            }
            proof {
                assert(self@.take(i as int).drop_last() =~= self@.take(i as int - 1));
            }
            i = i - 1;
        }
        None
    }

    /// The entries, in insertion order; for callers that persist or show the map.
    pub fn entry_list(&self) -> (r: &Vec<(String, String)>)
        ensures
            r.deep_view() == self@,
    {
        &self.entries
    }
}

} // verus!
