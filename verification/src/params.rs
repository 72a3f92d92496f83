//! A name-to-string map for model parameters.
//!
//! Both the secret parameters resolved for a model and the plain key/value
//! parameters of a model descriptor are carried in this shape. Lookup finds
//! the first entry with the requested name.

use vstd::prelude::*;
use crate::text::str_eq;

verus! {

/// One named parameter.
#[derive(Debug)]
pub struct ParamEntry {
    /// The parameter name.
    pub key: String,
    /// The parameter value.
    pub value: String,
}

/// An ordered collection of named string parameters.
#[derive(Debug)]
pub struct ParamMap {
    /// The entries, in the order they were supplied.
    pub entries: Vec<ParamEntry>,
}

/// The value of the first entry of `s` whose key reads `k`, if any.
pub open spec fn lookup(s: Seq<ParamEntry>, k: Seq<char>) -> Option<Seq<char>>
    decreases s.len(),
{
    if s.len() == 0 {
        None
    } else if s[0].key@ == k {
        Some(s[0].value@)
    } else {
        lookup(s.skip(1), k)
    }
}

impl ParamMap {
    /// An empty parameter map.
    pub fn new() -> (r: ParamMap)
        ensures
            r.entries@.len() == 0,
    {
        ParamMap { entries: Vec::new() }
    }

    /// Adds an entry at the end of the map.
    pub fn insert(&mut self, key: String, value: String)
        ensures
            final(self).entries@.len() == old(self).entries@.len() + 1,
            final(self).entries@ == old(self).entries@.push(ParamEntry { key, value }),
    {
        self.entries.push(ParamEntry { key, value });
    }

    /// The value stored under `k`, if any.
    pub fn get<'a>(&'a self, k: &str) -> (r: Option<&'a String>)
        ensures
            match r {
                Some(v) => lookup(self.entries@, k@) == Some(v@),
                None => lookup(self.entries@, k@) is None,
            },
    {
        let n = self.entries.len();
        let mut i: usize = 0;
        proof {
            assert(self.entries@.skip(0) =~= self.entries@);
        }
        while i < n
            invariant
                0 <= i <= n,
                n == self.entries@.len(),
                lookup(self.entries@, k@) == lookup(self.entries@.skip(i as int), k@),
            decreases n - i,
        {
            proof {
                assert(self.entries@.skip(i as int).len() > 0);
                assert(self.entries@.skip(i as int)[0] == self.entries@[i as int]);
                assert(self.entries@.skip(i as int).skip(1) =~= self.entries@.skip(i + 1));
            }
            if str_eq(self.entries[i].key.as_str(), k) {
                return Some(&self.entries[i].value);
            }
            i += 1;
        }
        proof {
            assert(self.entries@.skip(n as int).len() == 0);
        }
        None
    }

    /// An owned copy of the value stored under `k`, if any.
    pub fn get_cloned(&self, k: &str) -> (r: Option<String>)
        ensures
            match r {
                Some(v) => lookup(self.entries@, k@) == Some(v@),
                None => lookup(self.entries@, k@) is None,
            },
    {
        match self.get(k) {
            Some(v) => Some(v.clone()),
            None => None,
        }
    }

    /// Whether the map stores a value under `k`.
    pub fn contains(&self, k: &str) -> (r: bool)
        ensures
            r <==> lookup(self.entries@, k@) is Some,
    {
        self.get(k).is_some()
    }
}

} // verus!
