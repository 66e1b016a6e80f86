//! The options dictionary: an ordered sequence of (key, value) string pairs
//! marshaled to and from the native key/value list at the disown/re-own
//! boundary.
//!
//! A native open entry point takes a mutable pointer to an options list and
//! may consume or reallocate its entries, so the dictionary's representation
//! is handed over ("disowned") for the duration of exactly one native call
//! and reclaimed ("re-owned") after the call returns, on every path
//! including the error path. Here that discipline leans on ownership:
//! `disown` consumes the dictionary and yields the representation as an
//! owned value that the caller must carry to `own`, the only operation that
//! consumes it, so a representation cannot be re-owned twice and dropping
//! one without reclaiming it is loud at the type level.

use vstd::prelude::*;

verus! {

/// An owned, ordered mapping from string keys to string values.
pub struct Dictionary {
    entries: Vec<(String, String)>,
}

/// The value paired with the first occurrence of `key` in an ordered pair
/// sequence.
pub open spec fn lookup(s: Seq<(String, String)>, key: Seq<char>) -> Option<Seq<char>>
    decreases s.len(),
{
    if s.len() == 0 {
        None
    } else if s[0].0@ == key {
        Some(s[0].1@)
    } else {
        lookup(s.skip(1), key)
    }
}

/// The representation of a dictionary while it is lent to a native call.
/// Obtained only from `Dictionary::disown` and consumed only by
/// `Dictionary::own`.
#[must_use]
pub struct Disowned {
    entries: Vec<(String, String)>,
}

impl Dictionary {
    /// The ordered pairs this dictionary holds.
    pub closed spec fn view(&self) -> Seq<(String, String)> {
        self.entries@
    }

    /// An empty dictionary.
    pub fn new() -> (d: Dictionary)
        ensures
            d@ == Seq::<(String, String)>::empty(),
    {
        Dictionary { entries: Vec::new() }
    }

    /// Build a dictionary from a sequence of (key, value) pairs, kept in
    /// order.
    pub fn from_pairs(pairs: Vec<(String, String)>) -> (d: Dictionary)
        ensures
            d@ == pairs@,
    {
        Dictionary { entries: pairs }
    }

    /// Append one (key, value) pair.
    pub fn push(&mut self, key: String, value: String)
        ensures
            final(self)@ == old(self)@.push((key, value)),
    {
        self.entries.push((key, value));
    }

    /// The number of pairs.
    pub fn len(&self) -> (n: usize)
        ensures
            n == self@.len(),
    {
        self.entries.len()
    }

    /// The pair at `i`.
    pub fn pair(&self, i: usize) -> (p: &(String, String))
        requires
            i < self@.len(),
        ensures
            *p == self@[i as int],
    {
        &self.entries[i]
    }

    /// The value paired with the first occurrence of `key`, if any — the
    /// native list convention: an earlier pair shadows a later one with the
    /// same key.
    pub fn get(&self, key: &String) -> (r: Option<&String>)
        ensures
            match r {
                Some(v) => lookup(self@, key@) == Some(v@),
                None => lookup(self@, key@) is None,
            },
    {
        let mut i: usize = 0;
        proof {
            assert(self.entries@.skip(0) =~= self.entries@);
        }
        while i < self.entries.len()
            invariant
                i <= self.entries@.len(),
                lookup(self.entries@, key@) == lookup(self.entries@.skip(i as int), key@),
            decreases self.entries@.len() - i,
        {
            proof {
                assert(self.entries@.skip(i as int)[0] == self.entries@[i as int]);
                assert(self.entries@.skip(i as int).skip(1) =~= self.entries@.skip(i as int + 1));
            }
            if self.entries[i].0 == *key {
                return Some(&self.entries[i].1);
            }
            i = i + 1;
        }
        proof {
            assert(self.entries@.skip(i as int) =~= Seq::<(String, String)>::empty());
        }
        None
    }

    /// Hand the representation out for one native call. The pairs are
    /// unchanged; the caller must pass the returned value to `own` exactly
    /// once when the native call returns, whatever its outcome.
    pub fn disown(self) -> (w: Disowned)
        ensures
            w@ == self@,
    {
        Disowned { entries: self.entries }
    }

    /// Reclaim a representation handed out by `disown`, with whatever pairs
    /// the native call left in it.
    pub fn own(w: Disowned) -> (d: Dictionary)
        ensures
            d@ == w@,
    {
        Dictionary { entries: w.entries }
    }
}

impl Disowned {
    /// The ordered pairs the lent representation holds.
    pub closed spec fn view(&self) -> Seq<(String, String)> {
        self.entries@
    }
}

/// Disowning a dictionary and re-owning the representation when the native
/// call made no modification yields a dictionary with the original pairs:
/// `disown` hands out exactly the pairs, and `own` takes back exactly what
/// the representation holds.
pub proof fn lemma_disown_reown_roundtrip(d: Dictionary, w: Disowned, r: Dictionary)
    requires
        w@ == d@,
        r@ == w@,
    ensures
        r@ == d@,
{
}

} // verus!
