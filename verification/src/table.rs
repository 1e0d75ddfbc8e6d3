//! The selector table: an immutable mapping from 4-byte call selectors,
//! keyed by their big-endian integer value, to the ordered list of known
//! human-readable function signatures bearing that selector.
//!
//! A selector may collide across several known signatures; collisions are
//! surfaced in the stored order, not resolved. Absence of a selector is a
//! valid outcome meaning "unknown function", never an error.

use crate::hex::parse_hex8;
use crate::hex::parse_selector;
use vstd::prelude::*;

verus! {

/// Mapping from selector keys to the known signatures under each key.
pub struct SelectorTable {
    entries: Vec<(u32, Vec<String>)>,
}

/// The mathematical mapping written by a sequence of key/signatures entries;
/// a later entry for the same key would win, but well-formed tables hold each
/// key once.
spec fn entries_map(s: Seq<(u32, Vec<String>)>) -> Map<u32, Seq<Seq<char>>>
    decreases s.len(),
{
    if s.len() == 0 {
        Map::empty()
    } else {
        entries_map(s.drop_last()).insert(s.last().0, s.last().1.deep_view())
    }
}

/// Whether a sequence of entries holds each key at most once.
spec fn keys_unique(s: Seq<(u32, Vec<String>)>) -> bool {
    forall|i: int, j: int| 0 <= i < j < s.len() ==> s[i].0 != s[j].0
}

/// A key is in the mapping exactly when some entry holds it.
proof fn lemma_map_domain(s: Seq<(u32, Vec<String>)>, k: u32)
    ensures
        entries_map(s).contains_key(k) <==> exists|i: int| 0 <= i < s.len() && s[i].0 == k,
    decreases s.len(),
{
    if s.len() > 0 {
        lemma_map_domain(s.drop_last(), k);
        if s.last().0 == k {
            assert(s[s.len() - 1].0 == k);
        } else if entries_map(s).contains_key(k) {
            let i = choose|i: int| 0 <= i < s.drop_last().len() && s.drop_last()[i].0 == k;
            assert(s[i].0 == k);
        } else if exists|i: int| 0 <= i < s.len() && s[i].0 == k {
            let i = choose|i: int| 0 <= i < s.len() && s[i].0 == k;
            assert(s.drop_last()[i].0 == k);
        }
    }
}

/// With unique keys, each entry's key maps to that entry's signatures.
proof fn lemma_map_value(s: Seq<(u32, Vec<String>)>, i: int)
    requires
        keys_unique(s),
        0 <= i < s.len(),
    ensures
        entries_map(s).contains_key(s[i].0),
        entries_map(s)[s[i].0] == s[i].1.deep_view(),
    decreases s.len(),
{
    if i == s.len() - 1 {
    } else {
        assert(keys_unique(s.drop_last()));
        assert(s.drop_last()[i] == s[i]);
        lemma_map_value(s.drop_last(), i);
        assert(s.last().0 != s[i].0);
    }
}

impl View for SelectorTable {
    type V = Map<u32, Seq<Seq<char>>>;

    closed spec fn view(&self) -> Map<u32, Seq<Seq<char>>> {
        entries_map(self.entries@)
    }
}

impl SelectorTable {
    /// Well-formedness: each selector key is stored at most once.
    pub closed spec fn wf(&self) -> bool {
        keys_unique(self.entries@)
    }

    /// An empty table.
    pub fn new() -> (t: SelectorTable)
        ensures
            t.wf(),
            t@ == Map::<u32, Seq<Seq<char>>>::empty(),
    {
        let t = SelectorTable { entries: Vec::new() };
        proof {
            assert(t@ =~= Map::<u32, Seq<Seq<char>>>::empty());
        }
        t
    }

    /// Whether the table knows the given selector key.
    pub fn contains(&self, key: u32) -> (r: bool)
        ensures
            r == self@.contains_key(key),
    {
        let mut i: usize = 0;
        while i < self.entries.len()
            invariant
                i <= self.entries@.len(),
                forall|j: int| 0 <= j < i ==> self.entries@[j].0 != key,
            decreases self.entries@.len() - i,
        {
            if self.entries[i].0 == key {
                proof {
                    lemma_map_domain(self.entries@, key);
                }
                return true;
            }
            i = i + 1;
        }
        proof {
            lemma_map_domain(self.entries@, key);
        }
        false
    }

    /// Looks a selector key up: the known signatures under it, in stored
    /// order, or nothing when the key is unknown.
    pub fn lookup(&self, key: u32) -> (r: Option<&Vec<String>>)
        requires
            self.wf(),
        ensures
            r is Some <==> self@.contains_key(key),
            r matches Some(v) ==> v.deep_view() == self@[key],
    {
        let mut i: usize = 0;
        while i < self.entries.len()
            invariant
                self.wf(),
                i <= self.entries@.len(),
                forall|j: int| 0 <= j < i ==> self.entries@[j].0 != key,
            decreases self.entries@.len() - i,
        {
            if self.entries[i].0 == key {
                proof {
                    lemma_map_value(self.entries@, i as int);
                }
                return Some(&self.entries[i].1);
            }
            i = i + 1;
        }
        proof {
            lemma_map_domain(self.entries@, key);
        }
        None
    }

    /// Adds signatures under a selector key. Returns whether the entry was
    /// added; a key already present leaves the table unchanged, so the first
    /// entry for a key wins.
    pub fn add(&mut self, key: u32, sigs: Vec<String>) -> (added: bool)
        requires
            old(self).wf(),
        ensures
            final(self).wf(),
            added == !old(self)@.contains_key(key),
            added ==> final(self)@ == old(self)@.insert(key, sigs.deep_view()),
            !added ==> final(self)@ == old(self)@,
    {
        if self.contains(key) {
            return false;
        }
        proof {
            lemma_map_domain(self.entries@, key);
        }
        let ghost before = self.entries@;
        self.entries.push((key, sigs));
        proof {
            assert(self.entries@.drop_last() =~= before);
        }
        true
    }

    /// Adds signatures under a selector written as eight lowercase hex
    /// characters. Returns whether the entry was added; a selector of any
    /// other shape, or one already present, leaves the table unchanged.
    pub fn add_hex(&mut self, selector: &str, sigs: Vec<String>) -> (added: bool)
        requires
            old(self).wf(),
        ensures
            final(self).wf(),
            match parse_hex8(selector@) {
                Some(key) => {
                    &&& added == !old(self)@.contains_key(key)
                    &&& added ==> final(self)@ == old(self)@.insert(key, sigs.deep_view())
                    &&& !added ==> final(self)@ == old(self)@
                },
                None => !added && final(self)@ == old(self)@,
            },
    {
        match parse_selector(selector) {
            Some(key) => self.add(key, sigs),
            None => false,
        }
    }
}

} // verus!
