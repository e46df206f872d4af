//! A small text-keyed map in which a later entry for a key replaces an
//! earlier one, as a `HashMap` built by successive inserts does.

use vstd::prelude::*;

use crate::text::str_eq;

verus! {

/// Text-keyed map. Entries are kept in insertion order; for a key that
/// occurs more than once, the last entry is the one that counts.
pub struct TextMap<V> {
    pub entries: Vec<(String, V)>,
}

/// The map that a sequence of `(key, value)` inserts produces.
pub open spec fn entries_map<V>(s: Seq<(String, V)>) -> Map<Seq<char>, V>
    decreases s.len(),
{
    if s.len() == 0 {
        Map::empty()
    } else {
        entries_map(s.drop_last()).insert(s.last().0@, s.last().1)
    }
}

/// Entries at or after `from` do not carry key `k`.
pub open spec fn key_absent_from<V>(s: Seq<(String, V)>, k: Seq<char>, from: int) -> bool {
    forall|j: int| from <= j < s.len() ==> (#[trigger] s[j]).0@ != k
}

/// Keys that no entry at or after `from` carries are looked up in the
/// prefix before `from`.
pub proof fn lemma_entries_map_prefix<V>(s: Seq<(String, V)>, k: Seq<char>, from: int)
    requires
        0 <= from <= s.len(),
        key_absent_from(s, k, from),
    ensures
        entries_map(s).contains_key(k) == entries_map(s.take(from)).contains_key(k),
        entries_map(s).contains_key(k) ==> entries_map(s)[k] == entries_map(s.take(from))[k],
    decreases s.len() - from,
{
    if from < s.len() {
        let t = s.drop_last();
        assert(key_absent_from(t, k, from)) by {
            assert forall|j: int| from <= j < t.len() implies (#[trigger] t[j]).0@ != k by {
                assert(t[j] == s[j]);
            }
        }
        lemma_entries_map_prefix(t, k, from);
        assert(t.take(from) =~= s.take(from));
        assert(s.last() == s[s.len() - 1]);
    } else {
        assert(s.take(from) =~= s);
    }
}

impl<V> TextMap<V> {
    /// The key-value view of the map.
    pub open spec fn view(&self) -> Map<Seq<char>, V> {
        entries_map(self.entries@)
    }

    /// An empty map.
    pub fn new() -> (m: Self)
        ensures
            m.view() == Map::<Seq<char>, V>::empty(),
    {
        TextMap { entries: Vec::new() }
    }

    /// Insert or replace the value of `key`.
    pub fn insert(&mut self, key: String, value: V)
        ensures
            final(self).view() == old(self).view().insert(key@, value),
    {
        self.entries.push((key, value));
        proof {
            assert(self.entries@.drop_last() =~= old(self).entries@);
        }
    }

    /// Look up `key`.
    pub fn get(&self, key: &str) -> (r: Option<&V>)
        ensures
            r is Some <==> self.view().contains_key(key@),
            r matches Some(v) ==> *v == self.view()[key@],
    {
        let mut i: usize = self.entries.len();
        while i > 0
            invariant
                i <= self.entries@.len(),
                key_absent_from(self.entries@, key@, i as int),
            decreases i,
        {
            let j = i - 1;
            if str_eq(self.entries[j].0.as_str(), key) {
                proof {
                    let s = self.entries@;
                    lemma_entries_map_prefix(s, key@, i as int);
                    let p = s.take(i as int);
                    assert(p.drop_last() =~= s.take(j as int));
                    assert(p.last() == s[j as int]);
                }
                return Some(&self.entries[j].1);
            }
            i = j;
        }
        proof {
            lemma_entries_map_prefix(self.entries@, key@, 0);
            assert(self.entries@.take(0) =~= Seq::<(String, V)>::empty());
        }
        None
    }
}

} // verus!
