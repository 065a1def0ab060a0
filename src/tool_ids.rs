use vstd::prelude::*;

use crate::text::text_is;

verus! {

broadcast use vstd::std_specs::vec::group_vec_axioms, vstd::string::group_string_axioms;

/// The map that entries `s` describe, a later entry for a key standing over an earlier one.
pub open spec fn map_of(s: Seq<(String, u64)>) -> Map<Seq<char>, u64>
    decreases s.len(),
{
    if s.len() == 0 {
        Map::empty()
    } else {
        map_of(s.drop_last()).insert(s.last().0@, s.last().1)
    }
}

/// No two entries of `s` have the same key.
pub open spec fn keys_unique(s: Seq<(String, u64)>) -> bool {
    forall|i: int, j: int| 0 <= i < j < s.len() ==> (#[trigger] s[i]).0@ != (#[trigger] s[j]).0@
}

/// The keys of `map_of(s)` are the keys of the entries, and with unique keys
/// each maps to its entry's value.
pub proof fn lemma_map_of(s: Seq<(String, u64)>)
    requires
        keys_unique(s),
    ensures
        forall|k: Seq<char>| #[trigger] map_of(s).contains_key(k) <==> exists|i: int| 0 <= i < s.len() && s[i].0@ == k,
        forall|i: int| 0 <= i < s.len() ==> #[trigger] map_of(s)[s[i].0@] == s[i].1,
    decreases s.len(),
{
    if s.len() > 0 {
        let t = s.drop_last();
        assert forall|i: int, j: int| 0 <= i < j < t.len() implies (#[trigger] t[i]).0@ != (#[trigger] t[j]).0@ by {
            assert(t[i] == s[i] && t[j] == s[j]);
        }
        lemma_map_of(t);
        assert forall|k: Seq<char>| #[trigger] map_of(s).contains_key(k) <==> exists|i: int| 0 <= i < s.len() && s[i].0@ == k by {
            if map_of(s).contains_key(k) && k != s.last().0@ {
                assert(map_of(t).contains_key(k));
                let i = choose|i: int| 0 <= i < t.len() && t[i].0@ == k;
                assert(s[i] == t[i]);
            }
            if exists|i: int| 0 <= i < s.len() && s[i].0@ == k {
                let i = choose|i: int| 0 <= i < s.len() && s[i].0@ == k;
                if i < t.len() {
                    assert(t[i] == s[i]);
                    assert(map_of(t).contains_key(k));
                }
            }
        }
        assert forall|i: int| 0 <= i < s.len() implies #[trigger] map_of(s)[s[i].0@] == s[i].1 by {
            if i < t.len() {
                assert(t[i] == s[i]);
                assert(s[i].0@ != s[s.len() - 1].0@);
                assert(map_of(t)[t[i].0@] == t[i].1);
            }
        }
    }
}

/// The correlation table from the agent's tool-use ids to the host's tool-call ids.
pub struct ToolIdMap {
    entries: Vec<(String, u64)>,
}

impl ToolIdMap {
    /// The table as a map.
    pub closed spec fn view(&self) -> Map<Seq<char>, u64> {
        map_of(self.entries@)
    }

    /// No two entries share a tool-use id.
    pub closed spec fn wf(&self) -> bool {
        keys_unique(self.entries@)
    }

    pub fn new() -> (r: ToolIdMap)
        ensures
            r.wf(),
            r@ == Map::<Seq<char>, u64>::empty(),
    {
        ToolIdMap { entries: Vec::new() }
    }

    /// Where the entry for `key` stands.
    fn position(&self, key: &str) -> (r: Option<usize>)
        ensures
            r matches Some(i) ==> i < self.entries.len() && self.entries[i as int].0@ == key@,
            r is None ==> forall|i: int| 0 <= i < self.entries.len() ==> self.entries[i].0@ != key@,
    {
        let mut i: usize = 0;
        while i < self.entries.len()
            invariant
                0 <= i <= self.entries.len(),
                forall|j: int| 0 <= j < i ==> self.entries[j].0@ != key@,
            decreases self.entries.len() - i,
        {
            if text_is(&self.entries[i].0, key) {
                return Some(i);
            }
            i = i + 1;
        }
        None
    }

    /// Whether the table holds `key`.
    pub fn contains(&self, key: &str) -> (r: bool)
        requires
            self.wf(),
        ensures
            r == self@.contains_key(key@),
    {
        proof {
            lemma_map_of(self.entries@);
        }
        self.position(key).is_some()
    }

    /// Records that tool use `key` is shown as tool call `call`, in place of
    /// what was recorded for `key` before.
    pub fn insert(&mut self, key: String, call: u64)
        requires
            old(self).wf(),
        ensures
            final(self).wf(),
            final(self)@ == old(self)@.insert(key@, call),
    {
        let ghost k = key@;
        match self.position(key.as_str()) {
            Some(i) => {
                self.remove_at(i);
            },
            None => {},
        }
        let ghost mid = self.entries@;
        proof {
            lemma_map_of(mid);
            assert(!map_of(mid).contains_key(k));
        }
        self.entries.push((key, call));
        proof {
            assert(self.entries@.drop_last() =~= mid);
            assert forall|i: int, j: int| 0 <= i < j < self.entries@.len() implies (#[trigger] self.entries@[i]).0@
                != (#[trigger] self.entries@[j]).0@ by {
                if j == mid.len() {
                    assert(self.entries@[i] == mid[i]);
                } else {
                    assert(self.entries@[i] == mid[i] && self.entries@[j] == mid[j]);
                }
            }
            assert(map_of(self.entries@) =~= old(self)@.insert(k, call));
        }
    }

    /// Takes out the entry at `i`.
    fn remove_at(&mut self, i: usize)
        requires
            old(self).wf(),
            i < old(self).entries.len(),
        ensures
            final(self).wf(),
            final(self)@ == old(self)@.remove(old(self).entries[i as int].0@),
            forall|k: Seq<char>| #[trigger] final(self)@.contains_key(k) ==> k != old(self).entries[i as int].0@,
    {
        let ghost s = self.entries@;
        let ghost key = s[i as int].0@;
        self.entries.remove(i);
        let ghost t = self.entries@;
        proof {
            assert(t =~= s.remove(i as int));
            assert forall|a: int, b: int| 0 <= a < b < t.len() implies (#[trigger] t[a]).0@ != (#[trigger] t[b]).0@ by {
                let a0 = if a < i { a } else { a + 1 };
                let b0 = if b < i { b } else { b + 1 };
                assert(t[a] == s[a0] && t[b] == s[b0]);
            }
            lemma_map_of(s);
            lemma_map_of(t);
            assert forall|k: Seq<char>| #[trigger] map_of(t).contains_key(k) <==> map_of(s).remove(key).contains_key(k) by {
                if map_of(t).contains_key(k) {
                    let a = choose|a: int| 0 <= a < t.len() && t[a].0@ == k;
                    let a0 = if a < i { a } else { a + 1 };
                    assert(t[a] == s[a0]);
                }
                if map_of(s).remove(key).contains_key(k) {
                    let a0 = choose|a: int| 0 <= a < s.len() && s[a].0@ == k;
                    let a = if a0 < i { a0 } else { a0 - 1 };
                    assert(t[a] == s[a0]);
                }
            }
            assert forall|k: Seq<char>| #[trigger] map_of(t).contains_key(k) implies map_of(t)[k] == map_of(s)[k] by {
                let a = choose|a: int| 0 <= a < t.len() && t[a].0@ == k;
                let a0 = if a < i { a } else { a + 1 };
                assert(t[a] == s[a0]);
            }
            assert(map_of(t) =~= map_of(s).remove(key));
        }
    }

    /// Takes out the entry for `key`, and gives the tool call it named; `None`,
    /// and the table unchanged, where `key` was never recorded or was taken out
    /// before.
    pub fn remove(&mut self, key: &str) -> (r: Option<u64>)
        requires
            old(self).wf(),
        ensures
            final(self).wf(),
            final(self)@ == old(self)@.remove(key@),
            r == (if old(self)@.contains_key(key@) {
                Some(old(self)@[key@])
            } else {
                None
            }),
    {
        proof {
            lemma_map_of(self.entries@);
        }
        match self.position(key) {
            Some(i) => {
                let call = self.entries[i].1;
                self.remove_at(i);
                Some(call)
            },
            None => {
                proof {
                    assert(self@.remove(key@) =~= self@);
                }
                None
            },
        }
    }
}

} // verus!
