use vstd::prelude::*;

verus! {

/// A mapping from string keys to string values.
///
/// A fresh context is created for every event by the trigger that emits it,
/// enriched by the check, and then read by the actions.  Keys occur at most
/// once; inserting an existing key replaces its value.
#[derive(Debug, PartialEq, Eq)]
pub struct Context {
    entries: Vec<(String, String)>,
}

impl View for Context {
    type V = Map<Seq<char>, Seq<char>>;

    closed spec fn view(&self) -> Map<Seq<char>, Seq<char>> {
        Context::map_of(self.entries@)
    }
}

impl Context {
    /// The mathematical map described by a sequence of key/value pairs,
    /// later pairs taking precedence.
    pub closed spec fn map_of(s: Seq<(String, String)>) -> Map<Seq<char>, Seq<char>>
        decreases s.len(),
    {
        if s.len() == 0 {
            Map::empty()
        } else {
            Context::map_of(s.drop_last()).insert(s.last().0@, s.last().1@)
        }
    }

    /// Each key occurs at most once among the entries.
    pub closed spec fn wf(&self) -> bool {
        forall|i: int, j: int|
            0 <= i < j < self.entries@.len() ==> self.entries@[i].0@ != self.entries@[j].0@
    }

    proof fn lemma_map_of_contains(s: Seq<(String, String)>, k: Seq<char>)
        ensures
            Context::map_of(s).contains_key(k) <==> exists|i: int|
                0 <= i < s.len() && s[i].0@ == k,
        decreases s.len(),
    {
        if s.len() > 0 {
            Context::lemma_map_of_contains(s.drop_last(), k);
            if s.last().0@ == k {
                assert(s[s.len() - 1].0@ == k);
            } else if Context::map_of(s).contains_key(k) {
                let i = choose|i: int| 0 <= i < s.drop_last().len() && s.drop_last()[i].0@ == k;
                assert(s[i].0@ == k);
            } else if exists|i: int| 0 <= i < s.len() && s[i].0@ == k {
                let i = choose|i: int| 0 <= i < s.len() && s[i].0@ == k;
                assert(s.drop_last()[i].0@ == k);
            }
        }
    }

    proof fn lemma_map_of_get(s: Seq<(String, String)>, i: int)
        requires
            0 <= i < s.len(),
            forall|x: int, y: int| 0 <= x < y < s.len() ==> s[x].0@ != s[y].0@,
        ensures
            Context::map_of(s).contains_key(s[i].0@),
            Context::map_of(s)[s[i].0@] == s[i].1@,
        decreases s.len(),
    {
        if i == s.len() - 1 {
        } else {
            assert(s[i].0@ != s.last().0@);
            assert(s.drop_last()[i] == s[i]);
            Context::lemma_map_of_get(s.drop_last(), i);
        }
    }

    /// Creates an empty context.
    pub fn new() -> (r: Context)
        ensures
            r@ == Map::<Seq<char>, Seq<char>>::empty(),
            r.wf(),
    {
        Context { entries: Vec::new() }
    }

    /// Inserts a key/value pair; an existing entry for the key is replaced.
    pub fn insert(&mut self, key: &str, value: String)
        requires
            old(self).wf(),
        ensures
            final(self).wf(),
            final(self)@ == old(self)@.insert(key@, value@),
            final(self)@.dom() == old(self)@.dom().insert(key@),
    {
        let ghost s0 = self.entries@;
        let owned = key.to_owned();
        let mut idx: usize = 0;
        let mut found: bool = false;
        while idx < self.entries.len() && !found
            invariant
                0 <= idx <= self.entries@.len(),
                self.entries@ == s0,
                owned@ == key@,
                !found ==> forall|j: int| 0 <= j < idx ==> s0[j].0@ != key@,
                found ==> idx < s0.len() && s0[idx as int].0@ == key@,
            decreases s0.len() - idx + (if found { 0int } else { 1int }),
        {
            if self.entries[idx].0 == owned {
                found = true;
            } else {
                idx = idx + 1;
            }
        }
        if found {
            self.entries.remove(idx);
            proof {
                Context::lemma_map_of_remove(s0, idx as int, key@);
            }
        } else {
            proof {
                Context::lemma_map_of_contains(s0, key@);
                assert(!Context::map_of(s0).contains_key(key@));
                assert(Context::map_of(s0).remove(key@) =~= Context::map_of(s0));
            }
        }
        let ghost s1 = self.entries@;
        self.entries.push((key.to_owned(), value));
        proof {
            assert(self.entries@.drop_last() =~= s1);
            assert(Context::map_of(self.entries@) == Context::map_of(s1).insert(key@, value@));
            assert(Context::map_of(s1) == Context::map_of(s0).remove(key@));
            assert(Context::map_of(self.entries@) =~= Context::map_of(s0).insert(key@, value@));
            Context::lemma_map_of_contains(s1, key@);
            assert(forall|j: int|
                0 <= j < s1.len() ==> #[trigger] s1[j] == if j < idx { s0[j] } else { s0[j + 1] });
            assert(final(self)@.dom() =~= old(self)@.dom().insert(key@));
        }
    }

    proof fn lemma_map_of_remove(s: Seq<(String, String)>, i: int, k: Seq<char>)
        requires
            0 <= i < s.len(),
            s[i].0@ == k,
            forall|x: int, y: int| 0 <= x < y < s.len() ==> s[x].0@ != s[y].0@,
        ensures
            Context::map_of(s.remove(i)) == Context::map_of(s).remove(k),
        decreases s.len(),
    {
        if i == s.len() - 1 {
            assert(s.remove(i) =~= s.drop_last());
            Context::lemma_map_of_contains(s.drop_last(), k);
            assert(!Context::map_of(s.drop_last()).contains_key(k));
            assert(Context::map_of(s.drop_last()).insert(k, s[i].1@).remove(k)
                =~= Context::map_of(s.drop_last()));
        } else {
            let t = s.remove(i);
            assert(t.len() == s.len() - 1);
            assert(t.last() == s.last());
            assert(t.drop_last() =~= s.drop_last().remove(i));
            Context::lemma_map_of_remove(s.drop_last(), i, k);
            assert(s[i].0@ != s.last().0@);
            assert(Context::map_of(t) == Context::map_of(s.drop_last().remove(i)).insert(
                s.last().0@,
                s.last().1@,
            ));
            assert(Context::map_of(s).remove(k) =~= Context::map_of(s.drop_last()).remove(
                k,
            ).insert(s.last().0@, s.last().1@));
        }
    }

    /// Looks a key up; returns the stored value if the key is present.
    pub fn get(&self, key: &str) -> (r: Option<&String>)
        requires
            self.wf(),
        ensures
            match r {
                Some(v) => self@.contains_key(key@) && v@ == self@[key@],
                None => !self@.contains_key(key@),
            },
    {
        let owned = key.to_owned();
        let mut idx: usize = 0;
        while idx < self.entries.len()
            invariant
                self.wf(),
                owned@ == key@,
                0 <= idx <= self.entries@.len(),
                forall|j: int| 0 <= j < idx ==> self.entries@[j].0@ != key@,
            decreases self.entries@.len() - idx,
        {
            if self.entries[idx].0 == owned {
                proof {
                    Context::lemma_map_of_get(self.entries@, idx as int);
                }
                return Some(&self.entries[idx].1);
            }
            idx = idx + 1;
        }
        proof {
            Context::lemma_map_of_contains(self.entries@, key@);
        }
        None
    }

    /// Rebuilds the context entry by entry: the result holds the same map,
    /// with every key stored once.
    pub fn normalized(&self) -> (r: Context)
        ensures
            r.wf(),
            r@ == self@,
    {
        let ghost s = self.entries@;
        let mut out = Context::new();
        let mut i: usize = 0;
        while i < self.entries.len()
            invariant
                s == self.entries@,
                0 <= i <= s.len(),
                out.wf(),
                out@ == Context::map_of(s.take(i as int)),
            decreases s.len() - i,
        {
            out.insert(self.entries[i].0.as_str(), self.entries[i].1.clone());
            proof {
                let t = s.take(i + 1);
                assert(t.drop_last() =~= s.take(i as int));
                assert(t.last() == s[i as int]);
                assert(Context::map_of(t) == Context::map_of(s.take(i as int)).insert(
                    s[i as int].0@,
                    s[i as int].1@,
                ));
            }
            i = i + 1;
        }
        proof {
            assert(s.take(s.len() as int) =~= s);
        }
        out
    }

    /// The entries in insertion order.
    pub fn entries(&self) -> (r: &Vec<(String, String)>)
        ensures
            r@ == self.entry_seq(),
    {
        &self.entries
    }

    /// The underlying sequence of key/value pairs.
    pub closed spec fn entry_seq(&self) -> Seq<(String, String)> {
        self.entries@
    }

    proof fn lemma_entry_in_map(&self, i: int)
        requires
            self.wf(),
            0 <= i < self.entry_seq().len(),
        ensures
            self@.contains_key(self.entry_seq()[i].0@),
            self@[self.entry_seq()[i].0@] == self.entry_seq()[i].1@,
    {
        Context::lemma_map_of_get(self.entries@, i);
    }

    /// Two distinct entries never share a key.
    pub proof fn lemma_keys_distinct(&self, i: int, j: int)
        requires
            self.wf(),
            0 <= i < j < self.entry_seq().len(),
        ensures
            self.entry_seq()[i].0@ != self.entry_seq()[j].0@,
    {
    }

    /// Every stored pair is reflected in the map view.
    pub proof fn lemma_entries_in_view(&self)
        requires
            self.wf(),
        ensures
            forall|i: int|
                0 <= i < self.entry_seq().len() ==> self@.contains_key(
                    #[trigger] self.entry_seq()[i].0@,
                ) && self@[self.entry_seq()[i].0@] == self.entry_seq()[i].1@,
    {
        assert forall|i: int| 0 <= i < self.entry_seq().len() implies self@.contains_key(
            #[trigger] self.entry_seq()[i].0@,
        ) && self@[self.entry_seq()[i].0@] == self.entry_seq()[i].1@ by {
            self.lemma_entry_in_map(i);
        }
    }

    /// Every key of the map view comes from some stored pair.
    pub proof fn lemma_view_from_entries(&self, k: Seq<char>)
        requires
            self@.contains_key(k),
        ensures
            exists|i: int| 0 <= i < self.entry_seq().len() && self.entry_seq()[i].0@ == k,
    {
        Context::lemma_map_of_contains(self.entries@, k);
        let i = choose|i: int| 0 <= i < self.entries@.len() && self.entries@[i].0@ == k;
        assert(self.entry_seq()[i].0@ == k);
    }
}

} // verus!
