//! A map keyed by text, kept as a vector of entries with distinct keys.
use vstd::prelude::*;

verus! {

/// Map from text keys to values; the entries keep the order in which keys first arrived.
#[derive(Debug)]
pub struct TextMap<V> {
    entries: Vec<(String, V)>,
}

/// The map that a sequence of entries with distinct keys stands for.
pub open spec fn entries_map<V>(s: Seq<(String, V)>) -> Map<Seq<char>, V>
    decreases s.len(),
{
    if s.len() == 0 {
        Map::empty()
    } else {
        entries_map(s.drop_last()).insert(s.last().0@, s.last().1)
    }
}

pub open spec fn distinct_keys<V>(s: Seq<(String, V)>) -> bool {
    forall|i: int, j: int| 0 <= i < j < s.len() ==> s[i].0@ != s[j].0@
}

proof fn lemma_entries_map<V>(s: Seq<(String, V)>)
    requires
        distinct_keys(s),
    ensures
        forall|k: Seq<char>| #[trigger] entries_map(s).contains_key(k) <==> exists|i: int| 0 <= i < s.len() && s[i].0@ == k,
        forall|i: int| 0 <= i < s.len() ==> #[trigger] entries_map(s)[s[i].0@] == s[i].1,
    decreases s.len(),
{
    if s.len() > 0 {
        let p = s.drop_last();
        assert(distinct_keys(p));
        lemma_entries_map(p);
        let n = s.len() - 1;
        assert forall|k: Seq<char>| #[trigger] entries_map(s).contains_key(k) <==> exists|i: int| 0 <= i < s.len() && s[i].0@ == k by {
            if entries_map(s).contains_key(k) {
                if k == s[n].0@ {
                    assert(s[n].0@ == k);
                } else {
                    assert(entries_map(p).contains_key(k));
                    let j = choose|j: int| 0 <= j < p.len() && p[j].0@ == k;
                    assert(s[j] == p[j]);
                    assert(s[j].0@ == k);
                }
            }
            if exists|i: int| 0 <= i < s.len() && s[i].0@ == k {
                let i = choose|i: int| 0 <= i < s.len() && s[i].0@ == k;
                if i < n {
                    assert(p[i] == s[i]);
                    assert(p[i].0@ == k);
                    assert(entries_map(p).contains_key(k));
                }
            }
        }
        assert forall|i: int| 0 <= i < s.len() implies #[trigger] entries_map(s)[s[i].0@] == s[i].1 by {
            if i < n {
                assert(p[i] == s[i]);
                assert(s[i].0@ != s[n].0@);
                assert(entries_map(p)[p[i].0@] == p[i].1);
            }
        }
    }
}

impl<V> View for TextMap<V> {
    type V = Map<Seq<char>, V>;

    closed spec fn view(&self) -> Map<Seq<char>, V> {
        entries_map(self.entries@)
    }
}

impl<V> TextMap<V> {
    #[verifier::type_invariant]
    spec fn keys_distinct(&self) -> bool {
        distinct_keys(self.entries@)
    }

    /// The entries, in order; their keys are distinct.
    pub closed spec fn entry_seq(&self) -> Seq<(String, V)> {
        self.entries@
    }

    /// An empty map.
    pub fn new() -> (r: TextMap<V>)
        ensures
            r@ == Map::<Seq<char>, V>::empty(),
            r.entry_seq().len() == 0,
    {
        TextMap { entries: Vec::new() }
    }

    /// Number of keys.
    pub fn len(&self) -> (r: usize)
        ensures
            r == self.entry_seq().len(),
            r == self@.dom().len(),
            self@.dom().finite(),
    {
        proof {
            use_type_invariant(self);
            lemma_card_of(self.entries@);
        }
        self.entries.len()
    }

    /// Position of `key` among the entries.
    fn find(&self, key: &str) -> (r: Option<usize>)
        ensures
            match r {
                Some(i) => i < self.entries@.len() && self.entries@[i as int].0@ == key@,
                None => forall|i: int| 0 <= i < self.entries@.len() ==> self.entries@[i].0@ != key@,
            },
    {
        let mut i: usize = 0;
        let k = String::from_str(key);
        while i < self.entries.len()
            invariant
                i <= self.entries@.len(),
                k@ == key@,
                forall|j: int| 0 <= j < i ==> self.entries@[j].0@ != key@,
            decreases self.entries@.len() - i,
        {
            if self.entries[i].0 == k {
                return Some(i);
            }
            i = i + 1;
        }
        None
    }

    /// True when `key` is present.
    pub fn contains_key(&self, key: &str) -> (r: bool)
        ensures
            r == self@.contains_key(key@),
    {
        proof {
            use_type_invariant(self);
            lemma_entries_map(self.entries@);
        }
        self.find(key).is_some()
    }

    /// The value under `key`.
    pub fn get(&self, key: &str) -> (r: Option<&V>)
        ensures
            match r {
                Some(v) => self@.contains_key(key@) && *v == self@[key@],
                None => !self@.contains_key(key@),
            },
    {
        proof {
            use_type_invariant(self);
            lemma_entries_map(self.entries@);
        }
        match self.find(key) {
            Some(i) => Some(&self.entries[i].1),
            None => None,
        }
    }

    /// The entry at position `i`.
    pub fn entry_at(&self, i: usize) -> (r: (&String, &V))
        requires
            i < self.entry_seq().len(),
        ensures
            *r.0 == self.entry_seq()[i as int].0,
            *r.1 == self.entry_seq()[i as int].1,
            self@.contains_key(r.0@),
            self@[r.0@] == *r.1,
    {
        proof {
            use_type_invariant(self);
            lemma_entries_map(self.entries@);
        }
        (&self.entries[i].0, &self.entries[i].1)
    }

    /// The keys, in entry order.
    pub fn keys(&self) -> (r: Vec<String>)
        ensures
            r@.len() == self@.dom().len(),
            forall|i: int| 0 <= i < r@.len() ==> self@.contains_key(#[trigger] r@[i]@),
            forall|k: Seq<char>| #[trigger] self@.contains_key(k) ==> exists|i: int| 0 <= i < r@.len() && r@[i]@ == k,
            forall|i: int, j: int| 0 <= i < j < r@.len() ==> r@[i]@ != r@[j]@,
    {
        proof {
            use_type_invariant(self);
            lemma_entries_map(self.entries@);
            lemma_card_of(self.entries@);
        }
        let mut r: Vec<String> = Vec::new();
        let mut i: usize = 0;
        while i < self.entries.len()
            invariant
                i <= self.entries@.len(),
                r@.len() == i,
                forall|j: int| 0 <= j < i ==> r@[j]@ == self.entries@[j].0@,
            decreases self.entries@.len() - i,
        {
            r.push(self.entries[i].0.clone());
            i = i + 1;
        }
        proof {
            assert forall|k: Seq<char>| #[trigger] self@.contains_key(k) implies exists|i: int| 0 <= i < r@.len() && r@[i]@ == k by {
                let j = choose|j: int| 0 <= j < self.entries@.len() && self.entries@[j].0@ == k;
                assert(r@[j]@ == k);
            }
        }
        r
    }

    /// Sets the value under `key`, in place if the key is present, else at the end.
    pub fn insert(&mut self, key: String, value: V)
        ensures
            final(self)@ == old(self)@.insert(key@, value),
    {
        proof {
            use_type_invariant(&*self);
            lemma_entries_map(self.entries@);
        }
        let ghost old_entries = self.entries@;
        match self.find(key.as_str()) {
            Some(i) => {
                let mut e: Vec<(String, V)> = Vec::new();
                std::mem::swap(&mut e, &mut self.entries);
                e.set(i, (key, value));
                self.entries = e;
                proof {
                    assert(distinct_keys(self.entries@));
                    lemma_entries_map(self.entries@);
                    lemma_entries_map(old_entries);
                    let nm = entries_map(self.entries@);
                    let om = entries_map(old_entries).insert(key@, value);
                    assert forall|k: Seq<char>| nm.contains_key(k) <==> om.contains_key(k) by {
                        if nm.contains_key(k) {
                            let j = choose|j: int| 0 <= j < self.entries@.len() && self.entries@[j].0@ == k;
                            if j != i {
                                assert(self.entries@[j] == old_entries[j]);
                                assert(old_entries[j].0@ == k);
                                assert(entries_map(old_entries).contains_key(k));
                            }
                        }
                        if om.contains_key(k) {
                            if k != key@ {
                                assert(entries_map(old_entries).contains_key(k));
                                let j = choose|j: int| 0 <= j < old_entries.len() && old_entries[j].0@ == k;
                                assert(self.entries@[j] == old_entries[j]);
                                assert(self.entries@[j].0@ == k);
                            } else {
                                assert(self.entries@[i as int].0@ == k);
                            }
                            assert(nm.contains_key(k));
                        }
                    }
                    assert forall|k: Seq<char>| #[trigger] nm.contains_key(k) implies nm[k] == om[k] by {
                        let j = choose|j: int| 0 <= j < self.entries@.len() && self.entries@[j].0@ == k;
                        if j != i { assert(self.entries@[j] == old_entries[j]); }
                    }
                    assert(nm =~= om);
                }
            },
            None => {
                let mut e: Vec<(String, V)> = Vec::new();
                std::mem::swap(&mut e, &mut self.entries);
                e.push((key, value));
                self.entries = e;
                proof {
                    assert(self.entries@.drop_last() =~= old_entries);
                    assert(distinct_keys(self.entries@));
                }
            },
        }
    }

    /// Removes `key`, keeping the order of the others.
    pub fn remove(&mut self, key: &str)
        ensures
            final(self)@ == old(self)@.remove(key@),
    {
        proof {
            use_type_invariant(&*self);
            lemma_entries_map(self.entries@);
        }
        let ghost old_entries = self.entries@;
        match self.find(key) {
            Some(i) => {
                let mut e: Vec<(String, V)> = Vec::new();
                std::mem::swap(&mut e, &mut self.entries);
                e.remove(i);
                self.entries = e;
                proof {
                    assert(self.entries@ =~= old_entries.remove(i as int));
                    assert(distinct_keys(self.entries@));
                    lemma_entries_map(self.entries@);
                    assert forall|k: Seq<char>| entries_map(self.entries@).contains_key(k) <==> entries_map(old_entries).remove(key@).contains_key(k) by {
                        if entries_map(old_entries).remove(key@).contains_key(k) {
                            let j = choose|j: int| 0 <= j < old_entries.len() && old_entries[j].0@ == k;
                            if j < i { assert(self.entries@[j] == old_entries[j]); }
                            else { assert(self.entries@[j - 1] == old_entries[j]); }
                        }
                    }
                    assert forall|k: Seq<char>| #[trigger] entries_map(self.entries@).contains_key(k) implies entries_map(self.entries@)[k] == entries_map(old_entries)[k] by {
                        let j = choose|j: int| 0 <= j < self.entries@.len() && self.entries@[j].0@ == k;
                        if j < i { assert(self.entries@[j] == old_entries[j]); }
                        else { assert(self.entries@[j] == old_entries[j + 1]); }
                    }
                    assert(entries_map(self.entries@) =~= entries_map(old_entries).remove(key@));
                }
            },
            None => {},
        }
    }
}

proof fn lemma_card_of<V>(s: Seq<(String, V)>)
    requires
        distinct_keys(s),
    ensures
        entries_map(s).dom().len() == s.len(),
        entries_map(s).dom().finite(),
    decreases s.len(),
{
    if s.len() > 0 {
        let p = s.drop_last();
        assert(distinct_keys(p));
        lemma_card_of(p);
        lemma_entries_map(p);
        assert(!entries_map(p).contains_key(s.last().0@));
    }
}

} // verus!

verus! {

impl TextMap<String> {
    /// A copy with the same entries.
    pub fn copy(&self) -> (r: TextMap<String>)
        ensures
            r@ == self@,
            r.entry_seq().len() == self.entry_seq().len(),
    {
        proof { use_type_invariant(self); }
        let mut e: Vec<(String, String)> = Vec::new();
        let mut i: usize = 0;
        while i < self.entries.len()
            invariant
                i <= self.entries@.len(),
                e@.len() == i,
                forall|j: int| 0 <= j < i ==> e@[j] == self.entries@[j],
            decreases self.entries@.len() - i,
        {
            let k = self.entries[i].0.clone();
            let v = self.entries[i].1.clone();
            e.push((k, v));
            i = i + 1;
        }
        assert(e@ =~= self.entries@);
        TextMap { entries: e }
    }

    /// Sets each entry of `other` here, later entries winning.
    pub fn extend(&mut self, other: TextMap<String>)
        ensures
            final(self)@ == old(self)@.union_prefer_right(other@),
    {
        proof {
            use_type_invariant(&other);
            lemma_entries_map(other.entries@);
        }
        let mut i: usize = 0;
        let n = other.entries.len();
        while i < n
            invariant
                n == other.entries@.len(),
                i <= n,
                distinct_keys(other.entries@),
                self@ == old(self)@.union_prefer_right(entries_map(other.entries@.subrange(0, i as int))),
            decreases n - i,
        {
            let k = other.entries[i].0.clone();
            let v = other.entries[i].1.clone();
            proof {
                let s = other.entries@.subrange(0, i as int + 1);
                assert(s.drop_last() =~= other.entries@.subrange(0, i as int));
            }
            self.insert(k, v);
            proof {
                let s = other.entries@.subrange(0, i as int + 1);
                assert(self@ =~= old(self)@.union_prefer_right(entries_map(s)));
            }
            i = i + 1;
        }
        assert(other.entries@.subrange(0, n as int) =~= other.entries@);
    }
}

} // verus!
