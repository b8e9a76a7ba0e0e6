//! A map from text keys to values, kept as a list of entries in which no
//! key occurs twice.
use vstd::prelude::*;
use crate::text::str_eq;

verus! {

/// Whether no key occurs twice among `s`.
pub open spec fn unique_keys<V>(s: Seq<(String, V)>) -> bool {
    forall|i: int, j: int|
        0 <= i < s.len() && 0 <= j < s.len() && i != j ==> (#[trigger] s[i]).0@ != (#[trigger] s[j]).0@
}

/// Whether some entry of `s` has the key `k`.
pub open spec fn has_key<V>(s: Seq<(String, V)>, k: Seq<char>) -> bool {
    exists|i: int| 0 <= i < s.len() && (#[trigger] s[i]).0@ == k
}

/// The value of the entry of `s` with key `k`.
pub open spec fn value_at<V: View>(s: Seq<(String, V)>, k: Seq<char>) -> V::V {
    s[choose|i: int| 0 <= i < s.len() && (#[trigger] s[i]).0@ == k].1@
}

/// The map that a list of entries with unique keys stands for.
pub open spec fn entries_map<V: View>(s: Seq<(String, V)>) -> Map<Seq<char>, V::V> {
    Map::new(|k: Seq<char>| has_key(s, k), |k: Seq<char>| value_at(s, k))
}

/// The keys of a list of entries.
pub open spec fn entry_keys<V>(s: Seq<(String, V)>) -> Set<Seq<char>> {
    Set::new(|k: Seq<char>| has_key(s, k))
}

/// With unique keys, the entry at `i` is the one that its key finds.
pub proof fn lemma_value_at<V: View>(s: Seq<(String, V)>, i: int)
    requires
        unique_keys(s),
        0 <= i < s.len(),
    ensures
        has_key(s, s[i].0@),
        value_at(s, s[i].0@) == s[i].1@,
{
    let k = s[i].0@;
    assert(has_key(s, k));
    let j = choose|j: int| 0 <= j < s.len() && (#[trigger] s[j]).0@ == k;
    assert(s[j].0@ == k);
    if j != i {
        assert(s[i].0@ != s[j].0@);
    }
}

/// Replacing the value of an existing key.
pub proof fn lemma_update<V: View>(s: Seq<(String, V)>, i: int, e: (String, V))
    requires
        unique_keys(s),
        0 <= i < s.len(),
        s[i].0@ == e.0@,
    ensures
        unique_keys(s.update(i, e)),
        entries_map(s.update(i, e)) == entries_map(s).insert(e.0@, e.1@),
        entry_keys(s.update(i, e)) == entry_keys(s),
{
    let t = s.update(i, e);
    assert forall|a: int, b: int|
        0 <= a < t.len() && 0 <= b < t.len() && a != b implies (#[trigger] t[a]).0@ != (
        #[trigger] t[b]).0@ by {
        assert(t[a].0@ == s[a].0@);
        assert(t[b].0@ == s[b].0@);
        assert(s[a].0@ != s[b].0@);
    }
    assert forall|k: Seq<char>| #[trigger] has_key(t, k) == has_key(s, k) by {
        if has_key(s, k) {
            let j = choose|j: int| 0 <= j < s.len() && (#[trigger] s[j]).0@ == k;
            assert(t[j].0@ == k);
        }
        if has_key(t, k) {
            let j = choose|j: int| 0 <= j < t.len() && (#[trigger] t[j]).0@ == k;
            assert(s[j].0@ == k);
        }
    }
    assert forall|k: Seq<char>| has_key(t, k) implies #[trigger] value_at(t, k) == (if k == e.0@ {
        e.1@
    } else {
        value_at(s, k)
    }) by {
        let j = choose|j: int| 0 <= j < t.len() && (#[trigger] t[j]).0@ == k;
        lemma_value_at(t, j);
        if k != e.0@ {
            assert(j != i);
            lemma_value_at(s, j);
        }
    }
    lemma_value_at(t, i);
    assert(entries_map(t) =~= entries_map(s).insert(e.0@, e.1@));
    assert(entry_keys(t) =~= entry_keys(s));
}

/// Adding an entry with a new key.
pub proof fn lemma_push<V: View>(s: Seq<(String, V)>, e: (String, V))
    requires
        unique_keys(s),
        !has_key(s, e.0@),
    ensures
        unique_keys(s.push(e)),
        entries_map(s.push(e)) == entries_map(s).insert(e.0@, e.1@),
        entry_keys(s.push(e)) == entry_keys(s).insert(e.0@),
{
    let t = s.push(e);
    assert forall|a: int, b: int|
        0 <= a < t.len() && 0 <= b < t.len() && a != b implies (#[trigger] t[a]).0@ != (
        #[trigger] t[b]).0@ by {
        if a < s.len() && b < s.len() {
            assert(s[a].0@ != s[b].0@);
        } else if a < s.len() {
            assert(t[a] == s[a]);
        } else {
            assert(t[b] == s[b]);
        }
    }
    assert forall|k: Seq<char>| #[trigger] has_key(t, k) == (has_key(s, k) || k == e.0@) by {
        if has_key(s, k) {
            let j = choose|j: int| 0 <= j < s.len() && (#[trigger] s[j]).0@ == k;
            assert(t[j].0@ == k);
        }
        if k == e.0@ {
            assert(t[s.len() as int].0@ == k);
        }
        if has_key(t, k) && k != e.0@ {
            let j = choose|j: int| 0 <= j < t.len() && (#[trigger] t[j]).0@ == k;
            assert(j < s.len());
            assert(s[j].0@ == k);
        }
    }
    assert forall|k: Seq<char>| has_key(t, k) implies #[trigger] value_at(t, k) == (if k == e.0@ {
        e.1@
    } else {
        value_at(s, k)
    }) by {
        let j = choose|j: int| 0 <= j < t.len() && (#[trigger] t[j]).0@ == k;
        lemma_value_at(t, j);
        if k != e.0@ {
            assert(j < s.len());
            assert(t[j] == s[j]);
            lemma_value_at(s, j);
        }
    }
    assert(entries_map(t) =~= entries_map(s).insert(e.0@, e.1@));
    assert(entry_keys(t) =~= entry_keys(s).insert(e.0@));
}

/// With unique keys there are as many keys as entries.
pub proof fn lemma_key_count<V>(s: Seq<(String, V)>)
    requires
        unique_keys(s),
    ensures
        entry_keys(s).finite(),
        entry_keys(s).len() == s.len(),
    decreases s.len(),
{
    if s.len() == 0 {
        assert(entry_keys(s) =~= Set::<Seq<char>>::empty());
    } else {
        let p = s.drop_last();
        assert forall|a: int, b: int|
            0 <= a < p.len() && 0 <= b < p.len() && a != b implies (#[trigger] p[a]).0@ != (
            #[trigger] p[b]).0@ by {
            assert(p[a] == s[a]);
            assert(p[b] == s[b]);
        }
        lemma_key_count(p);
        assert(!has_key(p, s.last().0@)) by {
            if has_key(p, s.last().0@) {
                let j = choose|j: int| 0 <= j < p.len() && (#[trigger] p[j]).0@ == s.last().0@;
                assert(s[j].0@ == s[s.len() - 1].0@);
            }
        }
        assert forall|k: Seq<char>| #[trigger] has_key(s, k) == (has_key(p, k) || k == s.last().0@) by {
            if has_key(p, k) {
                let j = choose|j: int| 0 <= j < p.len() && (#[trigger] p[j]).0@ == k;
                assert(s[j].0@ == k);
            }
            if k == s.last().0@ {
                assert(s[s.len() - 1].0@ == k);
            }
            if has_key(s, k) && k != s.last().0@ {
                let j = choose|j: int| 0 <= j < s.len() && (#[trigger] s[j]).0@ == k;
                assert(j < p.len());
                assert(p[j].0@ == k);
            }
        }
        assert(entry_keys(s) =~= entry_keys(p).insert(s.last().0@));
    }
}

/// Removing the entry at `i`.
pub proof fn lemma_remove<V: View>(s: Seq<(String, V)>, i: int)
    requires
        unique_keys(s),
        0 <= i < s.len(),
    ensures
        unique_keys(s.remove(i)),
        entries_map(s.remove(i)) == entries_map(s).remove(s[i].0@),
{
    let t = s.remove(i);
    let k0 = s[i].0@;
    assert forall|a: int, b: int|
        0 <= a < t.len() && 0 <= b < t.len() && a != b implies (#[trigger] t[a]).0@ != (
        #[trigger] t[b]).0@ by {
        let sa = if a < i { a } else { a + 1 };
        let sb = if b < i { b } else { b + 1 };
        assert(t[a] == s[sa] && t[b] == s[sb]);
    }
    assert forall|k: Seq<char>| #[trigger] has_key(t, k) == (has_key(s, k) && k != k0) by {
        if has_key(t, k) {
            let j = choose|j: int| 0 <= j < t.len() && (#[trigger] t[j]).0@ == k;
            let sj = if j < i { j } else { j + 1 };
            assert(t[j] == s[sj]);
            assert(sj != i);
            assert(s[sj].0@ != s[i].0@);
        }
        if has_key(s, k) && k != k0 {
            let j = choose|j: int| 0 <= j < s.len() && (#[trigger] s[j]).0@ == k;
            assert(j != i);
            let tj = if j < i { j } else { j - 1 };
            assert(t[tj] == s[j]);
        }
    }
    assert forall|k: Seq<char>| has_key(t, k) implies #[trigger] value_at(t, k) == value_at(s, k) by {
        let j = choose|j: int| 0 <= j < t.len() && (#[trigger] t[j]).0@ == k;
        lemma_value_at(t, j);
        let sj = if j < i { j } else { j + 1 };
        assert(t[j] == s[sj]);
        lemma_value_at(s, sj);
    }
    assert(entries_map(t) =~= entries_map(s).remove(k0));
}

/// A map from text keys to values.
#[derive(Debug)]
pub struct Store<V: View> {
    entries: Vec<(String, V)>,
}

impl<V: View> View for Store<V> {
    type V = Map<Seq<char>, V::V>;

    closed spec fn view(&self) -> Map<Seq<char>, V::V> {
        entries_map(self.entries@)
    }
}

impl<V: View> Store<V> {
    #[verifier::type_invariant]
    closed spec fn keys_are_unique(self) -> bool {
        unique_keys(self.entries@)
    }

    /// An empty map.
    pub fn new() -> (r: Self)
        ensures
            r@ == Map::<Seq<char>, V::V>::empty(),
    {
        let r = Store { entries: Vec::new() };
        assert(r@ =~= Map::<Seq<char>, V::V>::empty());
        r
    }

    fn position(&self, key: &str) -> (r: Option<usize>)
        ensures
            match r {
                Some(i) => i < self.entries@.len() && self.entries@[i as int].0@ == key@,
                None => !has_key(self.entries@, key@),
            },
    {
        let mut i: usize = 0;
        while i < self.entries.len()
            invariant
                i <= self.entries.len(),
                forall|j: int| 0 <= j < i ==> (#[trigger] self.entries@[j]).0@ != key@,
            decreases self.entries.len() - i,
        {
            if str_eq(self.entries[i].0.as_str(), key) {
                return Some(i);
            }
            i = i + 1;
        }
        None
    }

    /// Whether `key` has a value.
    pub fn contains_key(&self, key: &str) -> (r: bool)
        ensures
            r == self@.contains_key(key@),
    {
        self.position(key).is_some()
    }

    /// The value of `key`.
    pub fn get(&self, key: &str) -> (r: Option<&V>)
        ensures
            match r {
                Some(v) => self@.contains_key(key@) && self@[key@] == v@,
                None => !self@.contains_key(key@),
            },
    {
        proof {
            use_type_invariant(self);
        }
        match self.position(key) {
            Some(i) => {
                proof {
                    lemma_value_at(self.entries@, i as int);
                }
                Some(&self.entries[i].1)
            },
            None => None,
        }
    }

    /// Set the value of `key`, replacing any value it had.
    pub fn insert(&mut self, key: String, value: V)
        ensures
            final(self)@ == old(self)@.insert(key@, value@),
    {
        proof {
            use_type_invariant(&*self);
        }
        let pos = self.position(key.as_str());
        let mut entries: Vec<(String, V)> = Vec::new();
        std::mem::swap(&mut entries, &mut self.entries);
        let ghost s = entries@;
        let e = (key, value);
        match pos {
            Some(i) => {
                proof {
                    lemma_update(s, i as int, e);
                }
                entries.set(i, e);
            },
            None => {
                proof {
                    lemma_push(s, e);
                }
                entries.push(e);
            },
        }
        self.entries = entries;
    }

    /// Set the value of `key` and hand back the value it had.
    pub fn replace(&mut self, key: String, value: V) -> (r: Option<V>)
        ensures
            final(self)@ == old(self)@.insert(key@, value@),
            match r {
                Some(v) => old(self)@.contains_key(key@) && old(self)@[key@] == v@,
                None => !old(self)@.contains_key(key@),
            },
    {
        proof {
            use_type_invariant(&*self);
        }
        let pos = self.position(key.as_str());
        let mut entries: Vec<(String, V)> = Vec::new();
        std::mem::swap(&mut entries, &mut self.entries);
        let ghost s = entries@;
        let ghost k = key@;
        let e = (key, value);
        match pos {
            Some(i) => {
                proof {
                    lemma_update(s, i as int, e);
                    lemma_value_at(s, i as int);
                }
                let (_, previous) = entries.remove(i);
                entries.insert(i, e);
                assert(entries@ =~= s.update(i as int, e));
                self.entries = entries;
                Some(previous)
            },
            None => {
                proof {
                    lemma_push(s, e);
                }
                entries.push(e);
                self.entries = entries;
                None
            },
        }
    }

    /// Remove `key` and hand back the value it had.
    pub fn remove(&mut self, key: &str) -> (r: Option<V>)
        ensures
            final(self)@ == old(self)@.remove(key@),
            match r {
                Some(v) => old(self)@.contains_key(key@) && old(self)@[key@] == v@,
                None => !old(self)@.contains_key(key@),
            },
    {
        proof {
            use_type_invariant(&*self);
        }
        match self.position(key) {
            Some(i) => {
                let mut entries: Vec<(String, V)> = Vec::new();
                std::mem::swap(&mut entries, &mut self.entries);
                let ghost s = entries@;
                proof {
                    lemma_value_at(s, i as int);
                    lemma_remove(s, i as int);
                }
                let (_, v) = entries.remove(i);
                self.entries = entries;
                Some(v)
            },
            None => {
                proof {
                    assert(!self@.contains_key(key@));
                    assert(self@.remove(key@) =~= self@);
                }
                None
            },
        }
    }

    /// The entries, each key once.
    pub fn entries(&self) -> (r: &Vec<(String, V)>)
        ensures
            unique_keys(r@),
            entries_map(r@) == self@,
    {
        proof {
            use_type_invariant(self);
        }
        &self.entries
    }

    /// The number of keys.
    pub fn len(&self) -> (r: usize)
        ensures
            r == self@.dom().len(),
    {
        proof {
            use_type_invariant(self);
            lemma_key_count(self.entries@);
            assert(self@.dom() =~= entry_keys(self.entries@));
        }
        self.entries.len()
    }

    /// Whether there is no key.
    pub fn is_empty(&self) -> (r: bool)
        ensures
            r == (self@.dom().len() == 0),
    {
        self.len() == 0
    }
}

/// The entries among the first `i` of `s` stand for the map of those
/// entries and the `i`-th.
pub proof fn lemma_entries_prefix<V: View>(s: Seq<(String, V)>, i: int)
    requires
        unique_keys(s),
        0 <= i < s.len(),
    ensures
        unique_keys(s.take(i)),
        entries_map(s.take(i + 1)) == entries_map(s.take(i)).insert(s[i].0@, s[i].1@),
{
    let p = s.take(i);
    assert forall|a: int, b: int|
        0 <= a < p.len() && 0 <= b < p.len() && a != b implies (#[trigger] p[a]).0@ != (
        #[trigger] p[b]).0@ by {
        assert(p[a] == s[a] && p[b] == s[b]);
    }
    if has_key(p, s[i].0@) {
        let j = choose|j: int| 0 <= j < p.len() && (#[trigger] p[j]).0@ == s[i].0@;
        assert(p[j] == s[j]);
    }
    lemma_push(p, s[i]);
    assert(s.take(i + 1) =~= p.push(s[i]));
}

/// Add the entries of `other` to `target`, its values winning over those
/// `target` had (what `HashMap::extend` does).
pub fn extend_with(target: &mut Store<String>, other: &Store<String>)
    ensures
        final(target)@ == old(target)@.union_prefer_right(other@),
{
    let es = other.entries();
    let ghost t0 = target@;
    let mut i: usize = 0;
    assert(es@.take(0) =~= Seq::<(String, String)>::empty());
    assert(t0.union_prefer_right(entries_map(es@.take(0))) =~= t0);
    while i < es.len()
        invariant
            i <= es.len(),
            unique_keys(es@),
            entries_map(es@) == other@,
            target@ == t0.union_prefer_right(entries_map(es@.take(i as int))),
        decreases es.len() - i,
    {
        proof {
            lemma_entries_prefix(es@, i as int);
        }
        let (k, v) = &es[i];
        target.insert(k.clone(), v.clone());
        proof {
            assert(target@ =~= t0.union_prefer_right(entries_map(es@.take(i as int + 1))));
        }
        i = i + 1;
    }
    assert(es@.take(es@.len() as int) =~= es@);
}

/// Add the entries of `other` whose keys `target` lacks (what
/// `entry(..).or_insert(..)` does for each of them).
pub fn insert_missing(target: &mut Store<String>, other: &Store<String>)
    ensures
        final(target)@ == other@.union_prefer_right(old(target)@),
{
    let es = other.entries();
    let ghost t0 = target@;
    let mut i: usize = 0;
    assert(es@.take(0) =~= Seq::<(String, String)>::empty());
    assert(entries_map(es@.take(0)).union_prefer_right(t0) =~= t0);
    while i < es.len()
        invariant
            i <= es.len(),
            unique_keys(es@),
            entries_map(es@) == other@,
            target@ == entries_map(es@.take(i as int)).union_prefer_right(t0),
        decreases es.len() - i,
    {
        proof {
            lemma_entries_prefix(es@, i as int);
        }
        let (k, v) = &es[i];
        if !target.contains_key(k.as_str()) {
            target.insert(k.clone(), v.clone());
        }
        proof {
            assert(target@ =~= entries_map(es@.take(i as int + 1)).union_prefer_right(t0));
        }
        i = i + 1;
    }
    assert(es@.take(es@.len() as int) =~= es@);
}

} // verus!
