//! A string-keyed map with string values, stored as an association list
//! with unique keys and viewed in specifications as a `Map<Seq<char>, Seq<char>>`.

use vstd::prelude::*;

verus! {

/// A map from header or attribute names to their values.
///
/// Entries keep their insertion order; inserting an existing key replaces
/// its value in place.
pub struct StrMap {
    entries: Vec<(String, String)>,
}

/// The map described by an entry list: entries are added left to right,
/// so a later entry with the same key wins.
pub open spec fn entries_map(es: Seq<(String, String)>) -> Map<Seq<char>, Seq<char>>
    decreases es.len(),
{
    if es.len() == 0 {
        Map::<Seq<char>, Seq<char>>::empty()
    } else {
        entries_map(es.drop_last()).insert(es.last().0@, es.last().1@)
    }
}

impl View for StrMap {
    type V = Map<Seq<char>, Seq<char>>;

    closed spec fn view(&self) -> Map<Seq<char>, Seq<char>> {
        entries_map(self.entries@)
    }
}

pub open spec fn unique_keys(es: Seq<(String, String)>) -> bool {
    forall|i: int, j: int|
        0 <= i < j < es.len() ==> es[i].0@ != es[j].0@
}

proof fn lemma_entries_map_contains(es: Seq<(String, String)>, k: Seq<char>)
    ensures
        entries_map(es).contains_key(k) <==> exists|i: int| 0 <= i < es.len() && es[i].0@ == k,
    decreases es.len(),
{
    if es.len() > 0 {
        lemma_entries_map_contains(es.drop_last(), k);
        if es.last().0@ == k {
            assert(es[es.len() - 1].0@ == k);
        } else {
            if exists|i: int| 0 <= i < es.len() && es[i].0@ == k {
                let i = choose|i: int| 0 <= i < es.len() && es[i].0@ == k;
                assert(es.drop_last()[i].0@ == k);
            }
        }
    }
}

proof fn lemma_entries_map_at(es: Seq<(String, String)>, i: int)
    requires
        0 <= i < es.len(),
        unique_keys(es),
    ensures
        entries_map(es).contains_key(es[i].0@),
        entries_map(es)[es[i].0@] == es[i].1@,
    decreases es.len(),
{
    if i < es.len() - 1 {
        assert(unique_keys(es.drop_last()));
        lemma_entries_map_at(es.drop_last(), i);
        assert(es[i].0@ != es.last().0@);
    }
}

proof fn lemma_entries_map_dom_len(es: Seq<(String, String)>)
    requires
        unique_keys(es),
    ensures
        entries_map(es).dom().finite(),
        entries_map(es).dom().len() == es.len(),
    decreases es.len(),
{
    broadcast use vstd::set::axiom_set_insert_len;

    if es.len() == 0 {
        assert(entries_map(es).dom() =~= Set::<Seq<char>>::empty());
    } else {
        assert(unique_keys(es.drop_last()));
        lemma_entries_map_dom_len(es.drop_last());
        lemma_entries_map_contains(es.drop_last(), es.last().0@);
        if entries_map(es.drop_last()).contains_key(es.last().0@) {
            let i = choose|i: int|
                0 <= i < es.drop_last().len() && es.drop_last()[i].0@ == es.last().0@;
            assert(es[i].0@ == es[es.len() - 1].0@);
            assert(false);
        }
        assert(entries_map(es).dom() =~= entries_map(es.drop_last()).dom().insert(es.last().0@));
    }
}

proof fn lemma_entries_map_update(es: Seq<(String, String)>, i: int, p: (String, String))
    requires
        0 <= i < es.len(),
        unique_keys(es),
        p.0@ == es[i].0@,
    ensures
        entries_map(es.update(i, p)) == entries_map(es).insert(p.0@, p.1@),
    decreases es.len(),
{
    let es2 = es.update(i, p);
    if i == es.len() - 1 {
        assert(es2.drop_last() =~= es.drop_last());
        assert(es2.last() == p);
        assert(entries_map(es.drop_last()).insert(p.0@, p.1@)
            =~= entries_map(es.drop_last()).insert(es.last().0@, es.last().1@).insert(p.0@, p.1@));
    } else {
        assert(unique_keys(es.drop_last()));
        assert(es2.drop_last() =~= es.drop_last().update(i, p));
        lemma_entries_map_update(es.drop_last(), i, p);
        assert(es2.last() == es.last());
        assert(p.0@ != es.last().0@);
        assert(entries_map(es.drop_last()).insert(p.0@, p.1@).insert(es.last().0@, es.last().1@)
            =~= entries_map(es.drop_last()).insert(es.last().0@, es.last().1@).insert(p.0@, p.1@));
    }
}

impl StrMap {
    /// Whether the entry list holds no two entries with the same key.
    pub closed spec fn wf(&self) -> bool {
        unique_keys(self.entries@)
    }

    /// The entries as (key, value) character sequences, in storage order.
    pub closed spec fn pairs(&self) -> Seq<(Seq<char>, Seq<char>)> {
        self.entries@.map_values(|e: (String, String)| (e.0@, e.1@))
    }

    /// An empty map.
    pub fn new() -> (r: StrMap)
        ensures
            r.wf(),
            r@ == Map::<Seq<char>, Seq<char>>::empty(),
            r.pairs() == Seq::<(Seq<char>, Seq<char>)>::empty(),
    {
        let r = StrMap { entries: Vec::new() };
        proof {
            assert(r.pairs() =~= Seq::<(Seq<char>, Seq<char>)>::empty());
        }
        r
    }

    /// Insert a key/value pair; an existing entry with the same key is replaced.
    pub fn insert(self, key: String, value: String) -> (r: StrMap)
        requires
            self.wf(),
        ensures
            r.wf(),
            r@ == self@.insert(key@, value@),
    {
        let ghost orig = self.entries@;
        let mut m = self;
        let n = m.entries.len();
        let mut i: usize = 0;
        while i < n
            invariant
                m.entries@ == orig,
                n == orig.len(),
                i <= n,
                unique_keys(orig),
                forall|j: int| 0 <= j < i ==> orig[j].0@ != key@,
            decreases n - i,
        {
            if crate::strutil::str_eq(m.entries[i].0.as_str(), key.as_str()) {
                let ghost p = (key, value);
                proof {
                    lemma_entries_map_update(orig, i as int, p);
                }
                let _old = m.entries.remove(i);
                m.entries.insert(i, (key, value));
                proof {
                    assert(m.entries@ =~= orig.update(i as int, p));
                    assert(forall|a: int, b: int|
                        0 <= a < b < m.entries@.len() ==> m.entries@[a].0@ != m.entries@[b].0@);
                }
                return m;
            }
            i += 1;
        }
        m.entries.push((key, value));
        proof {
            assert(m.entries@.drop_last() =~= orig);
            assert(forall|a: int, b: int|
                0 <= a < b < m.entries@.len() ==> m.entries@[a].0@ != m.entries@[b].0@);
        }
        m
    }

    /// Look a key up.
    pub fn get<'a>(&'a self, key: &str) -> (r: Option<&'a String>)
        requires
            self.wf(),
        ensures
            match r {
                Some(v) => self@.contains_key(key@) && self@[key@] == v@,
                None => !self@.contains_key(key@),
            },
    {
        let n = self.entries.len();
        let mut i: usize = 0;
        while i < n
            invariant
                n == self.entries@.len(),
                i <= n,
                self.wf(),
                forall|j: int| 0 <= j < i ==> self.entries@[j].0@ != key@,
            decreases n - i,
        {
            if crate::strutil::str_eq(self.entries[i].0.as_str(), key) {
                proof {
                    lemma_entries_map_at(self.entries@, i as int);
                }
                return Some(&self.entries[i].1);
            }
            i += 1;
        }
        proof {
            lemma_entries_map_contains(self.entries@, key@);
        }
        None
    }

    /// The number of entries.
    pub fn len(&self) -> (n: usize)
        ensures
            n == self.pairs().len(),
            self.wf() ==> n == self@.dom().len(),
    {
        proof {
            if self.wf() {
                lemma_entries_map_dom_len(self.entries@);
            }
        }
        self.entries.len()
    }

    /// Whether the map holds no entry.
    pub fn is_empty(&self) -> (r: bool)
        requires
            self.wf(),
        ensures
            r == (self@.dom().len() == 0),
            r == (self.pairs().len() == 0),
    {
        proof {
            lemma_entries_map_dom_len(self.entries@);
        }
        self.entries.len() == 0
    }

    /// The entry at a storage position.
    pub fn pair_at<'a>(&'a self, i: usize) -> (r: (&'a String, &'a String))
        requires
            i < self.pairs().len(),
        ensures
            (r.0@, r.1@) == self.pairs()[i as int],
            self.wf() ==> self@.contains_pair(r.0@, r.1@),
    {
        proof {
            if self.wf() {
                lemma_entries_map_at(self.entries@, i as int);
            }
        }
        (&self.entries[i].0, &self.entries[i].1)
    }

    /// An independent copy of the map.
    pub fn duplicate(&self) -> (r: StrMap)
        ensures
            r@ == self@,
            r.pairs() == self.pairs(),
            r.wf() == self.wf(),
    {
        let mut es: Vec<(String, String)> = Vec::new();
        let n = self.entries.len();
        let mut i: usize = 0;
        while i < n
            invariant
                i <= n,
                n == self.entries@.len(),
                es@ == self.entries@.take(i as int),
            decreases n - i,
        {
            es.push((self.entries[i].0.clone(), self.entries[i].1.clone()));
            proof {
                assert(es@ =~= self.entries@.take(i + 1));
            }
            i += 1;
        }
        proof {
            assert(self.entries@.take(n as int) =~= self.entries@);
        }
        let r = StrMap { entries: es };
        r
    }

    /// Build a map from a pair list; a later pair with the same key wins.
    pub fn from_pairs(pairs: Vec<(String, String)>) -> (r: StrMap)
        ensures
            r.wf(),
            r@ == entries_map(pairs@),
    {
        let mut m = StrMap::new();
        let n = pairs.len();
        let mut i: usize = 0;
        while i < n
            invariant
                n == pairs@.len(),
                i <= n,
                m.wf(),
                m@ == entries_map(pairs@.take(i as int)),
            decreases n - i,
        {
            let key = pairs[i].0.clone();
            let value = pairs[i].1.clone();
            m = m.insert(key, value);
            proof {
                assert(pairs@.take(i + 1).drop_last() =~= pairs@.take(i as int));
                assert(pairs@.take(i + 1).last() == pairs@[i as int]);
            }
            i += 1;
        }
        proof {
            assert(pairs@.take(n as int) =~= pairs@);
        }
        m
    }

    /// Add every entry of `other`; on a shared key the entry of `other` wins.
    pub fn extend(self, other: &StrMap) -> (r: StrMap)
        requires
            self.wf(),
            other.wf(),
        ensures
            r.wf(),
            r@ == self@.union_prefer_right(other@),
    {
        let ghost base = self@;
        let mut m = self;
        let n = other.entries.len();
        let mut i: usize = 0;
        proof {
            assert(entries_map(other.entries@.take(0)) =~= Map::<Seq<char>, Seq<char>>::empty());
            assert(base.union_prefer_right(entries_map(other.entries@.take(0))) =~= base);
        }
        while i < n
            invariant
                n == other.entries@.len(),
                i <= n,
                m.wf(),
                unique_keys(other.entries@),
                m@ == base.union_prefer_right(entries_map(other.entries@.take(i as int))),
            decreases n - i,
        {
            let key = other.entries[i].0.clone();
            let value = other.entries[i].1.clone();
            let ghost before = m@;
            m = m.insert(key, value);
            proof {
                let es = other.entries@;
                assert(es.take(i + 1).drop_last() =~= es.take(i as int));
                assert(es.take(i + 1).last() == es[i as int]);
                assert(base.union_prefer_right(entries_map(es.take(i as int)).insert(es[i as int].0@, es[i as int].1@))
                    =~= before.insert(es[i as int].0@, es[i as int].1@));
            }
            i += 1;
        }
        proof {
            assert(other.entries@.take(n as int) =~= other.entries@);
        }
        m
    }
}

} // verus!
