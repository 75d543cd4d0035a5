//! A collection of values keyed by name, viewed as a map from names to
//! values.
use vstd::prelude::*;

verus! {

/// The map that a list of named values stands for: a later entry of a name
/// hides an earlier one.
pub open spec fn map_of<V>(s: Seq<(String, V)>) -> Map<Seq<char>, V>
    decreases s.len(),
{
    if s.len() == 0 {
        Map::empty()
    } else {
        map_of(s.drop_last()).insert(s.last().0@, s.last().1)
    }
}

/// No name occurs twice.
pub open spec fn unique_names<V>(s: Seq<(String, V)>) -> bool {
    forall|i: int, j: int| 0 <= i < j < s.len() ==> s[i].0@ != s[j].0@
}

proof fn lemma_map_of_finite<V>(s: Seq<(String, V)>)
    ensures
        map_of(s).dom().finite(),
    decreases s.len(),
{
    if s.len() > 0 {
        lemma_map_of_finite(s.drop_last());
    }
}

proof fn lemma_map_of_dom<V>(s: Seq<(String, V)>, k: Seq<char>)
    ensures
        map_of(s).contains_key(k) <==> exists|i: int| 0 <= i < s.len() && s[i].0@ == k,
    decreases s.len(),
{
    if s.len() > 0 {
        let t = s.drop_last();
        lemma_map_of_dom(t, k);
        if map_of(s).contains_key(k) && s.last().0@ != k {
            let i = choose|i: int| 0 <= i < t.len() && t[i].0@ == k;
            assert(s[i] == t[i]);
        }
        if exists|i: int| 0 <= i < s.len() && s[i].0@ == k {
            let i = choose|i: int| 0 <= i < s.len() && s[i].0@ == k;
            if i < s.len() - 1 {
                assert(t[i] == s[i]);
            }
        }
    }
}

proof fn lemma_map_of_value<V>(s: Seq<(String, V)>, i: int)
    requires
        0 <= i < s.len(),
        unique_names(s),
    ensures
        map_of(s).contains_key(s[i].0@),
        map_of(s)[s[i].0@] == s[i].1,
    decreases s.len(),
{
    let t = s.drop_last();
    if i < s.len() - 1 {
        assert(t[i] == s[i]);
        lemma_map_of_value(t, i);
    }
}

proof fn lemma_map_of_update<V>(s: Seq<(String, V)>, i: int, e: (String, V))
    requires
        0 <= i < s.len(),
        unique_names(s),
        e.0@ == s[i].0@,
    ensures
        map_of(s.update(i, e)) == map_of(s).insert(e.0@, e.1),
        unique_names(s.update(i, e)),
    decreases s.len(),
{
    let t = s.drop_last();
    let u = s.update(i, e);
    if i == s.len() - 1 {
        assert(u.drop_last() =~= t);
        assert(map_of(u) =~= map_of(s).insert(e.0@, e.1));
    } else {
        assert(u.drop_last() =~= t.update(i, e));
        lemma_map_of_update(t, i, e);
        assert(s.last().0@ != e.0@);
        assert(map_of(u) =~= map_of(s).insert(e.0@, e.1));
    }
}

proof fn lemma_map_of_remove<V>(s: Seq<(String, V)>, i: int)
    requires
        0 <= i < s.len(),
        unique_names(s),
    ensures
        map_of(s.remove(i)) == map_of(s).remove(s[i].0@),
        unique_names(s.remove(i)),
    decreases s.len(),
{
    let k = s[i].0@;
    let t = s.drop_last();
    let r = s.remove(i);
    assert forall|a: int, b: int| 0 <= a < b < r.len() implies r[a].0@ != r[b].0@ by {
        let a2 = if a < i { a } else { a + 1 };
        let b2 = if b < i { b } else { b + 1 };
        assert(r[a] == s[a2]);
        assert(r[b] == s[b2]);
    }
    if i == s.len() - 1 {
        assert(r =~= t);
        if map_of(t).contains_key(k) {
            lemma_map_of_dom(t, k);
            let j = choose|j: int| 0 <= j < t.len() && t[j].0@ == k;
            assert(s[j] == t[j]);
        }
        assert(map_of(r) =~= map_of(s).remove(k));
    } else {
        assert(r.drop_last() =~= t.remove(i));
        assert(r.last() == s.last());
        assert(t[i] == s[i]);
        lemma_map_of_remove(t, i);
        assert(s.last().0@ != k);
        assert(map_of(r) =~= map_of(s).remove(k));
    }
}

/// Values keyed by name, each name at most once.
#[derive(Debug)]
pub struct NamedEntries<V> {
    items: Vec<(String, V)>,
}

impl<V> View for NamedEntries<V> {
    type V = Map<Seq<char>, V>;

    closed spec fn view(&self) -> Map<Seq<char>, V> {
        map_of(self.items@)
    }
}

impl<V> NamedEntries<V> {
    /// No name is bound twice.
    pub closed spec fn wf(&self) -> bool {
        unique_names(self.items@)
    }

    pub fn new() -> (r: Self)
        ensures
            r.wf(),
            r@ == Map::<Seq<char>, V>::empty(),
    {
        NamedEntries { items: Vec::new() }
    }

    /// The values of `items` keyed by their names; where a name occurs twice
    /// the later value is kept.
    pub fn from_items(items: Vec<(String, V)>) -> (r: Self)
        ensures
            r.wf(),
            r@ == map_of(items@),
    {
        let ghost all = items@;
        let n = items.len();
        let mut rest = items;
        let mut r = NamedEntries::new();
        let mut done: usize = 0;
        while rest.len() > 0
            invariant
                all.len() == n,
                done + rest.len() == n,
                rest@ == all.subrange(done as int, n as int),
                r.wf(),
                r@ == map_of(all.subrange(0, done as int)),
            decreases rest.len(),
        {
            let (name, value) = rest.remove(0);
            proof {
                assert(rest@ =~= all.subrange(done + 1, n as int));
                assert(all.subrange(0, done + 1).drop_last() =~= all.subrange(0, done as int));
            }
            r.insert(name, value);
            done = done + 1;
        }
        proof {
            assert(all.subrange(0, n as int) =~= all);
        }
        r
    }

    /// The entries, each name once, in no particular order.
    pub fn entries(&self) -> (r: &Vec<(String, V)>)
        requires
            self.wf(),
        ensures
            unique_names(r@),
            map_of(r@) == self@,
    {
        &self.items
    }

    /// The position of `name`, if it is present.
    fn find(&self, name: &str) -> (r: Option<usize>)
        requires
            self.wf(),
        ensures
            match r {
                Some(i) => i < self.items@.len() && self.items@[i as int].0@ == name@,
                None => forall|j: int| 0 <= j < self.items@.len() ==> self.items@[j].0@ != name@,
            },
    {
        let wanted = String::from_str(name);
        let mut i: usize = 0;
        while i < self.items.len()
            invariant
                i <= self.items@.len(),
                wanted@ == name@,
                forall|j: int| 0 <= j < i ==> self.items@[j].0@ != name@,
            decreases self.items@.len() - i,
        {
            if self.items[i].0 == wanted {
                return Some(i);
            }
            i = i + 1;
        }
        None
    }

    /// The value of `name`, if it is present.
    pub fn get(&self, name: &str) -> (r: Option<&V>)
        requires
            self.wf(),
        ensures
            match r {
                Some(v) => self@.contains_key(name@) && *v == self@[name@],
                None => !self@.contains_key(name@),
            },
    {
        proof {
            lemma_map_of_dom(self.items@, name@);
        }
        match self.find(name) {
            Some(i) => {
                proof {
                    lemma_map_of_value(self.items@, i as int);
                }
                Some(&self.items[i].1)
            },
            None => None,
        }
    }

    /// Binds `name` to `value`, replacing what it was bound to.
    pub fn insert(&mut self, name: String, value: V)
        requires
            old(self).wf(),
        ensures
            final(self).wf(),
            final(self)@ == old(self)@.insert(name@, value),
    {
        match self.find(name.as_str()) {
            Some(i) => {
                proof {
                    lemma_map_of_update(self.items@, i as int, (name, value));
                }
                self.items.set(i, (name, value));
            },
            None => {
                let ghost before = self.items@;
                self.items.push((name, value));
                proof {
                    assert(self.items@.drop_last() =~= before);
                    assert forall|a: int, b: int|
                        0 <= a < b < self.items@.len() implies self.items@[a].0@
                        != self.items@[b].0@ by {
                        if b < before.len() {
                            assert(self.items@[a] == before[a]);
                            assert(self.items@[b] == before[b]);
                        } else {
                            assert(self.items@[a] == before[a]);
                        }
                    }
                }
            },
        }
    }

    /// Removes `name` and its value; nothing changes where it is absent.
    pub fn remove(&mut self, name: &str)
        requires
            old(self).wf(),
        ensures
            final(self).wf(),
            final(self)@ == old(self)@.remove(name@),
    {
        match self.find(name) {
            Some(i) => {
                proof {
                    lemma_map_of_remove(self.items@, i as int);
                }
                self.items.remove(i);
            },
            None => {
                proof {
                    lemma_map_of_dom(self.items@, name@);
                    assert(self@ =~= self@.remove(name@));
                }
            },
        }
    }

    /// Whether no name is bound.
    pub fn is_empty(&self) -> (r: bool)
        requires
            self.wf(),
        ensures
            self@.dom().finite(),
            r == (self@ == Map::<Seq<char>, V>::empty()),
            r == (self@.dom().len() == 0),
    {
        proof {
            lemma_map_of_finite(self.items@);
        }
        let r = self.items.len() == 0;
        proof {
            if r {
                assert(self@ =~= Map::<Seq<char>, V>::empty());
            } else {
                let last = self.items@.len() - 1;
                lemma_map_of_value(self.items@, last);
                assert(!Map::<Seq<char>, V>::empty().contains_key(self.items@[last].0@));
            }
        }
        r
    }
}

} // verus!
