//! Tables keyed by symbol name.

use vstd::prelude::*;

verus! {

/// A finite map from symbol names to values, kept as a list of entries in
/// which no name occurs twice.
///
/// A hash map of the standard library is not used here: with `String` keys
/// nothing can be proved of what it holds, not even that a name that was
/// just inserted is found. Two tables are equal with `==` when they hold the
/// same entries in the same order.
#[derive(Debug, Clone, PartialEq, Eq)]
pub struct NameMap<V> {
    pub entries: Vec<(String, V)>,
}

impl<V> NameMap<V> {
    /// The names of the entries, in the order in which they were first inserted.
    pub open spec fn names(self) -> Seq<Seq<char>> {
        Seq::new(self.entries@.len(), |i: int| self.entries@[i].0@)
    }

    /// No name occurs twice.
    pub open spec fn wf(self) -> bool {
        forall|i: int, j: int|
            0 <= i < j < self.entries@.len() ==> self.entries@[i].0@ != self.entries@[j].0@
    }

    /// True when an entry is recorded under `name`.
    pub open spec fn has(self, name: Seq<char>) -> bool {
        exists|i: int| 0 <= i < self.entries@.len() && #[trigger] self.entries@[i].0@ == name
    }

    /// The position of the entry recorded under `name`.
    pub open spec fn position(self, name: Seq<char>) -> int {
        choose|i: int| 0 <= i < self.entries@.len() && #[trigger] self.entries@[i].0@ == name
    }

    /// The value recorded under `name`, if any.
    pub open spec fn lookup(self, name: Seq<char>) -> Option<V> {
        if self.has(name) {
            Some(self.entries@[self.position(name)].1)
        } else {
            None
        }
    }

    /// The table as a mathematical map.
    pub open spec fn view(self) -> Map<Seq<char>, V> {
        Map::new(|name: Seq<char>| self.has(name), |name: Seq<char>| self.entries@[self.position(name)].1)
    }

    /// In a well-formed table the entry at position `i` is the one found under its name.
    pub proof fn lemma_position(self, i: int)
        requires
            self.wf(),
            0 <= i < self.entries@.len(),
        ensures
            self.has(self.entries@[i].0@),
            self.position(self.entries@[i].0@) == i,
            self.lookup(self.entries@[i].0@) == Some(self.entries@[i].1),
    {
        let name = self.entries@[i].0@;
        assert(self.entries@[i].0@ == name);
        let p = self.position(name);
        assert(0 <= p < self.entries@.len() && self.entries@[p].0@ == name);
        if p < i {
            assert(self.entries@[p].0@ != self.entries@[i].0@);
        } else if i < p {
            assert(self.entries@[i].0@ != self.entries@[p].0@);
        }
    }

    /// An empty table.
    pub fn new() -> (r: Self)
        ensures
            r.wf(),
            r.entries@.len() == 0,
            r@ == Map::<Seq<char>, V>::empty(),
            forall|name: Seq<char>| !r.has(name),
    {
        let r = NameMap { entries: Vec::new() };
        proof {
            assert(r@ =~= Map::<Seq<char>, V>::empty());
        }
        r
    }

    /// The number of entries.
    pub fn len(&self) -> (n: usize)
        ensures
            n == self.entries@.len(),
    {
        self.entries.len()
    }

    /// Checks that no name occurs twice.
    pub fn is_well_formed(&self) -> (r: bool)
        ensures
            r == self.wf(),
    {
        let n: usize = self.entries.len();
        let mut j: usize = 0;
        while j < n
            invariant
                j <= n,
                n == self.entries@.len(),
                forall|a: int, b: int| 0 <= a < b < j ==> self.entries@[a].0@ != self.entries@[b].0@,
            decreases n - j,
        {
            let mut i: usize = 0;
            while i < j
                invariant
                    i <= j < n,
                    n == self.entries@.len(),
                    forall|a: int| 0 <= a < i ==> self.entries@[a].0@ != self.entries@[j as int].0@,
                decreases j - i,
            {
                if self.entries[i].0 == self.entries[j].0 {
                    return false;
                }
                i += 1;
            }
            j += 1;
        }
        true
    }

    /// The position of the entry recorded under `name`, if there is one.
    pub fn find(&self, name: &String) -> (r: Option<usize>)
        requires
            self.wf(),
        ensures
            match r {
                Some(i) => self.has(name@) && i == self.position(name@) && i < self.entries@.len()
                    && self.entries@[i as int].0@ == name@,
                None => !self.has(name@),
            },
    {
        let n: usize = self.entries.len();
        let mut i: usize = 0;
        while i < n
            invariant
                i <= n,
                n == self.entries@.len(),
                self.wf(),
                forall|j: int| 0 <= j < i ==> self.entries@[j].0@ != name@,
            decreases n - i,
        {
            if self.entries[i].0 == *name {
                proof {
                    self.lemma_position(i as int);
                }
                return Some(i);
            }
            i += 1;
        }
        None
    }

    /// True when an entry is recorded under `name`.
    pub fn contains_key(&self, name: &String) -> (r: bool)
        requires
            self.wf(),
        ensures
            r == self.has(name@),
            r == self@.dom().contains(name@),
    {
        self.find(name).is_some()
    }

    /// The value recorded under `name`, if any.
    pub fn get(&self, name: &String) -> (r: Option<&V>)
        requires
            self.wf(),
        ensures
            match r {
                Some(v) => self.lookup(name@) == Some(*v),
                None => self.lookup(name@).is_none(),
            },
    {
        match self.find(name) {
            Some(i) => Some(&self.entries[i].1),
            None => None,
        }
    }

    /// Records `value` under `name`, replacing the value of an entry that is
    /// already recorded under that name.
    pub fn insert(&mut self, name: String, value: V)
        requires
            old(self).wf(),
        ensures
            final(self).wf(),
            final(self)@ == old(self)@.insert(name@, value),
            final(self).lookup(name@) == Some(value),
            forall|other: Seq<char>|
                other != name@ ==> final(self).lookup(other) == old(self).lookup(other),
            forall|other: Seq<char>| final(self).has(other) == (old(self).has(other) || other == name@),
            old(self).has(name@) ==> final(self).names() == old(self).names(),
            !old(self).has(name@) ==> final(self).names() == old(self).names().push(name@),
    {
        let ghost before = *self;
        match self.find(&name) {
            Some(i) => {
                self.entries[i].1 = value;
                proof {
                    let after = *self;
                    assert(after.entries@.len() == before.entries@.len());
                    assert(forall|j: int|
                        0 <= j < after.entries@.len() ==> after.entries@[j].0@
                            == before.entries@[j].0@);
                    assert(after.wf());
                    assert forall|other: Seq<char>| after.has(other) == before.has(other) by {
                        if before.has(other) {
                            let p = before.position(other);
                            assert(after.entries@[p].0@ == other);
                        }
                        if after.has(other) {
                            let p = after.position(other);
                            assert(before.entries@[p].0@ == other);
                        }
                    }
                    assert forall|other: Seq<char>| after.has(other) implies after.position(other)
                        == before.position(other) by {
                        let p = before.position(other);
                        assert(after.entries@[p].0@ == other);
                        after.lemma_position(p);
                    }
                    after.lemma_position(i as int);
                    assert(after@ =~= before@.insert(name@, value));
                    assert(after.names() =~= before.names());
                }
            },
            None => {
                self.entries.push((name, value));
                proof {
                    let after = *self;
                    let n = before.entries@.len() as int;
                    assert(after.entries@.len() == n + 1);
                    assert(forall|j: int| 0 <= j < n ==> after.entries@[j] == before.entries@[j]);
                    assert(after.entries@[n].0@ == name@);
                    assert(after.wf()) by {
                        assert forall|a: int, b: int| 0 <= a < b < n + 1 implies after.entries@[a].0@
                            != after.entries@[b].0@ by {
                            if b == n {
                                assert(before.entries@[a].0@ != name@) by {
                                    if before.entries@[a].0@ == name@ {
                                        assert(before.has(name@));
                                    }
                                }
                            }
                        }
                    }
                    assert forall|other: Seq<char>| after.has(other) == (before.has(other) || other
                        == name@) by {
                        if before.has(other) {
                            let p = before.position(other);
                            assert(after.entries@[p].0@ == other);
                        }
                        if other == name@ {
                            assert(after.entries@[n].0@ == other);
                        }
                        if after.has(other) {
                            let p = after.position(other);
                            if p < n {
                                assert(before.entries@[p].0@ == other);
                            }
                        }
                    }
                    assert forall|other: Seq<char>| before.has(other) implies after.position(other)
                        == before.position(other) by {
                        let p = before.position(other);
                        assert(after.entries@[p].0@ == other);
                        after.lemma_position(p);
                    }
                    after.lemma_position(n);
                    assert(after@ =~= before@.insert(name@, value));
                    assert(after.names() =~= before.names().push(name@));
                }
            },
        }
    }
}

} // verus!
