//! The set of instance names whose events are ignored.

use vstd::prelude::*;

verus! {

/// A set of names, each held once.
pub struct NameFilter {
    names: Vec<String>,
}

impl View for NameFilter {
    type V = Set<Seq<char>>;

    closed spec fn view(&self) -> Set<Seq<char>> {
        Set::new(|k: Seq<char>| exists|i: int| 0 <= i < self.names@.len() && #[trigger] self.names@[i]@ == k)
    }
}

impl NameFilter {
    /// No name is held twice.
    pub closed spec fn wf(&self) -> bool {
        forall|i: int, j: int| 0 <= i < j < self.names@.len() ==> self.names@[i]@ != self.names@[j]@
    }

    /// The empty filter.
    pub fn new() -> (f: NameFilter)
        ensures
            f.wf(),
            f@ == Set::<Seq<char>>::empty(),
    {
        let f = NameFilter { names: Vec::new() };
        proof {
            assert(f@ =~= Set::<Seq<char>>::empty());
        }
        f
    }

    fn position(&self, name: &String) -> (res: Option<usize>)
        ensures
            match res {
                Some(i) => i < self.names@.len() && self.names@[i as int]@ == name@,
                None => !self@.contains(name@),
            },
    {
        let mut i: usize = 0;
        while i < self.names.len()
            invariant
                i <= self.names.len(),
                forall|j: int| 0 <= j < i ==> self.names@[j]@ != name@,
            decreases self.names.len() - i,
        {
            if self.names[i] == *name {
                return Some(i);
            }
            i = i + 1;
        }
        None
    }

    /// Whether `name` is in the filter.
    pub fn contains(&self, name: &String) -> (res: bool)
        ensures
            res == self@.contains(name@),
    {
        self.position(name).is_some()
    }

    /// Adds `name`.
    pub fn insert(&mut self, name: String)
        requires
            old(self).wf(),
        ensures
            final(self).wf(),
            final(self)@ == old(self)@.insert(name@),
    {
        if self.position(&name).is_none() {
            let ghost before = self.names@;
            self.names.push(name);
            proof {
                assert forall|i: int, j: int| 0 <= i < j < self.names@.len() implies self.names@[i]@
                    != self.names@[j]@ by {
                    if j == self.names@.len() - 1 {
                        assert(before[i] == self.names@[i]);
                        assert(!old(self)@.contains(name@));
                    } else {
                        assert(before[i] == self.names@[i]);
                        assert(before[j] == self.names@[j]);
                    }
                }
                assert forall|k: Seq<char>| self@.contains(k) <==> old(self)@.insert(name@).contains(k) by {
                    if self@.contains(k) {
                        let i = choose|i: int| 0 <= i < self.names@.len() && #[trigger] self.names@[i]@ == k;
                        if i < before.len() {
                            assert(before[i]@ == k);
                        }
                    }
                    if old(self)@.contains(k) {
                        let i = choose|i: int| 0 <= i < before.len() && #[trigger] before[i]@ == k;
                        assert(self.names@[i]@ == k);
                    }
                    if k == name@ {
                        assert(self.names@[before.len() as int]@ == k);
                    }
                }
                assert(self@ =~= old(self)@.insert(name@));
            }
        } else {
            proof {
                assert(self@ =~= old(self)@.insert(name@));
            }
        }
    }

    /// Removes `name`.
    pub fn remove(&mut self, name: &String)
        requires
            old(self).wf(),
        ensures
            final(self).wf(),
            final(self)@ == old(self)@.remove(name@),
    {
        match self.position(name) {
            Some(p) => {
                let ghost before = self.names@;
                let _ = self.names.remove(p);
                proof {
                    assert forall|i: int| 0 <= i < self.names@.len() implies #[trigger] self.names@[i]
                        == before[if i < p { i } else { i + 1 }] by {}
                    assert forall|i: int, j: int| 0 <= i < j < self.names@.len() implies self.names@[i]@
                        != self.names@[j]@ by {
                        let i2 = if i < p { i } else { i + 1 };
                        let j2 = if j < p { j } else { j + 1 };
                        assert(self.names@[i] == before[i2]);
                        assert(self.names@[j] == before[j2]);
                    }
                    assert forall|k: Seq<char>| self@.contains(k) <==> old(self)@.remove(name@).contains(k) by {
                        if self@.contains(k) {
                            let i = choose|i: int| 0 <= i < self.names@.len() && #[trigger] self.names@[i]@ == k;
                            let i2 = if i < p { i } else { i + 1 };
                            assert(self.names@[i] == before[i2]);
                            assert(before[i2]@ == k);
                            assert(i2 != p);
                        }
                        if old(self)@.remove(name@).contains(k) {
                            let i = choose|i: int| 0 <= i < before.len() && #[trigger] before[i]@ == k;
                            assert(i != p);
                            if i < p {
                                assert(self.names@[i] == before[i]);
                            } else {
                                assert(self.names@[i - 1] == before[i]);
                            }
                        }
                    }
                    assert(self@ =~= old(self)@.remove(name@));
                }
            },
            None => {
                proof {
                    assert(self@ =~= old(self)@.remove(name@));
                }
            },
        }
    }
}

} // verus!
