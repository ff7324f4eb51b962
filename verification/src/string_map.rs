//! A small map from strings to copyable values, kept as a list of distinct keys.

use vstd::prelude::*;

verus! {

/// Map from strings to values; each key appears once in the list.
pub struct StringMap<V> {
    entries: Vec<(String, V)>,
}

impl<V: Copy> StringMap<V> {
    /// The map as a mathematical map.
    pub closed spec fn view_map(&self) -> Map<Seq<char>, V> {
        Map::new(
            |k: Seq<char>| exists|i: int| 0 <= i < self.entries@.len() && self.entries@[i].0@ == k,
            |k: Seq<char>| self.entries@[choose|i: int| 0 <= i < self.entries@.len() && self.entries@[i].0@ == k].1,
        )
    }

    /// Keys are distinct.
    pub closed spec fn well_formed(&self) -> bool {
        forall|i: int, j: int| 0 <= i < j < self.entries@.len() ==> self.entries@[i].0@ != self.entries@[j].0@
    }

    /// The empty map.
    pub fn new() -> (r: Self)
        ensures
            r.well_formed(),
            r.view_map() == Map::<Seq<char>, V>::empty(),
    {
        let r = StringMap { entries: Vec::new() };
        assert(r.view_map() =~= Map::<Seq<char>, V>::empty());
        r
    }

    fn find(&self, key: &str) -> (r: Option<usize>)
        ensures
            r matches Some(i) ==> i < self.entries@.len() && self.entries@[i as int].0@ == key@,
            r is None ==> forall|i: int| 0 <= i < self.entries@.len() ==> self.entries@[i].0@ != key@,
    {
        let k = key.to_owned();
        let mut i: usize = 0;
        while i < self.entries.len()
            invariant
                i <= self.entries@.len(),
                k@ == key@,
                forall|j: int| 0 <= j < i ==> self.entries@[j].0@ != key@,
            decreases self.entries@.len() - i,
        {
            if self.entries[i].0 == k {
                return Some(i);
            }
            i = i + 1;
        }
        None
    }

    /// The value under `key`, if any.
    pub fn get(&self, key: &str) -> (r: Option<V>)
        requires
            self.well_formed(),
        ensures
            r == (if self.view_map().dom().contains(key@) {
                Some(self.view_map()[key@])
            } else {
                None
            }),
    {
        match self.find(key) {
            Some(i) => {
                proof {
                    let j = choose|j: int| 0 <= j < self.entries@.len() && self.entries@[j].0@ == key@;
                    assert(j == i);
                }
                Some(self.entries[i].1)
            },
            None => None,
        }
    }

    /// Sets the value under `key`.
    pub fn insert(&mut self, key: String, value: V)
        requires
            old(self).well_formed(),
        ensures
            final(self).well_formed(),
            final(self).view_map() == old(self).view_map().insert(key@, value),
    {
        let ghost k = key@;
        let ghost old_map = self.view_map();
        let ghost before = self.entries@;
        match self.find(key.as_str()) {
            Some(i) => {
                self.entries.set(i, (key, value));
                proof {
                    assert forall|kk: Seq<char>| #[trigger] self.view_map().dom().contains(kk) <==> old_map.insert(
                        k,
                        value,
                    ).dom().contains(kk) by {
                        if kk != k && old_map.dom().contains(kk) {
                            let j = choose|j: int| 0 <= j < before.len() && before[j].0@ == kk;
                            assert(self.entries@[j].0@ == kk);
                        }
                        if kk == k {
                            assert(self.entries@[i as int].0@ == kk);
                        }
                    }
                    assert forall|kk: Seq<char>| self.view_map().dom().contains(kk) implies self.view_map()[kk]
                        == old_map.insert(k, value)[kk] by {
                        let j = choose|j: int| 0 <= j < self.entries@.len() && self.entries@[j].0@ == kk;
                        if kk == k {
                            assert(j == i);
                        } else {
                            let j0 = choose|j0: int| 0 <= j0 < before.len() && before[j0].0@ == kk;
                            assert(j0 != i);
                            assert(self.entries@[j0].0@ == kk);
                            assert(j == j0);
                        }
                    }
                    assert(self.view_map() =~= old_map.insert(k, value));
                }
            },
            None => {
                self.entries.push((key, value));
                proof {
                    let n = before.len() as int;
                    assert forall|kk: Seq<char>| #[trigger] self.view_map().dom().contains(kk) <==> old_map.insert(
                        k,
                        value,
                    ).dom().contains(kk) by {
                        if kk != k && old_map.dom().contains(kk) {
                            let j = choose|j: int| 0 <= j < before.len() && before[j].0@ == kk;
                            assert(self.entries@[j].0@ == kk);
                        }
                        if kk == k {
                            assert(self.entries@[n].0@ == kk);
                        }
                    }
                    assert forall|kk: Seq<char>| self.view_map().dom().contains(kk) implies self.view_map()[kk]
                        == old_map.insert(k, value)[kk] by {
                        let j = choose|j: int| 0 <= j < self.entries@.len() && self.entries@[j].0@ == kk;
                        if kk == k {
                            assert(j == n);
                        } else {
                            let j0 = choose|j0: int| 0 <= j0 < before.len() && before[j0].0@ == kk;
                            assert(self.entries@[j0].0@ == kk);
                            assert(j == j0);
                        }
                    }
                    assert(self.view_map() =~= old_map.insert(k, value));
                }
            },
        }
    }
}

} // verus!
