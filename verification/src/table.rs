//! A small table from names to values, such as the members of a JSON object.

use vstd::prelude::*;

use crate::text::same_text;

verus! {

/// The entries in the order in which their names were first inserted. No name occurs twice.
pub struct Table<T> {
    entries: Vec<(String, T)>,
}

spec fn map_of<T>(entries: Seq<(String, T)>) -> Map<Seq<char>, T>
    decreases entries.len(),
{
    if entries.len() == 0 {
        Map::empty()
    } else {
        map_of(entries.drop_last()).insert(entries.last().0@, entries.last().1)
    }
}

spec fn distinct<T>(entries: Seq<(String, T)>) -> bool {
    forall|i: int, j: int| 0 <= i < j < entries.len() ==> entries[i].0@ != entries[j].0@
}

proof fn lemma_map_of<T>(entries: Seq<(String, T)>)
    requires
        distinct(entries),
    ensures
        forall|i: int|
            0 <= i < entries.len() ==> {
                &&& #[trigger] map_of(entries).contains_key(entries[i].0@)
                &&& map_of(entries)[entries[i].0@] == entries[i].1
            },
        forall|k: Seq<char>| #[trigger]
            map_of(entries).contains_key(k) ==> exists|i: int|
                0 <= i < entries.len() && #[trigger] entries[i].0@ == k,
    decreases entries.len(),
{
    if entries.len() > 0 {
        let front = entries.drop_last();
        lemma_map_of(front);
        assert forall|i: int| 0 <= i < entries.len() implies {
            &&& #[trigger] map_of(entries).contains_key(entries[i].0@)
            &&& map_of(entries)[entries[i].0@] == entries[i].1
        } by {
            if i < entries.len() - 1 {
                assert(front[i] == entries[i]);
                assert(map_of(front).contains_key(front[i].0@));
            }
        }
        assert forall|k: Seq<char>| #[trigger] map_of(entries).contains_key(k) implies exists|i: int|
            0 <= i < entries.len() && #[trigger] entries[i].0@ == k by {
            if k == entries.last().0@ {
                assert(entries[entries.len() - 1].0@ == k);
            } else {
                assert(map_of(front).contains_key(k));
                let i = choose|i: int| 0 <= i < front.len() && #[trigger] front[i].0@ == k;
                assert(entries[i].0@ == k);
            }
        }
    }
}

impl<T> View for Table<T> {
    type V = Map<Seq<char>, T>;

    closed spec fn view(&self) -> Map<Seq<char>, T> {
        map_of(self.entries@)
    }
}

impl<T> Table<T> {
    #[verifier::type_invariant]
    spec fn well_formed(self) -> bool {
        distinct(self.entries@)
    }

    /// An empty table.
    pub fn new() -> (r: Self)
        ensures
            r@ == Map::<Seq<char>, T>::empty(),
    {
        Table { entries: Vec::new() }
    }

    /// Puts `value` under `key`, in place of what stood there.
    pub fn insert(&mut self, key: String, value: T)
        ensures
            final(self)@ == old(self)@.insert(key@, value),
    {
        proof {
            use_type_invariant(&*self);
        }
        let mut entries: Vec<(String, T)> = Vec::new();
        std::mem::swap(&mut entries, &mut self.entries);
        let ghost before = entries@;
        let at = position(&entries, key.as_str());
        let ghost k = key@;
        match at {
            Some(i) => {
                entries.set(i, (key, value));
                proof {
                    assert(entries@[i as int].0@ == before[i as int].0@);
                    assert(distinct(entries@));
                }
            },
            None => {
                entries.push((key, value));
                assert(distinct(entries@));
            },
        }
        proof {
            lemma_map_of(before);
            lemma_map_of(entries@);
            let goal = map_of(before).insert(k, value);
            assert forall|n: Seq<char>| map_of(entries@).contains_key(n) == goal.contains_key(n) by {
                if map_of(entries@).contains_key(n) {
                    let i = choose|i: int| 0 <= i < entries@.len() && #[trigger] entries@[i].0@ == n;
                    if n != k {
                        assert(before[i].0@ == n);
                    }
                }
                if goal.contains_key(n) {
                    if n == k {
                        match at {
                            Some(i) => {
                                assert(entries@[i as int].0@ == n);
                            },
                            None => {
                                assert(entries@[entries@.len() - 1].0@ == n);
                            },
                        }
                    } else {
                        let i = choose|i: int| 0 <= i < before.len() && #[trigger] before[i].0@ == n;
                        assert(entries@[i].0@ == n);
                    }
                }
            }
            assert forall|n: Seq<char>| goal.contains_key(n) implies map_of(entries@)[n] == goal[n] by {
                assert(map_of(entries@).contains_key(n));
                let i = choose|i: int| 0 <= i < entries@.len() && #[trigger] entries@[i].0@ == n;
                assert(map_of(entries@)[entries@[i].0@] == entries@[i].1);
                if n != k {
                    assert(before[i].0@ == n);
                    assert(map_of(before)[before[i].0@] == before[i].1);
                }
            }
            assert(map_of(entries@) =~= goal);
        }
        self.entries = entries;
    }

    /// The value under `key`.
    pub fn get(&self, key: &str) -> (r: Option<&T>)
        ensures
            r is Some <==> self@.contains_key(key@),
            r matches Some(v) ==> *v == self@[key@],
    {
        proof {
            use_type_invariant(self);
            lemma_map_of(self.entries@);
        }
        match position(&self.entries, key) {
            Some(i) => {
                assert(self@.contains_key(self.entries@[i as int].0@));
                Some(&self.entries[i].1)
            },
            None => None,
        }
    }
}

impl Table<bool> {
    /// Whether some value of the table is `true`.
    pub fn any(&self) -> (r: bool)
        ensures
            r == exists|k: Seq<char>| #[trigger] self@.contains_key(k) && self@[k],
    {
        proof {
            use_type_invariant(self);
            lemma_map_of(self.entries@);
        }
        let mut i: usize = 0;
        while i < self.entries.len()
            invariant
                i <= self.entries@.len(),
                distinct(self.entries@),
                forall|j: int| 0 <= j < i ==> !(#[trigger] self.entries@[j]).1,
            decreases self.entries@.len() - i,
        {
            if self.entries[i].1 {
                proof {
                    lemma_map_of(self.entries@);
                    assert(self@.contains_key(self.entries@[i as int].0@));
                }
                return true;
            }
            i += 1;
        }
        assert forall|k: Seq<char>| #[trigger] self@.contains_key(k) implies !self@[k] by {
            let j = choose|j: int| 0 <= j < self.entries@.len() && #[trigger] self.entries@[j].0@ == k;
            assert(self@.contains_key(self.entries@[j].0@));
        }
        false
    }
}

/// Where `key` stands.
fn position<T>(entries: &Vec<(String, T)>, key: &str) -> (r: Option<usize>)
    ensures
        match r {
            Some(i) => i < entries@.len() && entries@[i as int].0@ == key@,
            None => forall|j: int| 0 <= j < entries@.len() ==> (#[trigger] entries@[j]).0@ != key@,
        },
{
    let mut i: usize = 0;
    while i < entries.len()
        invariant
            i <= entries@.len(),
            forall|j: int| 0 <= j < i ==> (#[trigger] entries@[j]).0@ != key@,
        decreases entries@.len() - i,
    {
        if same_text(entries[i].0.as_str(), key) {
            return Some(i);
        }
        i += 1;
    }
    None
}

} // verus!
