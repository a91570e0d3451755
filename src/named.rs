//! Values kept by name, such as the counters of each disk or network interface.
use vstd::prelude::*;

verus! {

/// Whether no two entries of `s` share a name.
pub open spec fn unique_names<T>(s: Seq<(Seq<char>, T)>) -> bool {
    forall|i: int, j: int| 0 <= i < j < s.len() ==> (#[trigger] s[i]).0 != (#[trigger] s[j]).0
}

/// The position of the entry named `name` in `s`, if there is one.
pub open spec fn index_of<T>(s: Seq<(Seq<char>, T)>, name: Seq<char>) -> Option<int> {
    if exists|i: int| 0 <= i < s.len() && (#[trigger] s[i]).0 == name {
        Some(choose|i: int| 0 <= i < s.len() && (#[trigger] s[i]).0 == name)
    } else {
        None
    }
}

/// The value of the entry named `name` in `s`, if there is one.
pub open spec fn lookup<T>(s: Seq<(Seq<char>, T)>, name: Seq<char>) -> Option<T> {
    match index_of(s, name) {
        Some(i) => Some(s[i].1),
        None => None,
    }
}

/// `s` with `value` under `name`: the entry of that name takes the new value, or a new
/// entry goes at the end.
pub open spec fn with_entry<T>(s: Seq<(Seq<char>, T)>, name: Seq<char>, value: T) -> Seq<
    (Seq<char>, T),
> {
    match index_of(s, name) {
        Some(i) => s.update(i, (name, value)),
        None => s.push((name, value)),
    }
}

/// In a sequence with unique names, the entry at `i` is the one its name finds.
pub proof fn lemma_index_of_unique<T>(s: Seq<(Seq<char>, T)>, i: int)
    requires
        unique_names(s),
        0 <= i < s.len(),
    ensures
        index_of(s, s[i].0) == Some(i),
{
    let name = s[i].0;
    assert(0 <= i < s.len() && s[i].0 == name);
    let j = choose|j: int| 0 <= j < s.len() && (#[trigger] s[j]).0 == name;
    if j < i {
        assert(s[j].0 != s[i].0);
    } else if i < j {
        assert(s[i].0 != s[j].0);
    }
}

/// Values of type `T` kept by name, in the order in which their names first came. No two
/// entries share a name.
#[derive(Debug)]
pub struct NamedStats<T> {
    entries: Vec<(String, T)>,
}

impl<T> NamedStats<T> {
    /// The entries, as pairs of name and value, in order.
    pub closed spec fn view(&self) -> Seq<(Seq<char>, T)> {
        self.entries@.map_values(|e: (String, T)| (e.0@, e.1))
    }

    #[verifier::type_invariant]
    spec fn names_unique(&self) -> bool {
        unique_names(self@)
    }

    /// No entries.
    pub fn new() -> (r: NamedStats<T>)
        ensures
            r@ == Seq::<(Seq<char>, T)>::empty(),
    {
        let r = NamedStats { entries: Vec::new() };
        assert(r@ =~= Seq::<(Seq<char>, T)>::empty());
        r
    }

    /// Entries with the names and values of `entries`, whose names must differ.
    pub(crate) fn from_entries(entries: Vec<(String, T)>) -> (r: NamedStats<T>)
        requires
            unique_names(entries@.map_values(|e: (String, T)| (e.0@, e.1))),
        ensures
            r@ == entries@.map_values(|e: (String, T)| (e.0@, e.1)),
    {
        NamedStats { entries }
    }

    /// The number of entries; their names are unique.
    pub fn len(&self) -> (r: usize)
        ensures
            r == self@.len(),
            unique_names(self@),
    {
        proof {
            use_type_invariant(self);
        }
        self.entries.len()
    }

    /// Whether there are no entries.
    pub fn is_empty(&self) -> (r: bool)
        ensures
            r == (self@.len() == 0),
    {
        self.entries.len() == 0
    }

    /// The name of entry `i`.
    pub fn name_at(&self, i: usize) -> (r: &String)
        requires
            i < self@.len(),
        ensures
            r@ == self@[i as int].0,
    {
        &self.entries[i].0
    }

    /// The value of entry `i`.
    pub fn value_at(&self, i: usize) -> (r: &T)
        requires
            i < self@.len(),
        ensures
            *r == self@[i as int].1,
    {
        &self.entries[i].1
    }

    /// The position of the entry named `name`, if there is one.
    pub fn position(&self, name: &String) -> (r: Option<usize>)
        ensures
            match r {
                Some(i) => index_of(self@, name@) == Some(i as int),
                None => index_of(self@, name@) is None,
            },
    {
        proof {
            use_type_invariant(self);
        }
        let mut i: usize = 0;
        while i < self.entries.len()
            invariant
                0 <= i <= self@.len(),
                self@.len() == self.entries@.len(),
                unique_names(self@),
                forall|j: int| 0 <= j < i ==> (#[trigger] self@[j]).0 != name@,
            decreases self.entries.len() - i,
        {
            if self.entries[i].0 == *name {
                proof {
                    lemma_index_of_unique(self@, i as int);
                }
                return Some(i);
            }
            i = i + 1;
        }
        None
    }

    /// The value under `name`, if there is one.
    pub fn get(&self, name: &str) -> (r: Option<&T>)
        ensures
            match r {
                Some(v) => lookup(self@, name@) == Some(*v),
                None => lookup(self@, name@) is None,
            },
    {
        let key = name.to_owned();
        match self.position(&key) {
            Some(i) => Some(&self.entries[i].1),
            None => None,
        }
    }

    /// Puts `value` under `name`, in place of any value it had.
    pub fn insert(&mut self, name: String, value: T)
        ensures
            final(self)@ == with_entry(old(self)@, name@, value),
    {
        proof {
            use_type_invariant(&*self);
        }
        let ghost before = self@;
        let position = self.position(&name);
        let mut taken = NamedStats::new();
        core::mem::swap(self, &mut taken);
        let NamedStats { mut entries } = taken;
        assert(entries@.map_values(|e: (String, T)| (e.0@, e.1)) == before);
        match position {
            Some(i) => {
                entries.set(i, (name, value));
                assert(entries@.map_values(|e: (String, T)| (e.0@, e.1)) =~= before.update(
                    i as int,
                    (name@, value),
                ));
            },
            None => {
                let ghost n = name@;
                entries.push((name, value));
                let ghost after = entries@.map_values(|e: (String, T)| (e.0@, e.1));
                assert(after =~= before.push((n, value)));
                assert forall|a: int, b: int| 0 <= a < b < after.len() implies (#[trigger] after[a]).0
                    != (#[trigger] after[b]).0 by {
                    if b == after.len() - 1 {
                        assert(!(0 <= a < before.len() && before[a].0 == n));
                    }
                }
            },
        }
        *self = NamedStats { entries };
    }
}

} // verus!
