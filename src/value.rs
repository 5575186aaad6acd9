//! The document value type, its mapping container, and structural equality.
use vstd::prelude::*;

use crate::number::{number_eq, Number};

verus! {

/// A value of a parsed document.
#[derive(Debug)]
pub enum Yaml {
    Null,
    Bool(bool),
    Number(Number),
    String(String),
    Sequence(Vec<Yaml>),
    Mapping(Mapping),
}

/// Key/value pairs whose keys are pairwise unequal under [`yaml_eq`].
///
/// Inserting a key equal to one already present keeps the stored key and
/// replaces its value, so the keys stay unique.
#[derive(Debug)]
pub struct Mapping {
    entries: Vec<(Yaml, Yaml)>,
}

/// No two entries of `s` have keys equal under [`yaml_eq`].
pub open spec fn keys_unique(s: Seq<(Yaml, Yaml)>) -> bool {
    forall|i: int, j: int|
        0 <= i < j < s.len() ==> !yaml_eq(#[trigger] s[i].0, #[trigger] s[j].0)
}

impl View for Mapping {
    type V = Seq<(Yaml, Yaml)>;

    closed spec fn view(&self) -> Seq<(Yaml, Yaml)> {
        self.entries@
    }
}

/// Some entry of `y` has a key equal to `k` and a value equal to `v`, both
/// compared with `k` and `v` on the left.
pub open spec fn has_entry_eq_from(k: Yaml, v: Yaml, y: Seq<(Yaml, Yaml)>) -> bool {
    exists|j: int| 0 <= j < y.len() && yaml_eq(k, #[trigger] y[j].0) && yaml_eq(v, y[j].1)
}

/// Some entry of `x` has a key equal to `k` and a value equal to `v`, both
/// compared with the entry of `x` on the left.
pub open spec fn has_entry_eq_to(x: Seq<(Yaml, Yaml)>, k: Yaml, v: Yaml) -> bool {
    exists|i: int| 0 <= i < x.len() && yaml_eq(#[trigger] x[i].0, k) && yaml_eq(x[i].1, v)
}

/// `i` is a position of `s`.
pub open spec fn index_in(s: Seq<(Yaml, Yaml)>, i: int) -> bool {
    0 <= i < s.len()
}

/// Structural equality of two values. The variants must agree; then nulls
/// are equal, booleans and text compare by value, numbers by [`number_eq`],
/// sequences element by element in order, and mappings when they have as
/// many entries and each entry of either has an equal entry in the other,
/// whatever the order.
pub open spec fn yaml_eq(a: Yaml, b: Yaml) -> bool
    decreases a,
{
    match (a, b) {
        (Yaml::Null, Yaml::Null) => true,
        (Yaml::Bool(x), Yaml::Bool(y)) => x == y,
        (Yaml::Number(x), Yaml::Number(y)) => number_eq(x, y),
        (Yaml::String(x), Yaml::String(y)) => x@ == y@,
        (Yaml::Sequence(x), Yaml::Sequence(y)) => {
            &&& x.len() == y.len()
            &&& forall|i: int| 0 <= i < x.len() ==> yaml_eq(#[trigger] x@[i], y@[i])
        },
        (Yaml::Mapping(x), Yaml::Mapping(y)) => {
            &&& x@.len() == y@.len()
            &&& forall|i: int|
                #![trigger index_in(x@, i)]
                index_in(x@, i) ==> exists|j: int|
                    #![trigger y@[j]]
                    0 <= j < y@.len() && yaml_eq(x@[i].0, y@[j].0) && yaml_eq(x@[i].1, y@[j].1)
            &&& forall|j: int|
                #![trigger index_in(y@, j)]
                index_in(y@, j) ==> exists|i: int|
                    #![trigger x@[i]]
                    0 <= i < x@.len() && yaml_eq(x@[i].0, y@[j].0) && yaml_eq(x@[i].1, y@[j].1)
        },
        _ => false,
    }
}

/// Each key and each value of a mapping is smaller than the mapping, so
/// that proofs may recurse into them.
pub proof fn lemma_entry_decreases(m: Mapping, i: int)
    requires
        0 <= i < m@.len(),
    ensures
        decreases_to!(m => m@[i].0),
        decreases_to!(m => m@[i].1),
{
    assert(decreases_to!(m => m.entries));
    assert(decreases_to!(m.entries => m.entries@));
    assert(decreases_to!(m.entries@ => m.entries@[i]));
    assert(decreases_to!(m.entries@[i] => m.entries@[i].0));
    assert(decreases_to!(m.entries@[i] => m.entries@[i].1));
}

/// Some entry of `s` has a key equal to `k` (the entry's key on the left).
pub open spec fn has_key(s: Seq<(Yaml, Yaml)>, k: Yaml) -> bool {
    exists|i: int| 0 <= i < s.len() && yaml_eq(#[trigger] s[i].0, k)
}

impl Mapping {
    #[verifier::type_invariant]
    spec fn keys_distinct(self) -> bool {
        keys_unique(self.entries@)
    }

    /// An empty mapping.
    pub fn new() -> (r: Mapping)
        ensures
            r@ == Seq::<(Yaml, Yaml)>::empty(),
    {
        Mapping { entries: Vec::new() }
    }

    /// The number of entries.
    pub fn len(&self) -> (r: usize)
        ensures
            r == self@.len(),
            keys_unique(self@),
    {
        proof {
            use_type_invariant(self);
        }
        self.entries.len()
    }

    /// Adds `value` under `key`. Where an entry with a key equal to `key`
    /// is present, that entry keeps its key and takes `value`; otherwise the
    /// pair is appended.
    pub fn insert(&mut self, key: Yaml, value: Yaml)
        ensures
            keys_unique(final(self)@),
            has_key(old(self)@, key) ==> exists|i: int|
                0 <= i < old(self)@.len() && yaml_eq(#[trigger] old(self)@[i].0, key)
                    && final(self)@ == old(self)@.update(i, (old(self)@[i].0, value)),
            !has_key(old(self)@, key) ==> final(self)@ == old(self)@.push((key, value)),
    {
        proof {
            use_type_invariant(&*self);
        }
        let mut i: usize = 0;
        while i < self.entries.len()
            invariant
                0 <= i <= self.entries.len(),
                self.entries@ == old(self).entries@,
                keys_unique(self.entries@),
                forall|l: int| 0 <= l < i ==> !yaml_eq(#[trigger] self.entries@[l].0, key),
            decreases self.entries.len() - i,
        {
            if self.entries[i].0.equals(&key) {
                let ghost before = self.entries@;
                let mut entries = Vec::new();
                std::mem::swap(&mut entries, &mut self.entries);
                let (k, _replaced) = entries.remove(i);
                entries.insert(i, (k, value));
                assert(entries@ =~= before.update(i as int, (before[i as int].0, value)));
                assert forall|l: int| 0 <= l < entries@.len() implies #[trigger] entries@[l].0
                    == before[l].0 by {}
                self.entries = entries;
                proof {
                    assert(has_key(before, key));
                    assert(yaml_eq(before[i as int].0, key));
                }
                return;
            }
            i += 1;
        }
        let ghost before = self.entries@;
        let mut entries = Vec::new();
        std::mem::swap(&mut entries, &mut self.entries);
        entries.push((key, value));
        assert(keys_unique(entries@));
        assert(!has_key(before, key));
        self.entries = entries;
    }
}

impl Yaml {
    /// The text of a `String` value; `None` for every other variant.
    pub fn as_str(&self) -> (r: Option<&str>)
        ensures
            match *self {
                Yaml::String(s) => r is Some && r->0@ == s@,
                _ => r is None,
            },
    {
        match self {
            Yaml::String(s) => Some(s.as_str()),
            _ => None,
        }
    }

    /// The integer of a `Number` stored as an integer; `None` for a float
    /// and for every other variant.
    pub fn as_i64(&self) -> (r: Option<i64>)
        ensures
            r == match *self {
                Yaml::Number(Number::Int(i)) => Some(i),
                _ => None::<i64>,
            },
    {
        match self {
            Yaml::Number(Number::Int(i)) => Some(*i),
            _ => None,
        }
    }

    /// The binary64 encoding of a `Number` stored as a float; `None` for an
    /// integer and for every other variant.
    pub fn as_float_bits(&self) -> (r: Option<u64>)
        ensures
            r == match *self {
                Yaml::Number(Number::Float(b)) => Some(b),
                _ => None::<u64>,
            },
    {
        match self {
            Yaml::Number(Number::Float(b)) => Some(*b),
            _ => None,
        }
    }

    /// The boolean of a `Bool` value; `None` for every other variant.
    pub fn as_bool(&self) -> (r: Option<bool>)
        ensures
            r == match *self {
                Yaml::Bool(b) => Some(b),
                _ => None::<bool>,
            },
    {
        match self {
            Yaml::Bool(b) => Some(*b),
            _ => None,
        }
    }

    /// Decides [`yaml_eq`]. Stops at the first difference found.
    pub fn equals(&self, other: &Yaml) -> (r: bool)
        ensures
            r == yaml_eq(*self, *other),
        decreases self,
    {
        match (self, other) {
            (Yaml::Null, Yaml::Null) => true,
            (Yaml::Bool(a), Yaml::Bool(b)) => *a == *b,
            (Yaml::Number(a), Yaml::Number(b)) => a.equals(b),
            (Yaml::String(a), Yaml::String(b)) => a.eq(b),
            (Yaml::Sequence(a), Yaml::Sequence(b)) => {
                if a.len() != b.len() {
                    return false;
                }
                let mut i: usize = 0;
                while i < a.len()
                    invariant
                        *self == Yaml::Sequence(*a),
                        *other == Yaml::Sequence(*b),
                        a.len() == b.len(),
                        0 <= i <= a.len(),
                        forall|k: int| 0 <= k < i ==> yaml_eq(#[trigger] a@[k], b@[k]),
                    decreases a.len() - i,
                {
                    proof {
                        assert(decreases_to!(*self => (*self)->Sequence_0));
                        assert(decreases_to!(*a => a@));
                        assert(decreases_to!(a@ => a@[i as int]));
                    }
                    if !a[i].equals(&b[i]) {
                        return false;
                    }
                    i += 1;
                }
                true
            },
            (Yaml::Mapping(a), Yaml::Mapping(b)) => {
                let x = &a.entries;
                let y = &b.entries;
                assert(a@ == x@ && b@ == y@);
                if x.len() != y.len() {
                    return false;
                }
                let mut i: usize = 0;
                while i < x.len()
                    invariant
                        *self == Yaml::Mapping(*a),
                        *other == Yaml::Mapping(*b),
                        x == a.entries,
                        y == b.entries,
                        x.len() == y.len(),
                        0 <= i <= x.len(),
                        forall|k: int| #![trigger x@[k]] 0 <= k < i ==> has_entry_eq_from(x@[k].0, x@[k].1, y@),
                    decreases x.len() - i,
                {
                    let mut found = false;
                    let mut j: usize = 0;
                    while j < y.len() && !found
                        invariant
                            *self == Yaml::Mapping(*a),
                            *other == Yaml::Mapping(*b),
                            x == a.entries,
                            y == b.entries,
                            x.len() == y.len(),
                            forall|k: int| #![trigger x@[k]] 0 <= k < i ==> has_entry_eq_from(x@[k].0, x@[k].1, y@),
                            0 <= i < x.len(),
                            0 <= j <= y.len(),
                            found ==> has_entry_eq_from(x@[i as int].0, x@[i as int].1, y@),
                            !found ==> forall|l: int| 0 <= l < j ==> !(yaml_eq(x@[i as int].0, #[trigger] y@[l].0) && yaml_eq(x@[i as int].1, y@[l].1)),
                        decreases y.len() - j,
                    {
                        proof {
                            assert(decreases_to!(*self => (*self)->Mapping_0));
                            assert(decreases_to!(*a => a.entries));
                            assert(decreases_to!(a.entries => a.entries@));
                            assert(decreases_to!(a.entries@ => a.entries@[i as int]));
                            assert(decreases_to!(x@[i as int] => x@[i as int].0));
                            assert(decreases_to!(x@[i as int] => x@[i as int].1));
                        }
                        if x[i].0.equals(&y[j].0) && x[i].1.equals(&y[j].1) {
                            found = true;
                        }
                        j += 1;
                    }
                    if !found {
                        proof {
                            assert(!has_entry_eq_from(x@[i as int].0, x@[i as int].1, y@));
                            assert(a@ == x@ && index_in(a@, i as int));
                        }
                        return false;
                    }
                    i += 1;
                }
                let mut j: usize = 0;
                while j < y.len()
                    invariant
                        *self == Yaml::Mapping(*a),
                        *other == Yaml::Mapping(*b),
                        x == a.entries,
                        y == b.entries,
                        x.len() == y.len(),
                        0 <= j <= y.len(),
                        forall|k: int| #![trigger x@[k]] 0 <= k < x.len() ==> has_entry_eq_from(x@[k].0, x@[k].1, y@),
                        forall|k: int| #![trigger y@[k]] 0 <= k < j ==> has_entry_eq_to(x@, y@[k].0, y@[k].1),
                    decreases y.len() - j,
                {
                    let mut found = false;
                    let mut i: usize = 0;
                    while i < x.len() && !found
                        invariant
                            *self == Yaml::Mapping(*a),
                            *other == Yaml::Mapping(*b),
                            x == a.entries,
                            y == b.entries,
                            x.len() == y.len(),
                            forall|k: int| #![trigger x@[k]] 0 <= k < x.len() ==> has_entry_eq_from(x@[k].0, x@[k].1, y@),
                            forall|k: int| #![trigger y@[k]] 0 <= k < j ==> has_entry_eq_to(x@, y@[k].0, y@[k].1),
                            0 <= j < y.len(),
                            0 <= i <= x.len(),
                            found ==> has_entry_eq_to(x@, y@[j as int].0, y@[j as int].1),
                            !found ==> forall|l: int| 0 <= l < i ==> !(yaml_eq(#[trigger] x@[l].0, y@[j as int].0) && yaml_eq(x@[l].1, y@[j as int].1)),
                        decreases x.len() - i,
                    {
                        proof {
                            assert(decreases_to!(*self => (*self)->Mapping_0));
                            assert(decreases_to!(*a => a.entries));
                            assert(decreases_to!(a.entries => a.entries@));
                            assert(decreases_to!(a.entries@ => a.entries@[i as int]));
                            assert(decreases_to!(x@[i as int] => x@[i as int].0));
                            assert(decreases_to!(x@[i as int] => x@[i as int].1));
                        }
                        if x[i].0.equals(&y[j].0) && x[i].1.equals(&y[j].1) {
                            found = true;
                        }
                        i += 1;
                    }
                    if !found {
                        proof {
                            assert(!has_entry_eq_to(x@, y@[j as int].0, y@[j as int].1));
                            assert(a@ == x@ && b@ == y@ && index_in(b@, j as int));
                        }
                        return false;
                    }
                    j += 1;
                }
                assert(a@ == x@ && b@ == y@);
                assert forall|i: int| #![trigger index_in(a@, i)] index_in(a@, i) implies exists|j: int|
                    #![trigger b@[j]]
                    0 <= j < b@.len() && yaml_eq(a@[i].0, b@[j].0) && yaml_eq(a@[i].1, b@[j].1) by {
                    assert(has_entry_eq_from(x@[i].0, x@[i].1, y@));
                }
                assert forall|j: int| #![trigger index_in(b@, j)] index_in(b@, j) implies exists|i: int|
                    #![trigger a@[i]]
                    0 <= i < a@.len() && yaml_eq(a@[i].0, b@[j].0) && yaml_eq(a@[i].1, b@[j].1) by {
                    assert(has_entry_eq_to(x@, y@[j].0, y@[j].1));
                }
                true
            },
            _ => false,
        }
    }
}

} // verus!
