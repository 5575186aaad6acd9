//! Laws of the equality protocol.
use vstd::prelude::*;

use crate::integer::yaml_eq_int;
use crate::number::{float_eq, float_is_nan};
use crate::value::{index_in, lemma_entry_decreases, yaml_eq, Mapping, Yaml};
use vstd::std_specs::cmp::PartialEqSpec;

verus! {

/// Every value equals itself. (A float NaN stored in a `Number` equals a
/// NaN `Number`, so this holds without exception.)
pub proof fn lemma_eq_reflexive(v: Yaml)
    ensures
        yaml_eq(v, v),
    decreases v,
{
    match v {
        Yaml::Sequence(x) => {
            assert forall|i: int| 0 <= i < x.len() implies yaml_eq(#[trigger] x@[i], x@[i]) by {
                assert(decreases_to!(v => x));
                assert(decreases_to!(x => x@));
                assert(decreases_to!(x@ => x@[i]));
                lemma_eq_reflexive(x@[i]);
            }
        },
        Yaml::Mapping(m) => {
            assert forall|i: int| #![trigger index_in(m@, i)] index_in(m@, i) implies exists|j: int|
                #![trigger m@[j]]
                0 <= j < m@.len() && yaml_eq(m@[i].0, m@[j].0) && yaml_eq(m@[i].1, m@[j].1) by {
                assert(decreases_to!(v => m));
                lemma_entry_decreases(m, i);
                lemma_eq_reflexive(m@[i].0);
                lemma_eq_reflexive(m@[i].1);
            }
            assert forall|j: int| #![trigger index_in(m@, j)] index_in(m@, j) implies exists|i: int|
                #![trigger m@[i]]
                0 <= i < m@.len() && yaml_eq(m@[i].0, m@[j].0) && yaml_eq(m@[i].1, m@[j].1) by {
                assert(decreases_to!(v => m));
                lemma_entry_decreases(m, j);
                lemma_eq_reflexive(m@[j].0);
                lemma_eq_reflexive(m@[j].1);
            }
        },
        _ => {},
    }
}

/// Equality does not depend on the order of its operands.
pub proof fn lemma_eq_symmetric(a: Yaml, b: Yaml)
    ensures
        yaml_eq(a, b) == yaml_eq(b, a),
    decreases a,
{
    match (a, b) {
        (Yaml::Sequence(x), Yaml::Sequence(y)) => {
            assert forall|i: int| 0 <= i < x.len() && i < y.len() implies yaml_eq(
                #[trigger] x@[i],
                y@[i],
            ) == yaml_eq(y@[i], x@[i]) by {
                assert(decreases_to!(a => x));
                assert(decreases_to!(x => x@));
                assert(decreases_to!(x@ => x@[i]));
                lemma_eq_symmetric(x@[i], y@[i]);
            }
        },
        (Yaml::Mapping(m), Yaml::Mapping(n)) => {
            assert forall|i: int, j: int| 0 <= i < m@.len() && 0 <= j < n@.len() implies (yaml_eq(
                #[trigger] m@[i].0,
                #[trigger] n@[j].0,
            ) == yaml_eq(n@[j].0, m@[i].0) && yaml_eq(m@[i].1, n@[j].1) == yaml_eq(
                n@[j].1,
                m@[i].1,
            )) by {
                assert(decreases_to!(a => m));
                lemma_entry_decreases(m, i);
                lemma_eq_symmetric(m@[i].0, n@[j].0);
                lemma_eq_symmetric(m@[i].1, n@[j].1);
            }
        },
        _ => {},
    }
}

/// The variants of `a` and `b` are the same.
pub open spec fn same_variant(a: Yaml, b: Yaml) -> bool {
    match (a, b) {
        (Yaml::Null, Yaml::Null) => true,
        (Yaml::Bool(_), Yaml::Bool(_)) => true,
        (Yaml::Number(_), Yaml::Number(_)) => true,
        (Yaml::String(_), Yaml::String(_)) => true,
        (Yaml::Sequence(_), Yaml::Sequence(_)) => true,
        (Yaml::Mapping(_), Yaml::Mapping(_)) => true,
        _ => false,
    }
}

/// Values of different variants are never equal: there is no coercion
/// between variants.
pub proof fn lemma_variant_mismatch(a: Yaml, b: Yaml)
    requires
        !same_variant(a, b),
    ensures
        !yaml_eq(a, b),
{
}

/// Mappings holding the same entries, in whatever order, are equal.
pub proof fn lemma_mapping_order_insensitive(m: Mapping, n: Mapping)
    requires
        m@.to_multiset() == n@.to_multiset(),
    ensures
        yaml_eq(Yaml::Mapping(m), Yaml::Mapping(n)),
{
    broadcast use vstd::seq_lib::group_to_multiset_ensures;

    assert(m@.len() == m@.to_multiset().len() && n@.len() == n@.to_multiset().len());

    assert forall|i: int| #![trigger index_in(m@, i)] index_in(m@, i) implies exists|j: int|
        #![trigger n@[j]]
        0 <= j < n@.len() && yaml_eq(m@[i].0, n@[j].0) && yaml_eq(m@[i].1, n@[j].1) by {
        assert(m@.contains(m@[i]));
        assert(m@.to_multiset().count(m@[i]) > 0);
        assert(n@.to_multiset().count(m@[i]) > 0);
        assert(n@.contains(m@[i]));
        let j = choose|j: int| 0 <= j < n@.len() && n@[j] == m@[i];
        lemma_eq_reflexive(m@[i].0);
        lemma_eq_reflexive(m@[i].1);
        assert(n@[j] == m@[i]);
    }
    assert forall|j: int| #![trigger index_in(n@, j)] index_in(n@, j) implies exists|i: int|
        #![trigger m@[i]]
        0 <= i < m@.len() && yaml_eq(m@[i].0, n@[j].0) && yaml_eq(m@[i].1, n@[j].1) by {
        assert(n@.contains(n@[j]));
        assert(n@.to_multiset().count(n@[j]) > 0);
        assert(m@.to_multiset().count(n@[j]) > 0);
        assert(m@.contains(n@[j]));
        let i = choose|i: int| 0 <= i < m@.len() && m@[i] == n@[j];
        lemma_eq_reflexive(n@[j].0);
        lemma_eq_reflexive(n@[j].1);
        assert(m@[i] == n@[j]);
    }
}

/// Comparing a value with text gives the same answer with the value on
/// either side, and whether the text is borrowed or owned.
pub proof fn lemma_text_eq_symmetric(v: Yaml, t: &str, s: String)
    ensures
        <Yaml as PartialEqSpec<str>>::eq_spec(&v, t) == <str as PartialEqSpec<Yaml>>::eq_spec(t, &v),
        <Yaml as PartialEqSpec<&str>>::eq_spec(&v, &t) == <&str as PartialEqSpec<Yaml>>::eq_spec(&t, &v),
        <Yaml as PartialEqSpec<String>>::eq_spec(&v, &s) == <String as PartialEqSpec<Yaml>>::eq_spec(&s, &v),
        <Yaml as PartialEqSpec<str>>::eq_spec(&v, t) == <Yaml as PartialEqSpec<&str>>::eq_spec(&v, &t),
        s@ == t@ ==> <Yaml as PartialEqSpec<String>>::eq_spec(&v, &s) == <Yaml as PartialEqSpec<str>>::eq_spec(&v, t),
{
}

/// Comparing a value with a boolean gives the same answer with the value on
/// either side.
pub proof fn lemma_bool_eq_symmetric(v: Yaml, b: bool)
    ensures
        <Yaml as PartialEqSpec<bool>>::eq_spec(&v, &b) == <bool as PartialEqSpec<Yaml>>::eq_spec(&b, &v),
{
}

/// Comparing a value with an integer of any width, with the value on either
/// side or behind a shared reference, gives [`yaml_eq_int`] of the integer's
/// mathematical value: the answer depends on the number alone, never on its
/// width or on the order of the operands.
pub proof fn lemma_integer_eq_widens(v: Yaml, a: i8, b: i16, c: i32, d: i64, e: isize, f: u8, g: u16, h: u32, k: usize)
    ensures
        <Yaml as PartialEqSpec<i8>>::eq_spec(&v, &a) == yaml_eq_int(v, a as int),
        <i8 as PartialEqSpec<Yaml>>::eq_spec(&a, &v) == yaml_eq_int(v, a as int),
        <&Yaml as PartialEqSpec<i8>>::eq_spec(&&v, &a) == yaml_eq_int(v, a as int),
        <Yaml as PartialEqSpec<i16>>::eq_spec(&v, &b) == yaml_eq_int(v, b as int),
        <i16 as PartialEqSpec<Yaml>>::eq_spec(&b, &v) == yaml_eq_int(v, b as int),
        <&Yaml as PartialEqSpec<i16>>::eq_spec(&&v, &b) == yaml_eq_int(v, b as int),
        <Yaml as PartialEqSpec<i32>>::eq_spec(&v, &c) == yaml_eq_int(v, c as int),
        <i32 as PartialEqSpec<Yaml>>::eq_spec(&c, &v) == yaml_eq_int(v, c as int),
        <&Yaml as PartialEqSpec<i32>>::eq_spec(&&v, &c) == yaml_eq_int(v, c as int),
        <Yaml as PartialEqSpec<i64>>::eq_spec(&v, &d) == yaml_eq_int(v, d as int),
        <i64 as PartialEqSpec<Yaml>>::eq_spec(&d, &v) == yaml_eq_int(v, d as int),
        <&Yaml as PartialEqSpec<i64>>::eq_spec(&&v, &d) == yaml_eq_int(v, d as int),
        <Yaml as PartialEqSpec<isize>>::eq_spec(&v, &e) == yaml_eq_int(v, e as int),
        <isize as PartialEqSpec<Yaml>>::eq_spec(&e, &v) == yaml_eq_int(v, e as int),
        <&Yaml as PartialEqSpec<isize>>::eq_spec(&&v, &e) == yaml_eq_int(v, e as int),
        <Yaml as PartialEqSpec<u8>>::eq_spec(&v, &f) == yaml_eq_int(v, f as int),
        <u8 as PartialEqSpec<Yaml>>::eq_spec(&f, &v) == yaml_eq_int(v, f as int),
        <&Yaml as PartialEqSpec<u8>>::eq_spec(&&v, &f) == yaml_eq_int(v, f as int),
        <Yaml as PartialEqSpec<u16>>::eq_spec(&v, &g) == yaml_eq_int(v, g as int),
        <u16 as PartialEqSpec<Yaml>>::eq_spec(&g, &v) == yaml_eq_int(v, g as int),
        <&Yaml as PartialEqSpec<u16>>::eq_spec(&&v, &g) == yaml_eq_int(v, g as int),
        <Yaml as PartialEqSpec<u32>>::eq_spec(&v, &h) == yaml_eq_int(v, h as int),
        <u32 as PartialEqSpec<Yaml>>::eq_spec(&h, &v) == yaml_eq_int(v, h as int),
        <&Yaml as PartialEqSpec<u32>>::eq_spec(&&v, &h) == yaml_eq_int(v, h as int),
        <Yaml as PartialEqSpec<usize>>::eq_spec(&v, &k) == yaml_eq_int(v, k as int),
        <usize as PartialEqSpec<Yaml>>::eq_spec(&k, &v) == yaml_eq_int(v, k as int),
        <&Yaml as PartialEqSpec<usize>>::eq_spec(&&v, &k) == yaml_eq_int(v, k as int),
{
}

/// A float encoding that is a NaN equals no float encoding, itself
/// included, on either side.
pub proof fn lemma_nan_equals_nothing(a: u64, b: u64)
    requires
        float_is_nan(a),
    ensures
        !float_eq(a, b),
        !float_eq(b, a),
{
}

} // verus!
