//! Equality between values, and between a value and text or a boolean.
use vstd::prelude::*;

use crate::value::{yaml_eq, Yaml};

verus! {

/// A value equals text when it is a `String` holding exactly those
/// characters; no other variant equals any text.
pub open spec fn yaml_eq_text(v: Yaml, t: Seq<char>) -> bool {
    match v {
        Yaml::String(s) => s@ == t,
        _ => false,
    }
}

/// A value equals a boolean when it is a `Bool` holding it.
pub open spec fn yaml_eq_bool(v: Yaml, b: bool) -> bool {
    match v {
        Yaml::Bool(x) => x == b,
        _ => false,
    }
}

/// Relies on `str`'s `PartialEq::eq`: two string slices are equal exactly
/// when they hold the same characters.
pub assume_specification[ <str as PartialEq>::eq ](a: &str, b: &str) -> (r: bool)
    ensures
        r == (a@ == b@),
;

impl Yaml {
    /// Decides [`yaml_eq_text`].
    pub fn eq_text(&self, t: &str) -> (r: bool)
        ensures
            r == yaml_eq_text(*self, t@),
    {
        match self.as_str() {
            Some(s) => <str as PartialEq>::eq(s, t),
            None => false,
        }
    }

    /// Decides [`yaml_eq_bool`].
    pub fn eq_bool(&self, b: bool) -> (r: bool)
        ensures
            r == yaml_eq_bool(*self, b),
    {
        match self.as_bool() {
            Some(x) => x == b,
            None => false,
        }
    }
}

impl PartialEq for Yaml {
    fn eq(&self, other: &Yaml) -> (r: bool) {
        self.equals(other)
    }
}

impl vstd::std_specs::cmp::PartialEqSpecImpl for Yaml {
    open spec fn obeys_eq_spec() -> bool {
        true
    }

    open spec fn eq_spec(&self, other: &Yaml) -> bool {
        yaml_eq(*self, *other)
    }
}

impl PartialEq<str> for Yaml {
    fn eq(&self, other: &str) -> (r: bool) {
        self.eq_text(other)
    }
}

impl vstd::std_specs::cmp::PartialEqSpecImpl<str> for Yaml {
    open spec fn obeys_eq_spec() -> bool {
        true
    }

    open spec fn eq_spec(&self, other: &str) -> bool {
        yaml_eq_text(*self, other@)
    }
}

impl<'a> PartialEq<&'a str> for Yaml {
    fn eq(&self, other: &&'a str) -> (r: bool) {
        self.eq_text(*other)
    }
}

impl<'a> vstd::std_specs::cmp::PartialEqSpecImpl<&'a str> for Yaml {
    open spec fn obeys_eq_spec() -> bool {
        true
    }

    open spec fn eq_spec(&self, other: &&'a str) -> bool {
        yaml_eq_text(*self, (*other)@)
    }
}

impl PartialEq<String> for Yaml {
    fn eq(&self, other: &String) -> (r: bool) {
        self.eq_text(other.as_str())
    }
}

impl vstd::std_specs::cmp::PartialEqSpecImpl<String> for Yaml {
    open spec fn obeys_eq_spec() -> bool {
        true
    }

    open spec fn eq_spec(&self, other: &String) -> bool {
        yaml_eq_text(*self, other@)
    }
}

impl PartialEq<Yaml> for str {
    fn eq(&self, other: &Yaml) -> (r: bool) {
        other.eq_text(self)
    }
}

impl vstd::std_specs::cmp::PartialEqSpecImpl<Yaml> for str {
    open spec fn obeys_eq_spec() -> bool {
        true
    }

    open spec fn eq_spec(&self, other: &Yaml) -> bool {
        yaml_eq_text(*other, self@)
    }
}

impl<'a> PartialEq<Yaml> for &'a str {
    fn eq(&self, other: &Yaml) -> (r: bool) {
        other.eq_text(*self)
    }
}

impl<'a> vstd::std_specs::cmp::PartialEqSpecImpl<Yaml> for &'a str {
    open spec fn obeys_eq_spec() -> bool {
        true
    }

    open spec fn eq_spec(&self, other: &Yaml) -> bool {
        yaml_eq_text(*other, (*self)@)
    }
}

impl PartialEq<Yaml> for String {
    fn eq(&self, other: &Yaml) -> (r: bool) {
        other.eq_text(self.as_str())
    }
}

impl vstd::std_specs::cmp::PartialEqSpecImpl<Yaml> for String {
    open spec fn obeys_eq_spec() -> bool {
        true
    }

    open spec fn eq_spec(&self, other: &Yaml) -> bool {
        yaml_eq_text(*other, self@)
    }
}

impl PartialEq<bool> for Yaml {
    fn eq(&self, other: &bool) -> (r: bool) {
        self.eq_bool(*other)
    }
}

impl vstd::std_specs::cmp::PartialEqSpecImpl<bool> for Yaml {
    open spec fn obeys_eq_spec() -> bool {
        true
    }

    open spec fn eq_spec(&self, other: &bool) -> bool {
        yaml_eq_bool(*self, *other)
    }
}

impl PartialEq<Yaml> for bool {
    fn eq(&self, other: &Yaml) -> (r: bool) {
        other.eq_bool(*self)
    }
}

impl vstd::std_specs::cmp::PartialEqSpecImpl<Yaml> for bool {
    open spec fn obeys_eq_spec() -> bool {
        true
    }

    open spec fn eq_spec(&self, other: &Yaml) -> bool {
        yaml_eq_bool(*other, *self)
    }
}

} // verus!
