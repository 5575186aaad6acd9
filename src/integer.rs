//! Equality between a value and an integer of any width.
use vstd::prelude::*;

use crate::number::Number;
use crate::value::Yaml;

verus! {

/// A value equals an integer when it is a `Number` stored as an integer
/// with the same mathematical value. Every integer width is compared
/// exactly: nothing is truncated, so an unsigned value above `i64::MAX`
/// equals no value.
pub open spec fn yaml_eq_int(v: Yaml, n: int) -> bool {
    match v {
        Yaml::Number(Number::Int(i)) => i == n,
        _ => false,
    }
}

impl Yaml {
    /// Decides [`yaml_eq_int`]; `n` is any integer widened to `i128`.
    pub fn eq_integer(&self, n: i128) -> (r: bool)
        ensures
            r == yaml_eq_int(*self, n as int),
    {
        match self.as_i64() {
            Some(i) => i as i128 == n,
            None => false,
        }
    }
}

impl PartialEq<i8> for Yaml {
    fn eq(&self, other: &i8) -> (r: bool) {
        self.eq_integer(*other as i128)
    }
}

impl vstd::std_specs::cmp::PartialEqSpecImpl<i8> for Yaml {
    open spec fn obeys_eq_spec() -> bool {
        true
    }

    open spec fn eq_spec(&self, other: &i8) -> bool {
        yaml_eq_int(*self, *other as int)
    }
}

impl PartialEq<Yaml> for i8 {
    fn eq(&self, other: &Yaml) -> (r: bool) {
        other.eq_integer(*self as i128)
    }
}

impl vstd::std_specs::cmp::PartialEqSpecImpl<Yaml> for i8 {
    open spec fn obeys_eq_spec() -> bool {
        true
    }

    open spec fn eq_spec(&self, other: &Yaml) -> bool {
        yaml_eq_int(*other, *self as int)
    }
}

impl<'a> PartialEq<i8> for &'a Yaml {
    fn eq(&self, other: &i8) -> (r: bool) {
        (**self).eq_integer(*other as i128)
    }
}

impl<'a> vstd::std_specs::cmp::PartialEqSpecImpl<i8> for &'a Yaml {
    open spec fn obeys_eq_spec() -> bool {
        true
    }

    open spec fn eq_spec(&self, other: &i8) -> bool {
        yaml_eq_int(**self, *other as int)
    }
}

impl<'a> PartialEq<i8> for &'a mut Yaml {
    fn eq(&self, other: &i8) -> (r: bool) {
        (**self).eq_integer(*other as i128)
    }
}

impl<'a> vstd::std_specs::cmp::PartialEqSpecImpl<i8> for &'a mut Yaml {
    open spec fn obeys_eq_spec() -> bool {
        true
    }

    open spec fn eq_spec(&self, other: &i8) -> bool {
        yaml_eq_int(**self, *other as int)
    }
}

impl PartialEq<i16> for Yaml {
    fn eq(&self, other: &i16) -> (r: bool) {
        self.eq_integer(*other as i128)
    }
}

impl vstd::std_specs::cmp::PartialEqSpecImpl<i16> for Yaml {
    open spec fn obeys_eq_spec() -> bool {
        true
    }

    open spec fn eq_spec(&self, other: &i16) -> bool {
        yaml_eq_int(*self, *other as int)
    }
}

impl PartialEq<Yaml> for i16 {
    fn eq(&self, other: &Yaml) -> (r: bool) {
        other.eq_integer(*self as i128)
    }
}

impl vstd::std_specs::cmp::PartialEqSpecImpl<Yaml> for i16 {
    open spec fn obeys_eq_spec() -> bool {
        true
    }

    open spec fn eq_spec(&self, other: &Yaml) -> bool {
        yaml_eq_int(*other, *self as int)
    }
}

impl<'a> PartialEq<i16> for &'a Yaml {
    fn eq(&self, other: &i16) -> (r: bool) {
        (**self).eq_integer(*other as i128)
    }
}

impl<'a> vstd::std_specs::cmp::PartialEqSpecImpl<i16> for &'a Yaml {
    open spec fn obeys_eq_spec() -> bool {
        true
    }

    open spec fn eq_spec(&self, other: &i16) -> bool {
        yaml_eq_int(**self, *other as int)
    }
}

impl<'a> PartialEq<i16> for &'a mut Yaml {
    fn eq(&self, other: &i16) -> (r: bool) {
        (**self).eq_integer(*other as i128)
    }
}

impl<'a> vstd::std_specs::cmp::PartialEqSpecImpl<i16> for &'a mut Yaml {
    open spec fn obeys_eq_spec() -> bool {
        true
    }

    open spec fn eq_spec(&self, other: &i16) -> bool {
        yaml_eq_int(**self, *other as int)
    }
}

impl PartialEq<i32> for Yaml {
    fn eq(&self, other: &i32) -> (r: bool) {
        self.eq_integer(*other as i128)
    }
}

impl vstd::std_specs::cmp::PartialEqSpecImpl<i32> for Yaml {
    open spec fn obeys_eq_spec() -> bool {
        true
    }

    open spec fn eq_spec(&self, other: &i32) -> bool {
        yaml_eq_int(*self, *other as int)
    }
}

impl PartialEq<Yaml> for i32 {
    fn eq(&self, other: &Yaml) -> (r: bool) {
        other.eq_integer(*self as i128)
    }
}

impl vstd::std_specs::cmp::PartialEqSpecImpl<Yaml> for i32 {
    open spec fn obeys_eq_spec() -> bool {
        true
    }

    open spec fn eq_spec(&self, other: &Yaml) -> bool {
        yaml_eq_int(*other, *self as int)
    }
}

impl<'a> PartialEq<i32> for &'a Yaml {
    fn eq(&self, other: &i32) -> (r: bool) {
        (**self).eq_integer(*other as i128)
    }
}

impl<'a> vstd::std_specs::cmp::PartialEqSpecImpl<i32> for &'a Yaml {
    open spec fn obeys_eq_spec() -> bool {
        true
    }

    open spec fn eq_spec(&self, other: &i32) -> bool {
        yaml_eq_int(**self, *other as int)
    }
}

impl<'a> PartialEq<i32> for &'a mut Yaml {
    fn eq(&self, other: &i32) -> (r: bool) {
        (**self).eq_integer(*other as i128)
    }
}

impl<'a> vstd::std_specs::cmp::PartialEqSpecImpl<i32> for &'a mut Yaml {
    open spec fn obeys_eq_spec() -> bool {
        true
    }

    open spec fn eq_spec(&self, other: &i32) -> bool {
        yaml_eq_int(**self, *other as int)
    }
}

impl PartialEq<i64> for Yaml {
    fn eq(&self, other: &i64) -> (r: bool) {
        self.eq_integer(*other as i128)
    }
}

impl vstd::std_specs::cmp::PartialEqSpecImpl<i64> for Yaml {
    open spec fn obeys_eq_spec() -> bool {
        true
    }

    open spec fn eq_spec(&self, other: &i64) -> bool {
        yaml_eq_int(*self, *other as int)
    }
}

impl PartialEq<Yaml> for i64 {
    fn eq(&self, other: &Yaml) -> (r: bool) {
        other.eq_integer(*self as i128)
    }
}

impl vstd::std_specs::cmp::PartialEqSpecImpl<Yaml> for i64 {
    open spec fn obeys_eq_spec() -> bool {
        true
    }

    open spec fn eq_spec(&self, other: &Yaml) -> bool {
        yaml_eq_int(*other, *self as int)
    }
}

impl<'a> PartialEq<i64> for &'a Yaml {
    fn eq(&self, other: &i64) -> (r: bool) {
        (**self).eq_integer(*other as i128)
    }
}

impl<'a> vstd::std_specs::cmp::PartialEqSpecImpl<i64> for &'a Yaml {
    open spec fn obeys_eq_spec() -> bool {
        true
    }

    open spec fn eq_spec(&self, other: &i64) -> bool {
        yaml_eq_int(**self, *other as int)
    }
}

impl<'a> PartialEq<i64> for &'a mut Yaml {
    fn eq(&self, other: &i64) -> (r: bool) {
        (**self).eq_integer(*other as i128)
    }
}

impl<'a> vstd::std_specs::cmp::PartialEqSpecImpl<i64> for &'a mut Yaml {
    open spec fn obeys_eq_spec() -> bool {
        true
    }

    open spec fn eq_spec(&self, other: &i64) -> bool {
        yaml_eq_int(**self, *other as int)
    }
}

impl PartialEq<isize> for Yaml {
    fn eq(&self, other: &isize) -> (r: bool) {
        self.eq_integer(*other as i128)
    }
}

impl vstd::std_specs::cmp::PartialEqSpecImpl<isize> for Yaml {
    open spec fn obeys_eq_spec() -> bool {
        true
    }

    open spec fn eq_spec(&self, other: &isize) -> bool {
        yaml_eq_int(*self, *other as int)
    }
}

impl PartialEq<Yaml> for isize {
    fn eq(&self, other: &Yaml) -> (r: bool) {
        other.eq_integer(*self as i128)
    }
}

impl vstd::std_specs::cmp::PartialEqSpecImpl<Yaml> for isize {
    open spec fn obeys_eq_spec() -> bool {
        true
    }

    open spec fn eq_spec(&self, other: &Yaml) -> bool {
        yaml_eq_int(*other, *self as int)
    }
}

impl<'a> PartialEq<isize> for &'a Yaml {
    fn eq(&self, other: &isize) -> (r: bool) {
        (**self).eq_integer(*other as i128)
    }
}

impl<'a> vstd::std_specs::cmp::PartialEqSpecImpl<isize> for &'a Yaml {
    open spec fn obeys_eq_spec() -> bool {
        true
    }

    open spec fn eq_spec(&self, other: &isize) -> bool {
        yaml_eq_int(**self, *other as int)
    }
}

impl<'a> PartialEq<isize> for &'a mut Yaml {
    fn eq(&self, other: &isize) -> (r: bool) {
        (**self).eq_integer(*other as i128)
    }
}

impl<'a> vstd::std_specs::cmp::PartialEqSpecImpl<isize> for &'a mut Yaml {
    open spec fn obeys_eq_spec() -> bool {
        true
    }

    open spec fn eq_spec(&self, other: &isize) -> bool {
        yaml_eq_int(**self, *other as int)
    }
}

impl PartialEq<u8> for Yaml {
    fn eq(&self, other: &u8) -> (r: bool) {
        self.eq_integer(*other as i128)
    }
}

impl vstd::std_specs::cmp::PartialEqSpecImpl<u8> for Yaml {
    open spec fn obeys_eq_spec() -> bool {
        true
    }

    open spec fn eq_spec(&self, other: &u8) -> bool {
        yaml_eq_int(*self, *other as int)
    }
}

impl PartialEq<Yaml> for u8 {
    fn eq(&self, other: &Yaml) -> (r: bool) {
        other.eq_integer(*self as i128)
    }
}

impl vstd::std_specs::cmp::PartialEqSpecImpl<Yaml> for u8 {
    open spec fn obeys_eq_spec() -> bool {
        true
    }

    open spec fn eq_spec(&self, other: &Yaml) -> bool {
        yaml_eq_int(*other, *self as int)
    }
}

impl<'a> PartialEq<u8> for &'a Yaml {
    fn eq(&self, other: &u8) -> (r: bool) {
        (**self).eq_integer(*other as i128)
    }
}

impl<'a> vstd::std_specs::cmp::PartialEqSpecImpl<u8> for &'a Yaml {
    open spec fn obeys_eq_spec() -> bool {
        true
    }

    open spec fn eq_spec(&self, other: &u8) -> bool {
        yaml_eq_int(**self, *other as int)
    }
}

impl<'a> PartialEq<u8> for &'a mut Yaml {
    fn eq(&self, other: &u8) -> (r: bool) {
        (**self).eq_integer(*other as i128)
    }
}

impl<'a> vstd::std_specs::cmp::PartialEqSpecImpl<u8> for &'a mut Yaml {
    open spec fn obeys_eq_spec() -> bool {
        true
    }

    open spec fn eq_spec(&self, other: &u8) -> bool {
        yaml_eq_int(**self, *other as int)
    }
}

impl PartialEq<u16> for Yaml {
    fn eq(&self, other: &u16) -> (r: bool) {
        self.eq_integer(*other as i128)
    }
}

impl vstd::std_specs::cmp::PartialEqSpecImpl<u16> for Yaml {
    open spec fn obeys_eq_spec() -> bool {
        true
    }

    open spec fn eq_spec(&self, other: &u16) -> bool {
        yaml_eq_int(*self, *other as int)
    }
}

impl PartialEq<Yaml> for u16 {
    fn eq(&self, other: &Yaml) -> (r: bool) {
        other.eq_integer(*self as i128)
    }
}

impl vstd::std_specs::cmp::PartialEqSpecImpl<Yaml> for u16 {
    open spec fn obeys_eq_spec() -> bool {
        true
    }

    open spec fn eq_spec(&self, other: &Yaml) -> bool {
        yaml_eq_int(*other, *self as int)
    }
}

impl<'a> PartialEq<u16> for &'a Yaml {
    fn eq(&self, other: &u16) -> (r: bool) {
        (**self).eq_integer(*other as i128)
    }
}

impl<'a> vstd::std_specs::cmp::PartialEqSpecImpl<u16> for &'a Yaml {
    open spec fn obeys_eq_spec() -> bool {
        true
    }

    open spec fn eq_spec(&self, other: &u16) -> bool {
        yaml_eq_int(**self, *other as int)
    }
}

impl<'a> PartialEq<u16> for &'a mut Yaml {
    fn eq(&self, other: &u16) -> (r: bool) {
        (**self).eq_integer(*other as i128)
    }
}

impl<'a> vstd::std_specs::cmp::PartialEqSpecImpl<u16> for &'a mut Yaml {
    open spec fn obeys_eq_spec() -> bool {
        true
    }

    open spec fn eq_spec(&self, other: &u16) -> bool {
        yaml_eq_int(**self, *other as int)
    }
}

impl PartialEq<u32> for Yaml {
    fn eq(&self, other: &u32) -> (r: bool) {
        self.eq_integer(*other as i128)
    }
}

impl vstd::std_specs::cmp::PartialEqSpecImpl<u32> for Yaml {
    open spec fn obeys_eq_spec() -> bool {
        true
    }

    open spec fn eq_spec(&self, other: &u32) -> bool {
        yaml_eq_int(*self, *other as int)
    }
}

impl PartialEq<Yaml> for u32 {
    fn eq(&self, other: &Yaml) -> (r: bool) {
        other.eq_integer(*self as i128)
    }
}

impl vstd::std_specs::cmp::PartialEqSpecImpl<Yaml> for u32 {
    open spec fn obeys_eq_spec() -> bool {
        true
    }

    open spec fn eq_spec(&self, other: &Yaml) -> bool {
        yaml_eq_int(*other, *self as int)
    }
}

impl<'a> PartialEq<u32> for &'a Yaml {
    fn eq(&self, other: &u32) -> (r: bool) {
        (**self).eq_integer(*other as i128)
    }
}

impl<'a> vstd::std_specs::cmp::PartialEqSpecImpl<u32> for &'a Yaml {
    open spec fn obeys_eq_spec() -> bool {
        true
    }

    open spec fn eq_spec(&self, other: &u32) -> bool {
        yaml_eq_int(**self, *other as int)
    }
}

impl<'a> PartialEq<u32> for &'a mut Yaml {
    fn eq(&self, other: &u32) -> (r: bool) {
        (**self).eq_integer(*other as i128)
    }
}

impl<'a> vstd::std_specs::cmp::PartialEqSpecImpl<u32> for &'a mut Yaml {
    open spec fn obeys_eq_spec() -> bool {
        true
    }

    open spec fn eq_spec(&self, other: &u32) -> bool {
        yaml_eq_int(**self, *other as int)
    }
}

impl PartialEq<usize> for Yaml {
    fn eq(&self, other: &usize) -> (r: bool) {
        self.eq_integer(*other as i128)
    }
}

impl vstd::std_specs::cmp::PartialEqSpecImpl<usize> for Yaml {
    open spec fn obeys_eq_spec() -> bool {
        true
    }

    open spec fn eq_spec(&self, other: &usize) -> bool {
        yaml_eq_int(*self, *other as int)
    }
}

impl PartialEq<Yaml> for usize {
    fn eq(&self, other: &Yaml) -> (r: bool) {
        other.eq_integer(*self as i128)
    }
}

impl vstd::std_specs::cmp::PartialEqSpecImpl<Yaml> for usize {
    open spec fn obeys_eq_spec() -> bool {
        true
    }

    open spec fn eq_spec(&self, other: &Yaml) -> bool {
        yaml_eq_int(*other, *self as int)
    }
}

impl<'a> PartialEq<usize> for &'a Yaml {
    fn eq(&self, other: &usize) -> (r: bool) {
        (**self).eq_integer(*other as i128)
    }
}

impl<'a> vstd::std_specs::cmp::PartialEqSpecImpl<usize> for &'a Yaml {
    open spec fn obeys_eq_spec() -> bool {
        true
    }

    open spec fn eq_spec(&self, other: &usize) -> bool {
        yaml_eq_int(**self, *other as int)
    }
}

impl<'a> PartialEq<usize> for &'a mut Yaml {
    fn eq(&self, other: &usize) -> (r: bool) {
        (**self).eq_integer(*other as i128)
    }
}

impl<'a> vstd::std_specs::cmp::PartialEqSpecImpl<usize> for &'a mut Yaml {
    open spec fn obeys_eq_spec() -> bool {
        true
    }

    open spec fn eq_spec(&self, other: &usize) -> bool {
        yaml_eq_int(**self, *other as int)
    }
}

} // verus!
