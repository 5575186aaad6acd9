//! A dynamically typed document value and its equality protocol.
//!
//! Two [`Yaml`] values compare structurally. A value also compares
//! directly with a boolean, with an integer of any width, and with text,
//! owned or borrowed, with the value on either side of `==`.
use vstd::prelude::*;

pub mod number;
pub mod value;
pub mod partial_eq;
pub mod integer;
pub mod laws;

pub use number::Number;
pub use value::{Mapping, Yaml};
