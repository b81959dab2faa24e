//! Laws of the library: what Verus proves of every configuration.

pub mod rendering;
pub mod validation;
