//! Typed configuration of a bitcoind service, its validation rules, and
//! its rendering as a Nix attribute set.
//!
//! - [`models`] holds the configuration and its parts, each with a view
//!   that the contracts speak of.
//! - [`validation`] holds the rules of the fields and the check that
//!   reports every rule a configuration breaks.
//! - [`bitcoind`] writes a configuration as Nix, line by line, and hands
//!   the text to the formatter.
//! - [`formatter`] is the door to the Nix formatter.
//! - [`utils`] holds the line buffer and the decimal numerals.
//! - [`laws`] holds what is proved of every configuration.

pub mod bitcoind;
pub mod formatter;
pub mod laws;
pub mod models;
pub mod utils;
pub mod validation;
