//! Compile-time analysis of a record definition: metadata wrappers that
//! attach a resolved name and a matched marker to a field, a first-match
//! field locator, and a driver that turns the located field into a
//! description of the delegation code to generate.

pub mod fields;
pub mod types;
pub mod attribute;
pub mod generate;
