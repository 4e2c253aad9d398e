//! A style-consistency check over class member declarations: for each class,
//! it decides whether literal-valued members should be written as trivial
//! accessor methods or as plain readonly fields, and flags the members that
//! violate the configured preference.

pub mod ast;
pub mod check;
pub mod classify;
pub mod config;
pub mod keys;
pub mod rule;
pub mod scan;

pub use check::Violation;
pub use rule::ClassLiteralPropertyStyle;
pub use rule::Style;
