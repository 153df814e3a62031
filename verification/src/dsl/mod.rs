//! The rules of the factor-construction shorthand and of the marking of
//! trait implementations, on what a macro reads of its input.

pub mod fac;
pub mod mark;
pub mod text;
