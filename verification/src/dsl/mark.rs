//! Which of the library's traits an implementation is marked for.

use vstd::prelude::*;
use crate::dsl::text::{contains_text, occurs};

verus! {

/// The traits whose implementations are held behind a type-erased handle.
#[derive(Debug, Clone, Copy, PartialEq, Eq, Structural)]
pub enum BoxedTypes {
    Residual,
    Variable,
    Noise,
    Robust,
}

/// Why an implementation cannot be marked.
#[derive(Debug, Clone, Copy, PartialEq, Eq, Structural)]
pub enum MarkError {
    /// The `impl` names no trait.
    MissingTrait,
    /// The trait's name holds none of the four words.
    NotAValidTrait,
    /// A variable's `impl` has no generic parameter for its scalar type.
    NoDtypeGeneric,
}

impl MarkError {
    /// The message shown to the user.
    pub fn message(&self) -> (r: &'static str)
        ensures
            r@ == (match *self {
                MarkError::MissingTrait => "Missing trait"@,
                MarkError::NotAValidTrait => "Not a valid trait"@,
                MarkError::NoDtypeGeneric => "variable should have dtype generic"@,
            }),
    {
        match self {
            MarkError::MissingTrait => "Missing trait",
            MarkError::NotAValidTrait => "Not a valid trait",
            MarkError::NoDtypeGeneric => "variable should have dtype generic",
        }
    }
}

/// The kind that a trait's name stands for: the first of `Residual`,
/// `Variable`, `Noise`, `Robust` that occurs in it.
pub open spec fn kind_of(name: Seq<char>) -> Option<BoxedTypes> {
    if occurs(name, "Residual"@) {
        Some(BoxedTypes::Residual)
    } else if occurs(name, "Variable"@) {
        Some(BoxedTypes::Variable)
    } else if occurs(name, "Noise"@) {
        Some(BoxedTypes::Noise)
    } else if occurs(name, "Robust"@) {
        Some(BoxedTypes::Robust)
    } else {
        None
    }
}

/// The kind of the trait that an `impl` is for, from the last segment of the
/// trait's path (`None` where the `impl` names no trait).
pub fn check_type(trait_name: Option<&str>) -> (r: Result<BoxedTypes, MarkError>)
    ensures
        r == (match trait_name {
            None => Err(MarkError::MissingTrait),
            Some(name) => match kind_of(name@) {
                Some(kind) => Ok(kind),
                None => Err(MarkError::NotAValidTrait),
            },
        }),
{
    match trait_name {
        None => Err(MarkError::MissingTrait),
        Some(name) => {
            if contains_text(name, "Residual") {
                Ok(BoxedTypes::Residual)
            } else if contains_text(name, "Variable") {
                Ok(BoxedTypes::Variable)
            } else if contains_text(name, "Noise") {
                Ok(BoxedTypes::Noise)
            } else if contains_text(name, "Robust") {
                Ok(BoxedTypes::Robust)
            } else {
                Err(MarkError::NotAValidTrait)
            }
        },
    }
}

/// Whether a variable's implementation gets its tags written for it: with
/// one generic parameter it does, with more the user writes them, and with
/// none the implementation is refused.
pub fn variable_is_tagged(n_generics: usize) -> (r: Result<bool, MarkError>)
    ensures
        r == (if n_generics == 0 {
            Err(MarkError::NoDtypeGeneric)
        } else {
            Ok(n_generics == 1)
        }),
{
    if n_generics == 0 {
        Err(MarkError::NoDtypeGeneric)
    } else {
        Ok(n_generics == 1)
    }
}

} // verus!
