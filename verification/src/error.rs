//! What can go wrong while a derivation is prepared.

use vstd::prelude::*;

verus! {

/// Why an attribute could not be understood.
#[derive(Clone, Copy, Debug, PartialEq, Eq, Structural)]
pub enum ConfigErrorKind {
    /// An item of the list is empty, or is not written the way its place asks for.
    MalformedOption,
    /// An item begins with a key that is not known.
    UnknownKey,
    /// The value of `impl_gen` is not a list of generic parameters.
    MalformedGenerics,
    /// The value of `type_gen` is not a list of generic arguments.
    MalformedArguments,
    /// The value of `bound` is not a list of constraints.
    MalformedConstraints,
    /// A discriminant is not an integer literal.
    MalformedDiscriminant,
    /// A discriminant that is one more than its predecessor cannot be represented.
    DiscriminantOverflow,
}

/// A fault in a list of attributes: which attribute of the list, which item in it, and why.
#[derive(Clone, Copy, Debug, PartialEq, Eq, Structural)]
pub struct ConfigError {
    pub kind: ConfigErrorKind,
    pub attribute: usize,
    pub item: usize,
}

/// The part of a type definition that a fault was found on.
#[derive(Clone, Copy, Debug, PartialEq, Eq, Structural)]
pub enum Site {
    /// The type itself.
    Type,
    /// The variant at this position.
    Variant(usize),
    /// The field at the second position, in the variant at the first (0 for a struct).
    Field(usize, usize),
}

/// Why nothing was derived.
#[derive(Clone, Copy, Debug, PartialEq, Eq, Structural)]
pub enum DeriveError {
    /// An attribute or a discriminant on the given site could not be understood.
    Config(Site, ConfigError),
    /// The type is an untagged union.
    UnsupportedShape,
}

/// The mathematical value of a result: that of what it holds on success, the error as
/// it is.
pub open spec fn result_view<T: DeepView, E>(result: Result<T, E>) -> Result<T::V, E> {
    match result {
        Ok(value) => Ok(value.deep_view()),
        Err(fault) => Err(fault),
    }
}

} // verus!
