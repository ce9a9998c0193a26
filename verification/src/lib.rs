//! Derivation of structural capabilities for data types.
//!
//! Given the description of a struct or an enum, this crate writes implementations of
//! `Clone`, `Copy`, `Debug`, `Eq`, `PartialEq`, `Ord`, `PartialOrd`, `Hash` and
//! `Serialize` that ask their capability of the types of the *fields*, not of the
//! type's generic parameters: a parameter that only occurs inside a marker such as
//! `PhantomData<T>` is left unconstrained.
//!
//! A derivation runs in four steps:
//!
//! 1. [`attrs`] reads the attributes: `#[name(skip)]` on fields and variants, and
//!    `impl_gen = <..>`, `type_gen = <..>` and `bound = (..)` on the type, where `name`
//!    is the keyword of the capability or `better_derive`.
//! 2. [`filter`] leaves out what is skipped.
//! 3. [`generics`] infers the generic signature of the implementation,
//!    from all fields, skipped or not.
//! 4. The capability's own module builds the body over the fields that are left
//!    ([`plan`]), writes it as Rust code ([`emit`]), and says what the code does when it
//!    runs (`evaluate`).
//!
//! Every function is verified against a contract over mathematical values; [`laws`]
//! holds what is proved of the derived implementations together. Text is lexed by
//! `proc_macro2` and the values of the type's options are parsed by `syn`
//! ([`token`], [`grammar`]); those calls are taken on trust.

pub mod attrs;
pub mod capability;
pub mod clone;
pub mod common;
pub mod copy;
pub mod debug;
pub mod discriminant;
pub mod emit;
pub mod eq;
pub mod error;
pub mod extract;
pub mod filter;
pub mod generics;
pub mod grammar;
pub mod hash;
pub mod laws;
pub mod model;
pub mod ord;
pub mod partial_eq;
pub mod partial_ord;
pub mod plan;
pub mod selection;
pub mod serialize;
pub mod text;
pub mod token;
pub mod words;

pub use crate::debug::debug;
