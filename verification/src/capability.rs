//! The capabilities that can be derived: for each, the keyword of the attributes that
//! its derivation listens to, and the path of the trait that it implements.

use vstd::prelude::*;

verus! {

pub const CLONE_ATTR_NAME: &'static str = "clone";

pub const CLONE_TARGET: &'static str = "::std::clone::Clone";

pub const COPY_ATTR_NAME: &'static str = "copy";

pub const COPY_TARGET: &'static str = "::std::marker::Copy";

pub const DEBUG_ATTR_NAME: &'static str = "debug";

pub const DEBUG_TARGET: &'static str = "::std::fmt::Debug";

pub const EQ_ATTR_NAME: &'static str = "eq";

pub const EQ_TARGET: &'static str = "::std::cmp::Eq";

pub const HASH_ATTR_NAME: &'static str = "hash";

pub const HASH_TARGET: &'static str = "::std::hash::Hash";

pub const ORD_ATTR_NAME: &'static str = "ord";

pub const ORD_TARGET: &'static str = "::std::cmp::Ord";

pub const PARTIAL_EQ_ATTR_NAME: &'static str = "partial_eq";

pub const PARTIAL_EQ_TARGET: &'static str = "::std::cmp::PartialEq";

pub const PARTIAL_ORD_ATTR_NAME: &'static str = "partial_ord";

pub const PARTIAL_ORD_TARGET: &'static str = "::std::cmp::PartialOrd";

pub const SERIALIZE_ATTR_NAME: &'static str = "serialize";

pub const SERIALIZE_TARGET: &'static str = "::serde::Serialize";

} // verus!
