//! The signature that inference gives when no attribute is read.

use vstd::prelude::*;
use vstd::string::*;
use crate::attrs::AttributeConfig;
use crate::attrs::no_config;
use crate::error::DeriveError;
use crate::error::result_view;
use crate::generics::ImplGen;
use crate::generics::infer_generics;
use crate::generics::signature;
use crate::generics::TypeGen;
use crate::generics::WhereClause;
use crate::model::TypeDefinition;

verus! {

/// Collects the generic signature of the implementation of `target` for `input` from the
/// type alone: its own parameters, each passed on as an argument, and a constraint for
/// each field whose type mentions a type parameter.
pub fn extract_generics(input: &TypeDefinition, target: &str) -> (r: Result<
    (ImplGen, TypeGen, WhereClause),
    DeriveError,
>)
    ensures
        result_view(r) == signature(no_config(), input.deep_view(), target@),
{
    infer_generics(&AttributeConfig::new(), input, target)
}

} // verus!
