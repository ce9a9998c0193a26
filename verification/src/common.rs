//! What all derivations share: the head of an implementation, and the way from a type's
//! description to the plan that a body is built over.

use vstd::prelude::*;
use vstd::string::*;
pub use crate::attrs::COMMON_ATTR_NAME;
use crate::discriminant::discriminants_of;
use crate::discriminant::resolve_discriminants;
use crate::error::DeriveError;
use crate::error::result_view;
pub use crate::filter::filter_skipped_variants_and_fields;
use crate::filter::filtered;
pub use crate::generics::extract_generics;
use crate::generics::extracted;
pub use crate::generics::ImplGen;
pub use crate::generics::TypeGen;
pub use crate::generics::WhereClause;
use crate::model::ConstraintView;
use crate::model::Data;
use crate::model::DataView;
use crate::model::GenericParameterView;
use crate::model::TypeDefinition;
use crate::model::TypeDefinitionView;
use crate::plan::build_plan;
use crate::plan::Plan;
use crate::plan::plan_of;
use crate::plan::PlanView;

verus! {

/// The head of an implementation: the type's name and the generic signature.
#[derive(Clone, Debug, PartialEq, Eq)]
pub struct Header {
    pub name: String,
    pub impl_gen: ImplGen,
    pub ty_gen: TypeGen,
    pub where_clause: WhereClause,
}

/// The mathematical value of a [`Header`].
pub struct HeaderView {
    pub name: Seq<char>,
    pub impl_gen: Seq<GenericParameterView>,
    pub ty_gen: Seq<Seq<char>>,
    pub where_clause: Seq<ConstraintView>,
}

impl DeepView for Header {
    type V = HeaderView;

    open spec fn deep_view(&self) -> HeaderView {
        HeaderView {
            name: self.name@,
            impl_gen: self.impl_gen.deep_view(),
            ty_gen: self.ty_gen.deep_view(),
            where_clause: self.where_clause.deep_view(),
        }
    }
}

/// The head of the implementation of `target` for `input`, as a derivation that listens
/// to `base` makes it; or why it makes none.
pub open spec fn header_of(base: Seq<char>, target: Seq<char>, input: TypeDefinitionView) -> Result<
    HeaderView,
    DeriveError,
> {
    match extracted(base, input.attrs, input, target) {
        Err(fault) => Err(fault),
        Ok((params, args, constraints)) => Ok(
            HeaderView {
                name: input.name,
                impl_gen: params,
                ty_gen: args,
                where_clause: constraints,
            },
        ),
    }
}

/// The head and the plan of a derivation that listens to `base`: the plan is over what
/// the filter keeps, the signature is inferred from all that is declared. A fault found
/// by the filter comes before one in the type's own attributes.
pub open spec fn derivation(base: Seq<char>, target: Seq<char>, input: TypeDefinitionView) -> Result<
    (HeaderView, PlanView),
    DeriveError,
> {
    match filtered(input.data, base) {
        Err(fault) => Err(fault),
        Ok(selection) => match header_of(base, target, input) {
            Err(fault) => Err(fault),
            Ok(header) => Ok((header, plan_of(selection))),
        },
    }
}

/// Makes the head of the implementation of `target` for `input`.
pub fn derive_header(base_ident: &str, target: &str, input: &TypeDefinition) -> (r: Result<
    Header,
    DeriveError,
>)
    ensures
        result_view(r) == header_of(base_ident@, target@, input.deep_view()),
{
    match extract_generics(base_ident, &input.attrs, input, target) {
        Err(fault) => Err(fault),
        Ok((impl_gen, ty_gen, where_clause)) => Ok(
            Header { name: input.name.clone(), impl_gen, ty_gen, where_clause },
        ),
    }
}

/// Makes the head and the plan of a derivation that listens to `base_ident`.
pub fn derive_plan(base_ident: &str, target: &str, input: &TypeDefinition) -> (r: Result<
    (Header, Plan),
    DeriveError,
>)
    ensures
        result_view(r) == derivation(base_ident@, target@, input.deep_view()),
{
    let selection = match filter_skipped_variants_and_fields(base_ident, &input.data) {
        Ok(selection) => selection,
        Err(fault) => {
            return Err(fault);
        },
    };
    let header = match derive_header(base_ident, target, input) {
        Ok(header) => header,
        Err(fault) => {
            return Err(fault);
        },
    };
    Ok((header, build_plan(&selection)))
}

/// The head and the plan of a derivation that tells variants apart by their
/// discriminants, and the discriminant of each declared variant (none for a struct). A
/// fault in a discriminant comes last.
pub open spec fn ranked_derivation(
    base: Seq<char>,
    target: Seq<char>,
    input: TypeDefinitionView,
) -> Result<(HeaderView, PlanView, Seq<i64>), DeriveError> {
    match derivation(base, target, input) {
        Err(fault) => Err(fault),
        Ok((header, plan)) => match input.data {
            DataView::Enum(variants) => match discriminants_of(variants) {
                Err(fault) => Err(fault),
                Ok(discriminants) => Ok((header, plan, discriminants)),
            },
            _ => Ok((header, plan, Seq::empty())),
        },
    }
}

/// Makes the head and the plan of a derivation that tells variants apart by their
/// discriminants, and works the discriminants out.
pub fn derive_ranked_plan(base_ident: &str, target: &str, input: &TypeDefinition) -> (r: Result<
    (Header, Plan, Vec<i64>),
    DeriveError,
>)
    ensures
        match r {
            Ok((header, plan, discriminants)) => ranked_derivation(
                base_ident@,
                target@,
                input.deep_view(),
            ) == Ok::<(HeaderView, PlanView, Seq<i64>), DeriveError>(
                (header.deep_view(), plan.deep_view(), discriminants@),
            ),
            Err(fault) => ranked_derivation(base_ident@, target@, input.deep_view()) == Err::<
                (HeaderView, PlanView, Seq<i64>),
                DeriveError,
            >(fault),
        },
{
    let (header, plan) = match derive_plan(base_ident, target, input) {
        Ok(made) => made,
        Err(fault) => {
            return Err(fault);
        },
    };
    let discriminants = match &input.data {
        Data::Enum(variants) => match resolve_discriminants(variants) {
            Ok(discriminants) => discriminants,
            Err(fault) => {
                return Err(fault);
            },
        },
        _ => Vec::new(),
    };
    Ok((header, plan, discriminants))
}

} // verus!
