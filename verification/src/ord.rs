//! Deriving total ordering: the answer of the partial ordering, which is taken to be
//! total.

use vstd::prelude::*;
use vstd::string::*;
use crate::capability::ORD_ATTR_NAME;
use crate::capability::ORD_TARGET;
use crate::common::derive_header;
use crate::common::Header;
use crate::common::header_of;
use crate::common::HeaderView;
use crate::emit::impl_text;
use crate::emit::write_impl;
use crate::error::DeriveError;
use crate::model::TypeDefinition;
use crate::model::TypeDefinitionView;
use crate::partial_ord::Relation;
use crate::words::total_body;
use crate::words::total_body_text;
use crate::words::total_method;
use crate::words::total_method_text;

verus! {

/// The body of the total ordering: it asks the partial ordering and takes its answer.
/// The same for every type.
#[derive(Clone, Copy, Debug, PartialEq, Eq, Structural)]
pub struct OrdBody {}

/// Builds the body of the total ordering.
pub fn build_ord_impl() -> (r: OrdBody)
    ensures
        r == (OrdBody {  }),
{
    OrdBody {  }
}

impl OrdBody {
    /// Runs the body, given what the partial ordering answered. An answer that leaves
    /// the two values unordered shows that the ordering is not total: the generated code
    /// stops there, and this function is not to be called with it.
    pub fn evaluate(&self, partial: Relation) -> (r: Relation)
        requires
            partial != Relation::Unordered,
        ensures
            r == partial,
            r != Relation::Unordered,
    {
        partial
    }
}

/// What [`ord`] returns.
pub open spec fn ord_derivation(input: TypeDefinitionView) -> Result<
    (HeaderView, OrdBody),
    DeriveError,
> {
    match header_of(ORD_ATTR_NAME@, ORD_TARGET@, input) {
        Err(fault) => Err(fault),
        Ok(header) => Ok((header, OrdBody {  })),
    }
}

/// Derives `Ord` for `input`: the head of the implementation and the body of the total
/// ordering.
pub fn ord(input: &TypeDefinition) -> (r: Result<(Header, OrdBody), DeriveError>)
    ensures
        match r {
            Ok((header, body)) => ord_derivation(input.deep_view()) == Ok::<
                (HeaderView, OrdBody),
                DeriveError,
            >((header.deep_view(), body)),
            Err(fault) => ord_derivation(input.deep_view()) == Err::<
                (HeaderView, OrdBody),
                DeriveError,
            >(fault),
        },
{
    match derive_header(ORD_ATTR_NAME, ORD_TARGET, input) {
        Err(fault) => Err(fault),
        Ok(header) => Ok((header, build_ord_impl())),
    }
}

/// The implementation of `Ord` as it is written.
pub open spec fn ord_impl_text(header: HeaderView) -> Seq<char> {
    impl_text(header, ORD_TARGET@, total_method() + total_body() + " }"@)
}

impl OrdBody {
    /// Writes the body of the total ordering.
    pub fn render(&self) -> (r: String)
        ensures
            r@ == total_body(),
    {
        String::from_str(total_body_text())
    }

    /// Writes the implementation of `Ord` under `header`.
    pub fn render_impl(&self, header: &Header) -> (r: String)
        ensures
            r@ == ord_impl_text(header.deep_view()),
    {
        let mut items = String::from_str(total_method_text());
        items.append(self.render().as_str());
        items.append(" }");
        write_impl(header, ORD_TARGET, items.as_str())
    }
}

} // verus!
