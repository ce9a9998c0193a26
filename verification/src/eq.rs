//! Deriving total equality: a marker with no body. It states that the equality which
//! [`partial_eq`](crate::partial_eq) derives, the conjunction of the fields' equalities,
//! holds of every value with itself.

use vstd::prelude::*;
use vstd::string::*;
use crate::capability::EQ_ATTR_NAME;
use crate::capability::EQ_TARGET;
use crate::common::derive_header;
use crate::common::Header;
use crate::common::header_of;
use crate::common::HeaderView;
use crate::emit::impl_text;
use crate::emit::write_impl;
use crate::error::DeriveError;
use crate::error::result_view;
use crate::model::TypeDefinition;

verus! {

/// Derives `Eq` for `input`: the head of an implementation without items.
pub fn eq(input: &TypeDefinition) -> (r: Result<Header, DeriveError>)
    ensures
        result_view(r) == header_of(EQ_ATTR_NAME@, EQ_TARGET@, input.deep_view()),
{
    derive_header(EQ_ATTR_NAME, EQ_TARGET, input)
}

/// The implementation of `Eq` as it is written: a head and no items.
pub open spec fn eq_impl_text(header: HeaderView) -> Seq<char> {
    impl_text(header, EQ_TARGET@, ""@)
}

/// Writes the implementation of `Eq` under `header`.
pub fn render_impl(header: &Header) -> (r: String)
    ensures
        r@ == eq_impl_text(header.deep_view()),
{
    write_impl(header, EQ_TARGET, "")
}

} // verus!
