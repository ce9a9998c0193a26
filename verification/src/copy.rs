//! Deriving the copy marker: a statement that a value may be copied bit by bit. It has
//! no body.

use vstd::prelude::*;
use vstd::string::*;
use crate::capability::COPY_ATTR_NAME;
use crate::capability::COPY_TARGET;
use crate::common::derive_header;
use crate::common::Header;
use crate::common::header_of;
use crate::common::HeaderView;
use crate::emit::impl_text;
use crate::emit::write_impl;
use crate::error::DeriveError;
use crate::error::result_view;
use crate::model::TypeDefinition;

verus! {

/// Derives `Copy` for `input`: the head of an implementation without items.
pub fn copy(input: &TypeDefinition) -> (r: Result<Header, DeriveError>)
    ensures
        result_view(r) == header_of(COPY_ATTR_NAME@, COPY_TARGET@, input.deep_view()),
{
    derive_header(COPY_ATTR_NAME, COPY_TARGET, input)
}

/// The implementation of `Copy` as it is written: a head and no items.
pub open spec fn copy_impl_text(header: HeaderView) -> Seq<char> {
    impl_text(header, COPY_TARGET@, ""@)
}

/// Writes the implementation of `Copy` under `header`.
pub fn render_impl(header: &Header) -> (r: String)
    ensures
        r@ == copy_impl_text(header.deep_view()),
{
    write_impl(header, COPY_TARGET, "")
}

} // verus!
