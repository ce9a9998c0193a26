//! Fixed pieces of the code that the ordering derivations write.

use vstd::prelude::*;

verus! {

/// The answer that two values are equal.
pub open spec fn equal_answer() -> Seq<char> {
    "::std::option::Option::Some(::std::cmp::Ordering::Equal)"@
}

/// The answer that two values are equal.
pub fn equal_answer_text() -> (r: &'static str)
    ensures
        r@ == equal_answer(),
{
    "::std::option::Option::Some(::std::cmp::Ordering::Equal)"
}

/// The call of a type's partial comparison, up to its arguments.
pub open spec fn partial_call() -> Seq<char> {
    ">::partial_cmp("@
}

/// The call of a type's partial comparison, up to its arguments.
pub fn partial_call_text() -> (r: &'static str)
    ensures
        r@ == partial_call(),
{
    ">::partial_cmp("
}

/// What stands between the discriminant of the left value and that of the right one.
pub open spec fn discriminant_call() -> Seq<char> {
    " }.partial_cmp(&match other { "@
}

/// What stands between the discriminant of the left value and that of the right one.
pub fn discriminant_call_text() -> (r: &'static str)
    ensures
        r@ == discriminant_call(),
{
    " }.partial_cmp(&match other { "
}

/// The head of the method that compares partially.
pub open spec fn partial_method() -> Seq<char> {
    "#[inline] fn partial_cmp(&self, __other: &Self) -> ::std::option::Option<::std::cmp::Ordering> { "@
}

/// The head of the method that compares partially.
pub fn partial_method_text() -> (r: &'static str)
    ensures
        r@ == partial_method(),
{
    "#[inline] fn partial_cmp(&self, __other: &Self) -> ::std::option::Option<::std::cmp::Ordering> { "
}

/// The head of the method that compares totally.
pub open spec fn total_method() -> Seq<char> {
    "#[inline] fn cmp(&self, __other: &Self) -> ::std::cmp::Ordering { "@
}

/// The head of the method that compares totally.
pub fn total_method_text() -> (r: &'static str)
    ensures
        r@ == total_method(),
{
    "#[inline] fn cmp(&self, __other: &Self) -> ::std::cmp::Ordering { "
}

/// The body of the method that compares totally: the partial comparison's answer, and a
/// stop where there is none.
pub open spec fn total_body() -> Seq<char> {
    "<Self as ::std::cmp::PartialOrd>::partial_cmp(self, __other).unwrap_or_else(|| panic!(\"<{} as ::std::cmp::PartialOrd>::partial_cmp() is not fully implemented (i.e., the type is not fully ordered at all!)\", ::std::any::type_name::<Self>()))"@
}

/// The body of the method that compares totally.
pub fn total_body_text() -> (r: &'static str)
    ensures
        r@ == total_body(),
{
    "<Self as ::std::cmp::PartialOrd>::partial_cmp(self, __other).unwrap_or_else(|| panic!(\"<{} as ::std::cmp::PartialOrd>::partial_cmp() is not fully implemented (i.e., the type is not fully ordered at all!)\", ::std::any::type_name::<Self>()))"
}

} // verus!
