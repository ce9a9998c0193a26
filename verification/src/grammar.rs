//! The pieces of Rust's grammar that an attribute's values are written in. They are read
//! by `syn`; this module hands the results on as plain values.
//!
//! Each reading first selects `proc_macro2`'s own lexer and printer, so that what is read
//! from a text is the same whether or not a compiler stands behind the process.
//!
//! Lists are read in two steps: `syn` splits a list into its entries and each entry into
//! its name and the texts of its bounds; then `syn` reads each bound's text on its own,
//! which sets the path of a trait bound apart from what is written round it.

use vstd::prelude::*;
use vstd::string::*;
use proc_macro2::fallback::force;
use quote::ToTokens;
use syn::GenericParam;
use syn::parse::Parser;
use syn::punctuated::Punctuated;
use syn::token::Comma;
use syn::TypeParamBound;
use syn::WherePredicate;
use crate::model::Bound;
use crate::model::BoundView;
use crate::model::Constraint;
use crate::model::ConstraintView;
use crate::model::GenericParameter;
use crate::model::GenericParameterView;
use crate::model::ParamKind;

verus! {

#[verifier::external_type_specification]
#[verifier::external_body]
pub struct ExSynError(syn::Error);

/// A generic parameter as `syn` splits it: its kind, its identifier, and the text of each
/// bound (for a constant, of its type).
#[derive(Clone, Debug, PartialEq, Eq)]
pub struct ParameterText {
    pub kind: ParamKind,
    pub name: String,
    pub bounds: Vec<String>,
}

/// The mathematical value of a [`ParameterText`].
pub struct ParameterTextView {
    pub kind: ParamKind,
    pub name: Seq<char>,
    pub bounds: Seq<Seq<char>>,
}

impl DeepView for ParameterText {
    type V = ParameterTextView;

    open spec fn deep_view(&self) -> ParameterTextView {
        ParameterTextView { kind: self.kind, name: self.name@, bounds: self.bounds.deep_view() }
    }
}

/// A constraint as `syn` splits it: the text of its binder (empty where it has none), of
/// what is bounded, and of each bound.
#[derive(Clone, Debug, Default, PartialEq, Eq)]
pub struct PredicateText {
    pub binder: String,
    pub subject: String,
    pub bounds: Vec<String>,
}

/// The mathematical value of a [`PredicateText`].
pub struct PredicateTextView {
    pub binder: Seq<char>,
    pub subject: Seq<char>,
    pub bounds: Seq<Seq<char>>,
}

impl DeepView for PredicateText {
    type V = PredicateTextView;

    open spec fn deep_view(&self) -> PredicateTextView {
        PredicateTextView {
            binder: self.binder@,
            subject: self.subject@,
            bounds: self.bounds.deep_view(),
        }
    }
}

/// The generic parameters that `syn` reads from `text` as a `Generics`, or `None` where
/// it rejects the text.
pub uninterp spec fn generic_parameters(text: Seq<char>) -> Option<Seq<ParameterTextView>>;

/// The generic arguments that `syn` reads from `text` as an
/// `AngleBracketedGenericArguments`, each as its text, or `None` where it rejects the text.
pub uninterp spec fn generic_arguments(text: Seq<char>) -> Option<Seq<Seq<char>>>;

/// The constraints that `syn` reads from `text` as `WherePredicate`s between commas, or
/// `None` where it rejects the text.
pub uninterp spec fn where_predicates(text: Seq<char>) -> Option<Seq<PredicateTextView>>;

/// The bound that `syn` reads from `text` as a `TypeParamBound`, or `None` where it
/// rejects the text.
pub uninterp spec fn type_param_bound(text: Seq<char>) -> Option<BoundView>;

/// The value that `syn` reads from `text` as a `LitInt` and parses as an `i64`, or
/// `None` where either step rejects the text.
pub uninterp spec fn integer_literal(text: Seq<char>) -> Option<int>;

/// Calls `syn::parse_str::<syn::Generics>`, after `proc_macro2::fallback::force`, and
/// converts each parameter: its kind, its identifier, and the text of each bound (for a
/// constant, of its type). Defaults and attributes are left behind. The contract only
/// names the result.
#[verifier::external_body]
fn read_generic_parameters(text: &str) -> (r: Result<Vec<ParameterText>, syn::Error>)
    ensures
        r matches Ok(params) ==> generic_parameters(text@) == Some(params.deep_view()),
        r is Err ==> generic_parameters(text@) is None,
{
    force();
    Ok(syn::parse_str::<syn::Generics>(text)?.params.iter().map(|param| match param {
        GenericParam::Type(t) => ParameterText { kind: ParamKind::Type, name: t.ident.to_string(),
            bounds: t.bounds.iter().map(|b| b.to_token_stream().to_string()).collect() },
        GenericParam::Lifetime(l) => ParameterText { kind: ParamKind::Lifetime, name: l.lifetime.ident.to_string(),
            bounds: l.bounds.iter().map(|b| b.to_string()).collect() },
        GenericParam::Const(c) => ParameterText { kind: ParamKind::Const, name: c.ident.to_string(),
            bounds: vec![c.ty.to_token_stream().to_string()] },
    }).collect())
}

/// Calls `syn::parse_str::<syn::AngleBracketedGenericArguments>`, after
/// `proc_macro2::fallback::force`, and hands out the text of each argument. The contract
/// only names the result.
#[verifier::external_body]
fn read_generic_arguments(text: &str) -> (r: Result<Vec<String>, syn::Error>)
    ensures
        r matches Ok(args) ==> generic_arguments(text@) == Some(args.deep_view()),
        r is Err ==> generic_arguments(text@) is None,
{
    force();
    let parsed = syn::parse_str::<syn::AngleBracketedGenericArguments>(text)?;
    Ok(parsed.args.iter().map(|arg| arg.to_token_stream().to_string()).collect())
}

/// Calls `syn`'s `Punctuated::<WherePredicate, Comma>::parse_terminated` on the whole of
/// `text`, after `proc_macro2::fallback::force`, and converts each predicate: the text of
/// its binder, of what is bounded, and of each bound. The contract only names the result.
#[verifier::external_body]
fn read_where_predicates(text: &str) -> (r: Result<Vec<PredicateText>, syn::Error>)
    ensures
        r matches Ok(predicates) ==> where_predicates(text@) == Some(predicates.deep_view()),
        r is Err ==> where_predicates(text@) is None,
{
    force();
    let parsed = Parser::parse_str(Punctuated::<WherePredicate, Comma>::parse_terminated, text)?;
    Ok(parsed.iter().map(|predicate| match predicate {
        WherePredicate::Type(t) => PredicateText { binder: t.lifetimes.to_token_stream().to_string(),
            subject: t.bounded_ty.to_token_stream().to_string(),
            bounds: t.bounds.iter().map(|b| b.to_token_stream().to_string()).collect() },
        WherePredicate::Lifetime(l) => PredicateText { binder: String::new(), subject: l.lifetime.to_string(),
            bounds: l.bounds.iter().map(|b| b.to_string()).collect() },
        other => PredicateText { subject: other.to_token_stream().to_string(), ..Default::default() },
    }).collect())
}

/// Calls `syn::parse_str::<syn::TypeParamBound>`, after `proc_macro2::fallback::force`,
/// and converts the bound: of a trait bound whether it stands in parentheses and the
/// texts of its modifier, its binder and its path, each apart; of any other bound its
/// text. The contract only names the result.
#[verifier::external_body]
fn read_bound(text: &str) -> (r: Result<Bound, syn::Error>)
    ensures
        r matches Ok(bound) ==> type_param_bound(text@) == Some(bound.deep_view()),
        r is Err ==> type_param_bound(text@) is None,
{
    force();
    Ok(match syn::parse_str::<TypeParamBound>(text)? {
        TypeParamBound::Trait(t) => Bound::Trait {
            parenthesized: t.paren_token.is_some(),
            modifier: t.modifier.to_token_stream().to_string(),
            binder: t.lifetimes.to_token_stream().to_string(),
            path: t.path.to_token_stream().to_string(),
        },
        other => Bound::Other(other.to_token_stream().to_string()),
    })
}

/// Calls `syn::parse_str::<syn::LitInt>`, after `proc_macro2::fallback::force`, and then
/// `LitInt::base10_parse::<i64>`. The contract only names the result.
#[verifier::external_body]
fn read_integer_literal(text: &str) -> (r: Result<i64, syn::Error>)
    ensures
        r matches Ok(value) ==> integer_literal(text@) == Some(value as int),
        r is Err ==> integer_literal(text@) is None,
{
    force();
    syn::parse_str::<syn::LitInt>(text)?.base10_parse::<i64>()
}

/// The bound that a text stands for: what `syn` reads from it, and the text as it is
/// where `syn` reads no bound from it.
pub open spec fn bound_of(text: Seq<char>) -> BoundView {
    match type_param_bound(text) {
        Some(bound) => bound,
        None => BoundView::Other(text),
    }
}

/// The bounds that the texts stand for, in their order.
pub open spec fn bounds_of(texts: Seq<Seq<char>>) -> Seq<BoundView> {
    Seq::new(texts.len(), |i: int| bound_of(texts[i]))
}

/// The texts as bounds that are kept as written.
pub open spec fn bounds_as_written(texts: Seq<Seq<char>>) -> Seq<BoundView> {
    Seq::new(texts.len(), |i: int| BoundView::Other(texts[i]))
}

/// The generic parameter that `syn`'s split stands for: the bounds of a type or a
/// lifetime are read one by one; the type of a constant is kept as written.
pub open spec fn parameter_of(split: ParameterTextView) -> GenericParameterView {
    GenericParameterView {
        kind: split.kind,
        name: split.name,
        bounds: if split.kind is Const {
            bounds_as_written(split.bounds)
        } else {
            bounds_of(split.bounds)
        },
    }
}

/// The constraint that `syn`'s split stands for: its bounds are read one by one.
pub open spec fn constraint_of(split: PredicateTextView) -> ConstraintView {
    ConstraintView { binder: split.binder, subject: split.subject, bounds: bounds_of(split.bounds) }
}

/// The generic parameters written in `text`, or `None` where `text` is no list of
/// generic parameters.
pub open spec fn parameters_in(text: Seq<char>) -> Option<Seq<GenericParameterView>> {
    match generic_parameters(text) {
        Some(split) => Some(Seq::new(split.len(), |i: int| parameter_of(split[i]))),
        None => None,
    }
}

/// The constraints written in `text`, or `None` where `text` is no list of constraints.
pub open spec fn constraints_in(text: Seq<char>) -> Option<Seq<ConstraintView>> {
    match where_predicates(text) {
        Some(split) => Some(Seq::new(split.len(), |i: int| constraint_of(split[i]))),
        None => None,
    }
}

/// Reads one bound; `None` where the text is no bound.
pub fn parse_bound(text: &str) -> (r: Option<Bound>)
    ensures
        r.deep_view() == type_param_bound(text@),
{
    match read_bound(text) {
        Ok(bound) => Some(bound),
        Err(_) => None,
    }
}

/// Reads each text as a bound; a text that is no bound is kept as written.
pub fn parse_bounds(texts: &Vec<String>) -> (r: Vec<Bound>)
    ensures
        r.deep_view() == bounds_of(texts.deep_view()),
{
    let mut out: Vec<Bound> = Vec::new();
    let mut i: usize = 0;
    while i < texts.len()
        invariant
            i <= texts.len(),
            out.len() == i,
            texts.deep_view().len() == texts.len(),
            forall|j: int| 0 <= j < i ==> out.deep_view()[j] == bound_of(texts.deep_view()[j]),
        decreases texts.len() - i,
    {
        let ghost before = out.deep_view();
        assert(texts.deep_view()[i as int] == texts[i as int]@);
        let next = match parse_bound(texts[i].as_str()) {
            Some(bound) => bound,
            None => Bound::Other(texts[i].clone()),
        };
        out.push(next);
        assert(out.deep_view() =~= before.push(next.deep_view()));
        i = i + 1;
    }
    assert(out.deep_view() =~= bounds_of(texts.deep_view()));
    out
}

/// Keeps each text as a bound as written.
pub fn keep_bounds(texts: &Vec<String>) -> (r: Vec<Bound>)
    ensures
        r.deep_view() == bounds_as_written(texts.deep_view()),
{
    let mut out: Vec<Bound> = Vec::new();
    let mut i: usize = 0;
    while i < texts.len()
        invariant
            i <= texts.len(),
            out.len() == i,
            texts.deep_view().len() == texts.len(),
            forall|j: int|
                0 <= j < i ==> out.deep_view()[j] == BoundView::Other(texts.deep_view()[j]),
        decreases texts.len() - i,
    {
        let ghost before = out.deep_view();
        assert(texts.deep_view()[i as int] == texts[i as int]@);
        let next = Bound::Other(texts[i].clone());
        out.push(next);
        assert(out.deep_view() =~= before.push(next.deep_view()));
        i = i + 1;
    }
    assert(out.deep_view() =~= bounds_as_written(texts.deep_view()));
    out
}

/// Reads a list of generic parameters, written between `<` and `>`; the empty text is the
/// empty list.
pub fn parse_generic_parameters(text: &str) -> (r: Option<Vec<GenericParameter>>)
    ensures
        r.deep_view() == parameters_in(text@),
{
    let split = match read_generic_parameters(text) {
        Ok(split) => split,
        Err(_) => {
            return None;
        },
    };
    let ghost all = split.deep_view();
    let mut out: Vec<GenericParameter> = Vec::new();
    let mut i: usize = 0;
    while i < split.len()
        invariant
            i <= split.len(),
            out.len() == i,
            all == split.deep_view(),
            all.len() == split.len(),
            forall|j: int| 0 <= j < i ==> out.deep_view()[j] == parameter_of(all[j]),
        decreases split.len() - i,
    {
        let ghost before = out.deep_view();
        assert(all[i as int] == split[i as int].deep_view());
        let entry = &split[i];
        let bounds = match entry.kind {
            ParamKind::Const => keep_bounds(&entry.bounds),
            _ => parse_bounds(&entry.bounds),
        };
        let next = GenericParameter { kind: entry.kind, name: entry.name.clone(), bounds };
        out.push(next);
        assert(out.deep_view() =~= before.push(next.deep_view()));
        i = i + 1;
    }
    assert(out.deep_view() =~= Seq::new(all.len(), |i: int| parameter_of(all[i])));
    Some(out)
}

/// Reads a list of generic arguments, written between `<` and `>`.
pub fn parse_generic_arguments(text: &str) -> (r: Option<Vec<String>>)
    ensures
        r.deep_view() == generic_arguments(text@),
{
    match read_generic_arguments(text) {
        Ok(args) => Some(args),
        Err(_) => None,
    }
}

/// Reads a list of constraints, written as in a `where` clause.
pub fn parse_where_predicates(text: &str) -> (r: Option<Vec<Constraint>>)
    ensures
        r.deep_view() == constraints_in(text@),
{
    let split = match read_where_predicates(text) {
        Ok(split) => split,
        Err(_) => {
            return None;
        },
    };
    let ghost all = split.deep_view();
    let mut out: Vec<Constraint> = Vec::new();
    let mut i: usize = 0;
    while i < split.len()
        invariant
            i <= split.len(),
            out.len() == i,
            all == split.deep_view(),
            all.len() == split.len(),
            forall|j: int| 0 <= j < i ==> out.deep_view()[j] == constraint_of(all[j]),
        decreases split.len() - i,
    {
        let ghost before = out.deep_view();
        assert(all[i as int] == split[i as int].deep_view());
        let entry = &split[i];
        let next = Constraint {
            binder: entry.binder.clone(),
            subject: entry.subject.clone(),
            bounds: parse_bounds(&entry.bounds),
        };
        out.push(next);
        assert(out.deep_view() =~= before.push(next.deep_view()));
        i = i + 1;
    }
    assert(out.deep_view() =~= Seq::new(all.len(), |i: int| constraint_of(all[i])));
    Some(out)
}

/// Reads an integer literal.
pub fn parse_integer_literal(text: &str) -> (r: Option<i64>)
    ensures
        r is Some <==> integer_literal(text@) is Some,
        r matches Some(value) ==> integer_literal(text@) == Some(value as int),
{
    match read_integer_literal(text) {
        Ok(value) => Some(value),
        Err(_) => None,
    }
}

} // verus!
