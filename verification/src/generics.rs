//! Inferring the generic signature of an implementation: its parameters, the arguments
//! that the type is named with, and its constraints.

use vstd::prelude::*;
use vstd::string::*;
use crate::attrs::AttributeConfig;
use crate::attrs::AttributeConfigView;
use crate::attrs::no_config;
use crate::attrs::parse_toplevel_attrs;
use crate::attrs::toplevel_config;
use crate::error::DeriveError;
use crate::error::result_view;
use crate::error::Site;
use crate::model::Attribute;
use crate::model::AttributeView;
use crate::model::Bound;
use crate::model::BoundView;
use crate::model::Constraint;
use crate::model::ConstraintView;
use crate::model::Data;
use crate::model::DataView;
use crate::model::Field;
use crate::model::FieldList;
use crate::model::FieldView;
use crate::model::GenericParameter;
use crate::model::GenericParameterView;
use crate::model::ParamKind;
use crate::model::TypeDefinition;
use crate::model::TypeDefinitionView;
use crate::model::TypeExpr;
use crate::model::TypeExprView;
use crate::model::VariantView;
use crate::text::copy_texts;
use crate::text::same_text;

verus! {

/// The word that stands, in a bound written in an attribute, for the capability that is
/// being derived.
pub const PLACEHOLDER: &'static str = "r#trait";

/// Whether a bound is the placeholder: a trait bound whose path is the placeholder
/// alone, whatever is written round it.
pub open spec fn is_placeholder(bound: BoundView) -> bool {
    bound matches BoundView::Trait { path, .. } && path == PLACEHOLDER@
}

/// A bound with the capability `target` in the place of the placeholder: where the
/// bound's path is the placeholder, the path is `target` and what is written round it
/// stays; any other bound stays as it is.
pub open spec fn resolved_bound(bound: BoundView, target: Seq<char>) -> BoundView {
    match bound {
        BoundView::Trait { parenthesized, modifier, binder, path } => if path == PLACEHOLDER@ {
            BoundView::Trait { parenthesized, modifier, binder, path: target }
        } else {
            bound
        },
        BoundView::Other(_) => bound,
    }
}

/// `bounds` with the capability `target` in the place of each placeholder.
pub open spec fn resolved(bounds: Seq<BoundView>, target: Seq<char>) -> Seq<BoundView> {
    Seq::new(bounds.len(), |i: int| resolved_bound(bounds[i], target))
}

/// The bound that asks the capability `target`, with nothing written round it.
pub open spec fn capability_bound(target: Seq<char>) -> BoundView {
    BoundView::Trait {
        parenthesized: false,
        modifier: Seq::empty(),
        binder: Seq::empty(),
        path: target,
    }
}

/// A generic parameter of an implementation, with `target` in the place of each
/// placeholder among the bounds of a type parameter.
pub open spec fn resolved_parameter(
    param: GenericParameterView,
    target: Seq<char>,
) -> GenericParameterView {
    if param.kind is Type {
        GenericParameterView { bounds: resolved(param.bounds, target), ..param }
    } else {
        param
    }
}

/// A constraint with `target` in the place of each placeholder among its bounds.
pub open spec fn resolved_constraint(constraint: ConstraintView, target: Seq<char>) -> ConstraintView {
    ConstraintView { bounds: resolved(constraint.bounds, target), ..constraint }
}

/// The generic parameters of the implementation: those that the attributes give, or else
/// the type's own.
pub open spec fn impl_generics(
    config: AttributeConfigView,
    declared: Seq<GenericParameterView>,
    target: Seq<char>,
) -> Seq<GenericParameterView> {
    match config.impl_generics {
        Some(params) => Seq::new(params.len(), |i: int| resolved_parameter(params[i], target)),
        None => declared,
    }
}

/// The generic argument that passes a parameter on.
pub open spec fn argument_of(param: GenericParameterView) -> Seq<char> {
    if param.kind is Lifetime {
        "'"@ + param.name
    } else {
        param.name
    }
}

/// The arguments for those of the first `upto` parameters that the type declares itself.
pub open spec fn echoed(
    params: Seq<GenericParameterView>,
    declared: Seq<GenericParameterView>,
    upto: int,
) -> Seq<Seq<char>>
    decreases upto,
{
    if upto <= 0 || upto > params.len() {
        Seq::empty()
    } else {
        let front = echoed(params, declared, upto - 1);
        if declared.contains(params[upto - 1]) {
            front.push(argument_of(params[upto - 1]))
        } else {
            front
        }
    }
}

/// The generic arguments that the type is named with: those that the attributes give,
/// or else one for each parameter of the implementation that the type declares itself.
pub open spec fn type_generics(
    config: AttributeConfigView,
    params: Seq<GenericParameterView>,
    declared: Seq<GenericParameterView>,
) -> Seq<Seq<char>> {
    match config.type_generics {
        Some(args) => args,
        None => echoed(params, declared, params.len() as int),
    }
}

/// Whether `name` is the name of a type parameter among `params`.
pub open spec fn names_type_parameter(params: Seq<GenericParameterView>, name: Seq<char>) -> bool {
    exists|i: int|
        0 <= i < params.len() && (#[trigger] params[i]).kind is Type && params[i].name == name
}

/// Whether a type mentions one of the type parameters among `params`: it is one, or a
/// type nested in it mentions one.
pub open spec fn mentions(ty: TypeExprView, params: Seq<GenericParameterView>) -> bool
    decreases ty,
{
    match ty {
        TypeExprView::Ident(name) => names_type_parameter(params, name),
        TypeExprView::Path { text, args } => exists|i: int|
            0 <= i < args.len() && mentions(#[trigger] args[i], params),
    }
}

/// The constraint that a field's type has the capability `target`.
pub open spec fn required(field: FieldView, target: Seq<char>) -> ConstraintView {
    ConstraintView {
        binder: Seq::empty(),
        subject: field.ty.text(),
        bounds: seq![capability_bound(target)],
    }
}

/// One constraint for each of the first `upto` fields whose type mentions a type
/// parameter, in the fields' order.
pub open spec fn field_constraints(
    fields: Seq<FieldView>,
    params: Seq<GenericParameterView>,
    target: Seq<char>,
    upto: int,
) -> Seq<ConstraintView>
    decreases upto,
{
    if upto <= 0 || upto > fields.len() {
        Seq::empty()
    } else {
        let front = field_constraints(fields, params, target, upto - 1);
        if mentions(fields[upto - 1].ty, params) {
            front.push(required(fields[upto - 1], target))
        } else {
            front
        }
    }
}

/// The constraints for the fields of the first `upto` variants, variant after variant.
pub open spec fn variant_constraints(
    variants: Seq<VariantView>,
    params: Seq<GenericParameterView>,
    target: Seq<char>,
    upto: int,
) -> Seq<ConstraintView>
    decreases upto,
{
    if upto <= 0 || upto > variants.len() {
        Seq::empty()
    } else {
        let fields = variants[upto - 1].fields.items();
        variant_constraints(variants, params, target, upto - 1) + field_constraints(
            fields,
            params,
            target,
            fields.len() as int,
        )
    }
}

/// The constraints that inference finds: one for each field, skipped or not, whose type
/// mentions a type parameter of the implementation.
pub open spec fn inferred_constraints(
    data: DataView,
    params: Seq<GenericParameterView>,
    target: Seq<char>,
) -> Seq<ConstraintView> {
    match data {
        DataView::Struct(fields) => field_constraints(
            fields.items(),
            params,
            target,
            fields.items().len() as int,
        ),
        DataView::Enum(variants) => variant_constraints(
            variants,
            params,
            target,
            variants.len() as int,
        ),
        DataView::Union => Seq::empty(),
    }
}

/// The constraints of the implementation: those that the attributes give, or else the
/// inferred ones.
pub open spec fn constraints(
    config: AttributeConfigView,
    data: DataView,
    params: Seq<GenericParameterView>,
    target: Seq<char>,
) -> Seq<ConstraintView> {
    match config.constraints {
        Some(given) => Seq::new(given.len(), |i: int| resolved_constraint(given[i], target)),
        None => inferred_constraints(data, params, target),
    }
}

/// The generic signature of the implementation of `target` for `def` under `config`:
/// the parameters of the implementation, the arguments the type is named with, and the
/// constraints.
pub open spec fn signature(
    config: AttributeConfigView,
    def: TypeDefinitionView,
    target: Seq<char>,
) -> Result<(Seq<GenericParameterView>, Seq<Seq<char>>, Seq<ConstraintView>), DeriveError> {
    if def.data is Union {
        Err(DeriveError::UnsupportedShape)
    } else {
        let params = impl_generics(config, def.generics, target);
        Ok(
            (
                params,
                type_generics(config, params, def.generics),
                constraints(config, def.data, params, target),
            ),
        )
    }
}

/// The generic parameters of an implementation.
#[derive(Clone, Debug, PartialEq, Eq)]
pub struct ImplGen(pub Vec<GenericParameter>);

/// The generic arguments that a type is named with.
#[derive(Clone, Debug, PartialEq, Eq)]
pub struct TypeGen(pub Vec<String>);

/// The constraints of an implementation.
#[derive(Clone, Debug, PartialEq, Eq)]
pub struct WhereClause(pub Vec<Constraint>);

impl ImplGen {
    /// Writes the parameters as they follow `impl`: between angle brackets, or nothing
    /// where there are none.
    pub fn render(&self) -> (r: String)
        ensures
            r@ == crate::emit::impl_gen_text(self.deep_view()),
    {
        crate::emit::write_impl_gen(&self.0)
    }
}

impl TypeGen {
    /// Writes the arguments as they follow the type's name: between angle brackets, or
    /// nothing where there are none.
    pub fn render(&self) -> (r: String)
        ensures
            r@ == crate::emit::type_gen_text(self.deep_view()),
    {
        crate::emit::write_type_gen(&self.0)
    }
}

impl WhereClause {
    /// Writes the constraints behind `where`, or nothing where there are none.
    pub fn render(&self) -> (r: String)
        ensures
            r@ == crate::emit::where_clause_text(self.deep_view()),
    {
        crate::emit::write_where_clause(&self.0)
    }
}

impl DeepView for ImplGen {
    type V = Seq<GenericParameterView>;

    open spec fn deep_view(&self) -> Seq<GenericParameterView> {
        self.0.deep_view()
    }
}

impl DeepView for TypeGen {
    type V = Seq<Seq<char>>;

    open spec fn deep_view(&self) -> Seq<Seq<char>> {
        self.0.deep_view()
    }
}

impl DeepView for WhereClause {
    type V = Seq<ConstraintView>;

    open spec fn deep_view(&self) -> Seq<ConstraintView> {
        self.0.deep_view()
    }
}

fn copy_bound(bound: &Bound) -> (r: Bound)
    ensures
        r.deep_view() == bound.deep_view(),
{
    match bound {
        Bound::Trait { parenthesized, modifier, binder, path } => Bound::Trait {
            parenthesized: *parenthesized,
            modifier: modifier.clone(),
            binder: binder.clone(),
            path: path.clone(),
        },
        Bound::Other(text) => Bound::Other(text.clone()),
    }
}

fn copy_bounds(bounds: &Vec<Bound>) -> (r: Vec<Bound>)
    ensures
        r.deep_view() == bounds.deep_view(),
{
    let mut out: Vec<Bound> = Vec::new();
    let mut i: usize = 0;
    while i < bounds.len()
        invariant
            i <= bounds.len(),
            out.len() == i,
            forall|j: int| 0 <= j < i ==> out.deep_view()[j] == bounds.deep_view()[j],
        decreases bounds.len() - i,
    {
        let ghost before = out.deep_view();
        let next = copy_bound(&bounds[i]);
        out.push(next);
        assert(out.deep_view() =~= before.push(next.deep_view()));
        i = i + 1;
    }
    assert(out.deep_view() =~= bounds.deep_view());
    out
}

fn same_bound(a: &Bound, b: &Bound) -> (r: bool)
    ensures
        r == (a.deep_view() == b.deep_view()),
{
    match (a, b) {
        (
            Bound::Trait { parenthesized: pa, modifier: ma, binder: ba, path: ta },
            Bound::Trait { parenthesized: pb, modifier: mb, binder: bb, path: tb },
        ) => *pa == *pb && same_text(ma.as_str(), mb.as_str()) && same_text(
            ba.as_str(),
            bb.as_str(),
        ) && same_text(ta.as_str(), tb.as_str()),
        (Bound::Other(ta), Bound::Other(tb)) => same_text(ta.as_str(), tb.as_str()),
        _ => false,
    }
}

fn same_bounds(a: &Vec<Bound>, b: &Vec<Bound>) -> (r: bool)
    ensures
        r == (a.deep_view() == b.deep_view()),
{
    if a.len() != b.len() {
        assert(a.deep_view().len() != b.deep_view().len());
        return false;
    }
    let mut i: usize = 0;
    while i < a.len()
        invariant
            i <= a.len(),
            a.len() == b.len(),
            forall|j: int| 0 <= j < i ==> a.deep_view()[j] == b.deep_view()[j],
        decreases a.len() - i,
    {
        if !same_bound(&a[i], &b[i]) {
            assert(a.deep_view()[i as int] != b.deep_view()[i as int]);
            return false;
        }
        i = i + 1;
    }
    assert(a.deep_view() =~= b.deep_view());
    true
}

/// Puts the capability `target` in the place of the placeholder, where the bound's path
/// is the placeholder.
pub fn resolve_bound(bound: &Bound, target: &str) -> (r: Bound)
    ensures
        r.deep_view() == resolved_bound(bound.deep_view(), target@),
{
    match bound {
        Bound::Trait { parenthesized, modifier, binder, path } => {
            if same_text(path.as_str(), PLACEHOLDER) {
                Bound::Trait {
                    parenthesized: *parenthesized,
                    modifier: modifier.clone(),
                    binder: binder.clone(),
                    path: String::from_str(target),
                }
            } else {
                copy_bound(bound)
            }
        },
        Bound::Other(_) => copy_bound(bound),
    }
}

fn resolve_bounds(bounds: &Vec<Bound>, target: &str) -> (r: Vec<Bound>)
    ensures
        r.deep_view() == resolved(bounds.deep_view(), target@),
{
    let mut out: Vec<Bound> = Vec::new();
    let mut i: usize = 0;
    while i < bounds.len()
        invariant
            i <= bounds.len(),
            out.len() == i,
            bounds.deep_view().len() == bounds.len(),
            forall|j: int|
                0 <= j < i ==> out.deep_view()[j] == resolved(bounds.deep_view(), target@)[j],
        decreases bounds.len() - i,
    {
        let ghost before = out.deep_view();
        assert(bounds.deep_view()[i as int] == bounds[i as int].deep_view());
        let next = resolve_bound(&bounds[i], target);
        out.push(next);
        assert(out.deep_view() =~= before.push(next.deep_view()));
        i = i + 1;
    }
    assert(out.deep_view() =~= resolved(bounds.deep_view(), target@));
    out
}

fn same_kind(a: ParamKind, b: ParamKind) -> (r: bool)
    ensures
        r == (a == b),
{
    match (a, b) {
        (ParamKind::Type, ParamKind::Type) => true,
        (ParamKind::Lifetime, ParamKind::Lifetime) => true,
        (ParamKind::Const, ParamKind::Const) => true,
        _ => false,
    }
}

fn same_parameter(a: &GenericParameter, b: &GenericParameter) -> (r: bool)
    ensures
        r == (a.deep_view() == b.deep_view()),
{
    same_kind(a.kind, b.kind) && same_text(a.name.as_str(), b.name.as_str()) && same_bounds(
        &a.bounds,
        &b.bounds,
    )
}

fn declares(declared: &Vec<GenericParameter>, param: &GenericParameter) -> (r: bool)
    ensures
        r == declared.deep_view().contains(param.deep_view()),
{
    let mut i: usize = 0;
    while i < declared.len()
        invariant
            i <= declared.len(),
            forall|j: int| 0 <= j < i ==> declared.deep_view()[j] != param.deep_view(),
        decreases declared.len() - i,
    {
        if same_parameter(&declared[i], param) {
            assert(declared.deep_view()[i as int] == param.deep_view());
            return true;
        }
        i = i + 1;
    }
    false
}

fn copy_parameter(param: &GenericParameter) -> (r: GenericParameter)
    ensures
        r.deep_view() == param.deep_view(),
{
    GenericParameter { kind: param.kind, name: param.name.clone(), bounds: copy_bounds(&param.bounds) }
}

/// Converts a generic parameter into the generic argument that passes it on.
pub fn gen_param_to_arg(param: &GenericParameter) -> (r: String)
    ensures
        r@ == argument_of(param.deep_view()),
{
    match param.kind {
        ParamKind::Lifetime => {
            let mut out = String::from_str("'");
            out.append(param.name.as_str());
            out
        },
        _ => param.name.clone(),
    }
}

fn names_type(params: &Vec<GenericParameter>, name: &str) -> (r: bool)
    ensures
        r == names_type_parameter(params.deep_view(), name@),
{
    let mut i: usize = 0;
    while i < params.len()
        invariant
            i <= params.len(),
            forall|j: int|
                0 <= j < i ==> !((#[trigger] params.deep_view()[j]).kind is Type
                    && params.deep_view()[j].name == name@),
        decreases params.len() - i,
    {
        let found = match params[i].kind {
            ParamKind::Type => same_text(params[i].name.as_str(), name),
            _ => false,
        };
        if found {
            assert(params.deep_view()[i as int].kind is Type);
            return true;
        }
        i = i + 1;
    }
    false
}

/// Tells whether `ty` mentions one of the type parameters among `generics`.
pub fn has_generics(ty: &TypeExpr, generics: &Vec<GenericParameter>) -> (r: bool)
    ensures
        r == mentions(ty.deep_view(), generics.deep_view()),
    decreases ty,
{
    match ty {
        TypeExpr::Ident(name) => names_type(generics, name.as_str()),
        TypeExpr::Path { text, args } => {
            proof {
                ty.lemma_args_view();
            }
            let ghost nested = args.deep_view();
            let mut i: usize = 0;
            while i < args.len()
                invariant
                    i <= args.len(),
                    ty == (TypeExpr::Path { text: *text, args: *args }),
                    nested == args.deep_view(),
                    nested.len() == args.len(),
                    ty.deep_view() == (TypeExprView::Path { text: text@, args: nested }),
                    forall|j: int| 0 <= j < i ==> !mentions(#[trigger] nested[j], generics.deep_view()),
                decreases args.len() - i,
            {
                proof {
                    assert(decreases_to!(ty => args));
                    assert(decreases_to!(args => args[i as int]));
                }
                if has_generics(&args[i], generics) {
                    proof {
                        let whole = ty.deep_view();
                        assert(nested[i as int] == args[i as int].deep_view());
                        assert(whole->args == nested);
                        assert(mentions(whole->args[i as int], generics.deep_view()));
                        assert(mentions(whole, generics.deep_view()));
                    }
                    return true;
                }
                i = i + 1;
            }
            false
        },
    }
}

fn resolve_parameters(params: &Vec<GenericParameter>, target: &str) -> (r: Vec<GenericParameter>)
    ensures
        r.deep_view() == Seq::new(
            params.deep_view().len(),
            |i: int| resolved_parameter(params.deep_view()[i], target@),
        ),
{
    let mut out: Vec<GenericParameter> = Vec::new();
    let mut i: usize = 0;
    while i < params.len()
        invariant
            i <= params.len(),
            out.len() == i,
            params.deep_view().len() == params.len(),
            forall|j: int|
                0 <= j < i ==> out.deep_view()[j] == resolved_parameter(
                    params.deep_view()[j],
                    target@,
                ),
        decreases params.len() - i,
    {
        let ghost before = out.deep_view();
        let param = &params[i];
        assert(params.deep_view()[i as int] == param.deep_view());
        let bounds = match param.kind {
            ParamKind::Type => resolve_bounds(&param.bounds, target),
            _ => copy_bounds(&param.bounds),
        };
        let next = GenericParameter { kind: param.kind, name: param.name.clone(), bounds };
        assert(next.deep_view() == resolved_parameter(param.deep_view(), target@));
        out.push(next);
        assert(out.deep_view() =~= before.push(next.deep_view()));
        i = i + 1;
    }
    assert(out.deep_view() =~= Seq::new(
        params.deep_view().len(),
        |i: int| resolved_parameter(params.deep_view()[i], target@),
    ));
    out
}

fn copy_parameters(params: &Vec<GenericParameter>) -> (r: Vec<GenericParameter>)
    ensures
        r.deep_view() == params.deep_view(),
{
    let mut out: Vec<GenericParameter> = Vec::new();
    let mut i: usize = 0;
    while i < params.len()
        invariant
            i <= params.len(),
            out.len() == i,
            forall|j: int| 0 <= j < i ==> out.deep_view()[j] == params.deep_view()[j],
        decreases params.len() - i,
    {
        let ghost before = out.deep_view();
        let next = copy_parameter(&params[i]);
        out.push(next);
        assert(out.deep_view() =~= before.push(next.deep_view()));
        i = i + 1;
    }
    assert(out.deep_view() =~= params.deep_view());
    out
}

fn resolve_constraints(given: &Vec<Constraint>, target: &str) -> (r: Vec<Constraint>)
    ensures
        r.deep_view() == Seq::new(
            given.deep_view().len(),
            |i: int| resolved_constraint(given.deep_view()[i], target@),
        ),
{
    let mut out: Vec<Constraint> = Vec::new();
    let mut i: usize = 0;
    while i < given.len()
        invariant
            i <= given.len(),
            out.len() == i,
            given.deep_view().len() == given.len(),
            forall|j: int|
                0 <= j < i ==> out.deep_view()[j] == resolved_constraint(
                    given.deep_view()[j],
                    target@,
                ),
        decreases given.len() - i,
    {
        let ghost before = out.deep_view();
        let constraint = &given[i];
        assert(given.deep_view()[i as int] == constraint.deep_view());
        let next = Constraint {
            binder: constraint.binder.clone(),
            subject: constraint.subject.clone(),
            bounds: resolve_bounds(&constraint.bounds, target),
        };
        out.push(next);
        assert(out.deep_view() =~= before.push(next.deep_view()));
        i = i + 1;
    }
    assert(out.deep_view() =~= Seq::new(
        given.deep_view().len(),
        |i: int| resolved_constraint(given.deep_view()[i], target@),
    ));
    out
}

fn echo_arguments(params: &Vec<GenericParameter>, declared: &Vec<GenericParameter>) -> (r: Vec<
    String,
>)
    ensures
        r.deep_view() == echoed(params.deep_view(), declared.deep_view(), params.len() as int),
{
    let mut out: Vec<String> = Vec::new();
    let mut i: usize = 0;
    assert(out.deep_view() =~= Seq::empty());
    while i < params.len()
        invariant
            i <= params.len(),
            params.deep_view().len() == params.len(),
            out.deep_view() == echoed(params.deep_view(), declared.deep_view(), i as int),
        decreases params.len() - i,
    {
        let ghost before = out.deep_view();
        assert(params.deep_view()[i as int] == params[i as int].deep_view());
        if declares(declared, &params[i]) {
            let arg = gen_param_to_arg(&params[i]);
            out.push(arg);
            assert(out.deep_view() =~= before.push(arg@));
        }
        i = i + 1;
    }
    out
}

fn push_field_constraints(
    out: &mut Vec<Constraint>,
    fields: &Vec<Field>,
    params: &Vec<GenericParameter>,
    target: &str,
)
    ensures
        final(out).deep_view() == old(out).deep_view() + field_constraints(
            fields.deep_view(),
            params.deep_view(),
            target@,
            fields.len() as int,
        ),
{
    let ghost start = out.deep_view();
    let ghost all = fields.deep_view();
    let mut i: usize = 0;
    assert(out.deep_view() =~= start + Seq::empty());
    while i < fields.len()
        invariant
            i <= fields.len(),
            all == fields.deep_view(),
            all.len() == fields.len(),
            out.deep_view() == start + field_constraints(
                all,
                params.deep_view(),
                target@,
                i as int,
            ),
        decreases fields.len() - i,
    {
        let ghost before = out.deep_view();
        let field = &fields[i];
        assert(all[i as int] == field.deep_view());
        if has_generics(&field.ty, params) {
            let mut bounds: Vec<Bound> = Vec::new();
            bounds.push(
                Bound::Trait {
                    parenthesized: false,
                    modifier: String::new(),
                    binder: String::new(),
                    path: String::from_str(target),
                },
            );
            assert(bounds.deep_view() =~= seq![capability_bound(target@)]);
            let next = Constraint { binder: String::new(), subject: field.ty.text(), bounds };
            out.push(next);
            assert(out.deep_view() =~= before.push(required(all[i as int], target@)));
            assert(out.deep_view() =~= start + field_constraints(
                all,
                params.deep_view(),
                target@,
                i + 1,
            ));
        }
        i = i + 1;
    }
}

fn push_list_constraints(
    out: &mut Vec<Constraint>,
    fields: &FieldList,
    params: &Vec<GenericParameter>,
    target: &str,
)
    ensures
        final(out).deep_view() == old(out).deep_view() + field_constraints(
            fields.deep_view().items(),
            params.deep_view(),
            target@,
            fields.deep_view().items().len() as int,
        ),
{
    match fields {
        FieldList::Named(items) => {
            assert(items.deep_view().len() == items.len());
            push_field_constraints(out, items, params, target);
        },
        FieldList::Unnamed(items) => {
            assert(items.deep_view().len() == items.len());
            push_field_constraints(out, items, params, target);
        },
        FieldList::Unit => {
            assert(out.deep_view() =~= old(out).deep_view() + Seq::empty());
        },
    }
}

fn infer_constraints(data: &Data, params: &Vec<GenericParameter>, target: &str) -> (r: Vec<
    Constraint,
>)
    ensures
        r.deep_view() == inferred_constraints(data.deep_view(), params.deep_view(), target@),
{
    let mut out: Vec<Constraint> = Vec::new();
    assert(out.deep_view() =~= Seq::empty());
    match data {
        Data::Struct(fields) => {
            push_list_constraints(&mut out, fields, params, target);
            assert(out.deep_view() =~= inferred_constraints(
                data.deep_view(),
                params.deep_view(),
                target@,
            ));
        },
        Data::Enum(variants) => {
            let ghost all = variants.deep_view();
            let mut i: usize = 0;
            while i < variants.len()
                invariant
                    i <= variants.len(),
                    all == variants.deep_view(),
                    all.len() == variants.len(),
                    out.deep_view() == variant_constraints(
                        all,
                        params.deep_view(),
                        target@,
                        i as int,
                    ),
                decreases variants.len() - i,
            {
                assert(all[i as int] == variants[i as int].deep_view());
                push_list_constraints(&mut out, &variants[i].fields, params, target);
                i = i + 1;
            }
        },
        Data::Union => {},
    }
    out
}

/// Works out the generic signature of the implementation of `target` for `input`, from
/// what the attributes said (`config`) and, where they said nothing, from the type
/// itself. An untagged union has no signature.
pub fn infer_generics(config: &AttributeConfig, input: &TypeDefinition, target: &str) -> (r: Result<
    (ImplGen, TypeGen, WhereClause),
    DeriveError,
>)
    ensures
        result_view(r) == signature(config.deep_view(), input.deep_view(), target@),
{
    if let Data::Union = &input.data {
        return Err(DeriveError::UnsupportedShape);
    }
    let params = match &config.impl_generics {
        Some(given) => resolve_parameters(given, target),
        None => copy_parameters(&input.generics),
    };
    let args = match &config.type_generics {
        Some(given) => copy_texts(given),
        None => echo_arguments(&params, &input.generics),
    };
    let constraints = match &config.constraints {
        Some(given) => resolve_constraints(given, target),
        None => infer_constraints(&input.data, &params, target),
    };
    assert(params.deep_view().len() == params.len());
    Ok((ImplGen(params), TypeGen(args), WhereClause(constraints)))
}

/// What [`extract_generics`] returns: the fault in the attributes, or the signature
/// under what they say.
pub open spec fn extracted(
    base: Seq<char>,
    attrs: Seq<AttributeView>,
    input: TypeDefinitionView,
    target: Seq<char>,
) -> Result<(Seq<GenericParameterView>, Seq<Seq<char>>, Seq<ConstraintView>), DeriveError> {
    match toplevel_config(attrs, base, 0, no_config()) {
        Err(fault) => Err(DeriveError::Config(Site::Type, fault)),
        Ok(config) => signature(config, input, target),
    }
}

/// Collects the generic signature of the implementation of `target` for `input`: reads
/// `attrs` for the lists under the common name or `base_ident`, and infers what they
/// leave open.
pub fn extract_generics(
    base_ident: &str,
    attrs: &Vec<Attribute>,
    input: &TypeDefinition,
    target: &str,
) -> (r: Result<(ImplGen, TypeGen, WhereClause), DeriveError>)
    ensures
        result_view(r) == extracted(base_ident@, attrs.deep_view(), input.deep_view(), target@),
{
    match parse_toplevel_attrs(base_ident, attrs) {
        Err(fault) => Err(DeriveError::Config(Site::Type, fault)),
        Ok(config) => infer_generics(&config, input, target),
    }
}

/// Whether `field` is one of the fields that `data` declares.
pub open spec fn declares_field(data: DataView, field: FieldView) -> bool {
    match data {
        DataView::Struct(fields) => fields.items().contains(field),
        DataView::Enum(variants) => exists|v: int|
            0 <= v < variants.len() && (#[trigger] variants[v]).fields.items().contains(field),
        DataView::Union => false,
    }
}

/// Whether `constraint` is the one of a field among the first `upto` whose type
/// mentions a type parameter.
pub open spec fn from_field(
    constraint: ConstraintView,
    fields: Seq<FieldView>,
    params: Seq<GenericParameterView>,
    target: Seq<char>,
    upto: int,
) -> bool {
    exists|j: int|
        0 <= j < upto && j < fields.len() && mentions((#[trigger] fields[j]).ty, params)
            && constraint == required(fields[j], target)
}

/// Whether `constraint` is the one of a field, of one of the first `upto` variants, whose
/// type mentions a type parameter.
pub open spec fn from_variant(
    constraint: ConstraintView,
    variants: Seq<VariantView>,
    params: Seq<GenericParameterView>,
    target: Seq<char>,
    upto: int,
) -> bool {
    exists|v: int|
        0 <= v < upto && v < variants.len() && from_field(
            constraint,
            (#[trigger] variants[v]).fields.items(),
            params,
            target,
            variants[v].fields.items().len() as int,
        )
}

/// Each constraint for the first `upto` fields is the one of a field among them whose
/// type mentions a type parameter, and each such field has its constraint.
pub proof fn lemma_field_constraints(
    fields: Seq<FieldView>,
    params: Seq<GenericParameterView>,
    target: Seq<char>,
    upto: int,
)
    requires
        0 <= upto <= fields.len(),
    ensures
        forall|k: int|
            0 <= k < field_constraints(fields, params, target, upto).len() ==> from_field(
                #[trigger] field_constraints(fields, params, target, upto)[k],
                fields,
                params,
                target,
                upto,
            ),
        forall|constraint: ConstraintView|
            from_field(constraint, fields, params, target, upto) ==> field_constraints(
                fields,
                params,
                target,
                upto,
            ).contains(constraint),
    decreases upto,
{
    if upto > 0 {
        lemma_field_constraints(fields, params, target, upto - 1);
        let front = field_constraints(fields, params, target, upto - 1);
        let whole = field_constraints(fields, params, target, upto);
        assert forall|k: int| 0 <= k < whole.len() implies from_field(
            #[trigger] whole[k],
            fields,
            params,
            target,
            upto,
        ) by {
            if k < front.len() {
                assert(whole[k] == front[k]);
                assert(from_field(front[k], fields, params, target, upto - 1));
                let j = choose|j: int|
                    0 <= j < upto - 1 && j < fields.len() && mentions(
                        (#[trigger] fields[j]).ty,
                        params,
                    ) && front[k] == required(fields[j], target);
                assert(mentions(fields[j].ty, params));
            } else {
                assert(whole[k] == required(fields[upto - 1], target));
                assert(mentions(fields[upto - 1].ty, params));
            }
        }
        assert forall|constraint: ConstraintView|
            from_field(constraint, fields, params, target, upto) implies whole.contains(
            constraint,
        ) by {
            let j = choose|j: int|
                0 <= j < upto && j < fields.len() && mentions((#[trigger] fields[j]).ty, params)
                    && constraint == required(fields[j], target);
            if j < upto - 1 {
                assert(from_field(constraint, fields, params, target, upto - 1));
                let k = choose|k: int| 0 <= k < front.len() && front[k] == constraint;
                assert(whole[k] == constraint);
            } else {
                assert(whole[whole.len() - 1] == constraint);
            }
        }
    }
}

/// Each constraint for the first `upto` variants is the one of a field of one of them
/// whose type mentions a type parameter, and each such field has its constraint.
pub proof fn lemma_variant_constraints(
    variants: Seq<VariantView>,
    params: Seq<GenericParameterView>,
    target: Seq<char>,
    upto: int,
)
    requires
        0 <= upto <= variants.len(),
    ensures
        forall|k: int|
            0 <= k < variant_constraints(variants, params, target, upto).len() ==> from_variant(
                #[trigger] variant_constraints(variants, params, target, upto)[k],
                variants,
                params,
                target,
                upto,
            ),
        forall|constraint: ConstraintView|
            from_variant(constraint, variants, params, target, upto) ==> variant_constraints(
                variants,
                params,
                target,
                upto,
            ).contains(constraint),
    decreases upto,
{
    if upto > 0 {
        lemma_variant_constraints(variants, params, target, upto - 1);
        let fields = variants[upto - 1].fields.items();
        lemma_field_constraints(fields, params, target, fields.len() as int);
        let front = variant_constraints(variants, params, target, upto - 1);
        let last = field_constraints(fields, params, target, fields.len() as int);
        let whole = variant_constraints(variants, params, target, upto);
        assert(whole == front + last);
        assert forall|k: int| 0 <= k < whole.len() implies from_variant(
            #[trigger] whole[k],
            variants,
            params,
            target,
            upto,
        ) by {
            if k < front.len() {
                assert(whole[k] == front[k]);
                assert(from_variant(front[k], variants, params, target, upto - 1));
                let v = choose|v: int|
                    0 <= v < upto - 1 && v < variants.len() && from_field(
                        front[k],
                        (#[trigger] variants[v]).fields.items(),
                        params,
                        target,
                        variants[v].fields.items().len() as int,
                    );
                assert(from_field(
                    whole[k],
                    variants[v].fields.items(),
                    params,
                    target,
                    variants[v].fields.items().len() as int,
                ));
            } else {
                assert(whole[k] == last[k - front.len()]);
                assert(from_field(
                    whole[k],
                    variants[upto - 1].fields.items(),
                    params,
                    target,
                    fields.len() as int,
                ));
            }
        }
        assert forall|constraint: ConstraintView|
            from_variant(constraint, variants, params, target, upto) implies whole.contains(
            constraint,
        ) by {
            let v = choose|v: int|
                0 <= v < upto && v < variants.len() && from_field(
                    constraint,
                    (#[trigger] variants[v]).fields.items(),
                    params,
                    target,
                    variants[v].fields.items().len() as int,
                );
            if v < upto - 1 {
                assert(from_variant(constraint, variants, params, target, upto - 1));
                let k = choose|k: int| 0 <= k < front.len() && front[k] == constraint;
                assert(whole[k] == constraint);
            } else {
                let k = choose|k: int| 0 <= k < last.len() && last[k] == constraint;
                assert(whole[front.len() + k] == constraint);
            }
        }
    }
}

/// Inference asks nothing that no field calls for: each inferred constraint is on the
/// whole type of a declared field that mentions a type parameter, and bounds it by the
/// capability alone.
pub proof fn law_constraints_come_from_fields(
    data: DataView,
    params: Seq<GenericParameterView>,
    target: Seq<char>,
    k: int,
)
    requires
        0 <= k < inferred_constraints(data, params, target).len(),
    ensures
        exists|field: FieldView|
            declares_field(data, field) && mentions(field.ty, params) && inferred_constraints(
                data,
                params,
                target,
            )[k] == required(field, target),
{
    let found = inferred_constraints(data, params, target)[k];
    match data {
        DataView::Struct(fields) => {
            let items = fields.items();
            lemma_field_constraints(items, params, target, items.len() as int);
            assert(from_field(found, items, params, target, items.len() as int));
            let j = choose|j: int|
                0 <= j < items.len() && mentions((#[trigger] items[j]).ty, params) && found
                    == required(items[j], target);
            assert(items.contains(items[j]));
            assert(declares_field(data, items[j]));
        },
        DataView::Enum(variants) => {
            lemma_variant_constraints(variants, params, target, variants.len() as int);
            assert(from_variant(found, variants, params, target, variants.len() as int));
            let v = choose|v: int|
                0 <= v < variants.len() && from_field(
                    found,
                    (#[trigger] variants[v]).fields.items(),
                    params,
                    target,
                    variants[v].fields.items().len() as int,
                );
            let items = variants[v].fields.items();
            let j = choose|j: int|
                0 <= j < items.len() && mentions((#[trigger] items[j]).ty, params) && found
                    == required(items[j], target);
            assert(items.contains(items[j]));
            assert(declares_field(data, items[j]));
        },
        DataView::Union => {},
    }
}

/// Inference asks all that the fields call for: a declared field whose type mentions a
/// type parameter has its constraint, whether a derivation skips the field or not.
pub proof fn law_fields_are_constrained(
    data: DataView,
    params: Seq<GenericParameterView>,
    target: Seq<char>,
    field: FieldView,
)
    requires
        declares_field(data, field),
        mentions(field.ty, params),
    ensures
        inferred_constraints(data, params, target).contains(required(field, target)),
{
    let wanted = required(field, target);
    match data {
        DataView::Struct(fields) => {
            let items = fields.items();
            lemma_field_constraints(items, params, target, items.len() as int);
            let j = choose|j: int| 0 <= j < items.len() && items[j] == field;
            assert(mentions(items[j].ty, params));
            assert(from_field(wanted, items, params, target, items.len() as int));
        },
        DataView::Enum(variants) => {
            lemma_variant_constraints(variants, params, target, variants.len() as int);
            let v = choose|v: int|
                0 <= v < variants.len() && (#[trigger] variants[v]).fields.items().contains(field);
            let items = variants[v].fields.items();
            let j = choose|j: int| 0 <= j < items.len() && items[j] == field;
            assert(mentions(items[j].ty, params));
            assert(from_field(wanted, items, params, target, items.len() as int));
            assert(from_variant(wanted, variants, params, target, variants.len() as int));
        },
        DataView::Union => {},
    }
}

/// A type parameter that no field has as its whole type is left unconstrained by
/// inference, whatever the capability: a parameter that only occurs inside other types,
/// such as a marker, gets no constraint of its own.
pub proof fn law_constraint_minimality(
    data: DataView,
    params: Seq<GenericParameterView>,
    target: Seq<char>,
    name: Seq<char>,
)
    requires
        forall|field: FieldView| declares_field(data, field) ==> field.ty.text() != name,
    ensures
        forall|k: int|
            0 <= k < inferred_constraints(data, params, target).len() ==> (
            #[trigger] inferred_constraints(data, params, target)[k]).subject != name,
{
    assert forall|k: int| 0 <= k < inferred_constraints(data, params, target).len() implies (
    #[trigger] inferred_constraints(data, params, target)[k]).subject != name by {
        law_constraints_come_from_fields(data, params, target, k);
    }
}

/// The placeholder is replaced wherever it is the path of a bound, and nowhere else:
/// a bound whose path is the placeholder keeps what is written round it and has the
/// capability as its path; every other bound stays as it is; and, the capability not
/// being the placeholder itself, no bound is the placeholder afterwards.
pub proof fn law_placeholder_is_replaced(bounds: Seq<BoundView>, target: Seq<char>)
    ensures
        resolved(bounds, target).len() == bounds.len(),
        forall|i: int|
            0 <= i < bounds.len() && is_placeholder(bounds[i]) ==> #[trigger] resolved(
                bounds,
                target,
            )[i] == (BoundView::Trait {
                parenthesized: bounds[i]->parenthesized,
                modifier: bounds[i]->modifier,
                binder: bounds[i]->binder,
                path: target,
            }),
        forall|i: int|
            0 <= i < bounds.len() && !is_placeholder(bounds[i]) ==> #[trigger] resolved(
                bounds,
                target,
            )[i] == bounds[i],
        target != PLACEHOLDER@ ==> forall|i: int|
            0 <= i < bounds.len() ==> !is_placeholder(#[trigger] resolved(bounds, target)[i]),
{
}

/// Constraints that the attributes give are the constraints of the implementation, as
/// many and in their order, each with its binder and what it bounds as given and with
/// the placeholder replaced in its bounds; inference adds none.
pub proof fn law_given_constraints_are_kept(
    config: AttributeConfigView,
    data: DataView,
    params: Seq<GenericParameterView>,
    target: Seq<char>,
)
    requires
        config.constraints is Some,
    ensures
        constraints(config, data, params, target).len() == config.constraints->0.len(),
        forall|i: int|
            0 <= i < config.constraints->0.len() ==> {
                let given = config.constraints->0[i];
                let kept = #[trigger] constraints(config, data, params, target)[i];
                &&& kept.binder == given.binder
                &&& kept.subject == given.subject
                &&& kept.bounds == resolved(given.bounds, target)
            },
        target != PLACEHOLDER@ ==> forall|i: int, j: int|
            0 <= i < config.constraints->0.len() && 0 <= j < config.constraints->0[i].bounds.len()
                ==> !is_placeholder(
                #[trigger] constraints(config, data, params, target)[i].bounds[j],
            ),
{
    if target != PLACEHOLDER@ {
        assert forall|i: int, j: int|
            0 <= i < config.constraints->0.len() && 0 <= j
                < config.constraints->0[i].bounds.len() implies !is_placeholder(
            #[trigger] constraints(config, data, params, target)[i].bounds[j],
        ) by {
            law_placeholder_is_replaced(config.constraints->0[i].bounds, target);
            assert(constraints(config, data, params, target)[i].bounds[j] == resolved(
                config.constraints->0[i].bounds,
                target,
            )[j]);
        }
    }
}

/// Generic parameters that the attributes give are the parameters of the
/// implementation, as many and in their order, each with its kind and name as given;
/// a type parameter has the placeholder replaced in its bounds, any other parameter
/// keeps its bounds.
pub proof fn law_given_parameters_are_kept(
    config: AttributeConfigView,
    declared: Seq<GenericParameterView>,
    target: Seq<char>,
)
    requires
        config.impl_generics is Some,
    ensures
        impl_generics(config, declared, target).len() == config.impl_generics->0.len(),
        forall|i: int|
            0 <= i < config.impl_generics->0.len() ==> {
                let given = config.impl_generics->0[i];
                let kept = #[trigger] impl_generics(config, declared, target)[i];
                &&& kept.kind == given.kind
                &&& kept.name == given.name
                &&& kept.bounds == if given.kind is Type {
                    resolved(given.bounds, target)
                } else {
                    given.bounds
                }
            },
{
}

} // verus!
