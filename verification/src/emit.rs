//! Writing generated code: templates that are filled in field by field, the patterns
//! that take a value apart, and the head of an implementation.

use vstd::prelude::*;
use vstd::string::*;
use crate::common::Header;
use crate::common::HeaderView;
use crate::model::Bound;
use crate::model::BoundView;
use crate::model::Constraint;
use crate::model::ConstraintView;
use crate::model::GenericParameter;
use crate::model::GenericParameterView;
use crate::model::ParamKind;
use crate::plan::Arm;
use crate::plan::ArmView;
use crate::plan::FieldBinding;
use crate::plan::FieldBindingView;
use crate::selection::Shape;
use crate::text::decimal;
use crate::text::join;
use crate::text::joined;
use crate::text::render_number;

verus! {

/// One piece of a template: fixed text, or the place of something that a field brings.
#[derive(Clone, Debug, PartialEq, Eq)]
pub enum Part {
    /// Text that stands as it is.
    Text(String),
    /// The field's type.
    Type,
    /// The field's name.
    Name,
    /// What follows `self.` to reach the field.
    Member,
    /// The variable that a pattern binds the field to.
    Local,
    /// The variable for the field of the left one of two values.
    Left,
    /// The variable for the field of the right one of two values.
    Right,
}

/// The mathematical value of a [`Part`].
pub enum PartView {
    Text(Seq<char>),
    Type,
    Name,
    Member,
    Local,
    Left,
    Right,
}

impl DeepView for Part {
    type V = PartView;

    open spec fn deep_view(&self) -> PartView {
        match self {
            Part::Text(text) => PartView::Text(text@),
            Part::Type => PartView::Type,
            Part::Name => PartView::Name,
            Part::Member => PartView::Member,
            Part::Local => PartView::Local,
            Part::Left => PartView::Left,
            Part::Right => PartView::Right,
        }
    }
}

/// The text that one piece of a template becomes for `field`.
pub open spec fn part_text(part: PartView, field: FieldBindingView) -> Seq<char> {
    match part {
        PartView::Text(text) => text,
        PartView::Type => field.ty,
        PartView::Name => field.name,
        PartView::Member => field.member,
        PartView::Local => field.local,
        PartView::Left => field.left,
        PartView::Right => field.right,
    }
}

/// The text that a template becomes for `field`: its pieces one after the other.
pub open spec fn filled(parts: Seq<PartView>, field: FieldBindingView) -> Seq<char> {
    joined(Seq::new(parts.len(), |i: int| part_text(parts[i], field)), ""@)
}

/// The texts that a template becomes for each of `fields`, in their order.
pub open spec fn filled_all(parts: Seq<PartView>, fields: Seq<FieldBindingView>) -> Seq<
    Seq<char>,
> {
    Seq::new(fields.len(), |i: int| filled(parts, fields[i]))
}

/// Fills a template in for one field.
pub fn fill(parts: &Vec<Part>, field: &FieldBinding) -> (r: String)
    ensures
        r@ == filled(parts.deep_view(), field.deep_view()),
{
    let mut texts: Vec<String> = Vec::new();
    let mut i: usize = 0;
    while i < parts.len()
        invariant
            i <= parts.len(),
            texts.len() == i,
            parts.deep_view().len() == parts.len(),
            forall|j: int|
                0 <= j < i ==> texts.deep_view()[j] == part_text(
                    parts.deep_view()[j],
                    field.deep_view(),
                ),
        decreases parts.len() - i,
    {
        let ghost before = texts.deep_view();
        assert(parts.deep_view()[i as int] == parts[i as int].deep_view());
        let next = match &parts[i] {
            Part::Text(text) => text.clone(),
            Part::Type => field.ty.clone(),
            Part::Name => field.name.clone(),
            Part::Member => field.member.clone(),
            Part::Local => field.local.clone(),
            Part::Left => field.left.clone(),
            Part::Right => field.right.clone(),
        };
        texts.push(next);
        assert(texts.deep_view() =~= before.push(next@));
        i = i + 1;
    }
    assert(texts.deep_view() =~= Seq::new(
        parts.deep_view().len(),
        |i: int| part_text(parts.deep_view()[i], field.deep_view()),
    ));
    join(&texts, "")
}

/// Fills a template in for each field.
pub fn fill_all(parts: &Vec<Part>, fields: &Vec<FieldBinding>) -> (r: Vec<String>)
    ensures
        r.deep_view() == filled_all(parts.deep_view(), fields.deep_view()),
{
    let mut out: Vec<String> = Vec::new();
    let mut i: usize = 0;
    while i < fields.len()
        invariant
            i <= fields.len(),
            out.len() == i,
            fields.deep_view().len() == fields.len(),
            forall|j: int|
                0 <= j < i ==> out.deep_view()[j] == filled(
                    parts.deep_view(),
                    fields.deep_view()[j],
                ),
        decreases fields.len() - i,
    {
        let ghost before = out.deep_view();
        assert(fields.deep_view()[i as int] == fields[i as int].deep_view());
        let next = fill(parts, &fields[i]);
        out.push(next);
        assert(out.deep_view() =~= before.push(next@));
        i = i + 1;
    }
    assert(out.deep_view() =~= filled_all(parts.deep_view(), fields.deep_view()));
    out
}

/// Makes a piece of fixed text.
pub fn fixed(text: &str) -> (r: Part)
    ensures
        r.deep_view() == PartView::Text(text@),
{
    Part::Text(String::from_str(text))
}

/// Which value of a match a pattern takes apart.
#[derive(Clone, Copy, Debug, PartialEq, Eq, Structural)]
pub enum Side {
    /// The only one.
    Single,
    /// The left one of two.
    Left,
    /// The right one of two.
    Right,
}

/// The variable that a pattern on `side` binds `field` to.
pub open spec fn bound_name(field: FieldBindingView, side: Side) -> Seq<char> {
    match side {
        Side::Single => field.local,
        Side::Left => field.left,
        Side::Right => field.right,
    }
}

/// A named field in a pattern: its name, and behind it the variable where that is not
/// the name itself.
pub open spec fn named_entry(field: FieldBindingView, side: Side) -> Seq<char> {
    match side {
        Side::Single => field.name,
        _ => field.name + ": "@ + bound_name(field, side),
    }
}

/// The position, among `fields`, of the first binding at or after `from` for the field
/// declared at `slot`.
pub open spec fn binding_at(fields: Seq<FieldBindingView>, slot: int, from: int) -> Option<int>
    decreases fields.len() - from,
{
    if from < 0 || from >= fields.len() {
        None
    } else if fields[from].slot == slot {
        Some(from)
    } else {
        binding_at(fields, slot, from + 1)
    }
}

/// The place of the field declared at `slot` in a pattern of positional fields: its
/// variable where it takes part, `_` where it does not.
pub open spec fn positional_entry(fields: Seq<FieldBindingView>, slot: int, side: Side) -> Seq<
    char,
> {
    match binding_at(fields, slot, 0) {
        Some(at) => bound_name(fields[at], side),
        None => "_"@,
    }
}

/// The entries of a pattern between its brackets.
pub open spec fn pattern_entries(arm: ArmView, side: Side) -> Seq<Seq<char>> {
    match arm.shape {
        Shape::Named => {
            let named = Seq::new(arm.fields.len(), |i: int| named_entry(arm.fields[i], side));
            if arm.fields.len() < arm.arity {
                named.push(".."@)
            } else {
                named
            }
        },
        Shape::Unnamed => Seq::new(
            arm.arity as nat,
            |slot: int| positional_entry(arm.fields, slot, side),
        ),
        Shape::Unit => Seq::empty(),
    }
}

/// The pattern that takes a value of an arm's variant apart: each field that takes part
/// is bound to its variable, the others are passed over.
pub open spec fn pattern(arm: ArmView, side: Side) -> Seq<char> {
    match arm.shape {
        Shape::Named => "Self::"@ + arm.variant + " { "@ + joined(
            pattern_entries(arm, side),
            ", "@,
        ) + " }"@,
        Shape::Unnamed => "Self::"@ + arm.variant + "("@ + joined(
            pattern_entries(arm, side),
            ", "@,
        ) + ")"@,
        Shape::Unit => "Self::"@ + arm.variant,
    }
}

fn bound(field: &FieldBinding, side: Side) -> (r: String)
    ensures
        r@ == bound_name(field.deep_view(), side),
{
    match side {
        Side::Single => field.local.clone(),
        Side::Left => field.left.clone(),
        Side::Right => field.right.clone(),
    }
}

fn write_positional_entry(fields: &Vec<FieldBinding>, slot: usize, side: Side) -> (r: String)
    ensures
        r@ == positional_entry(fields.deep_view(), slot as int, side),
{
    let ghost all = fields.deep_view();
    let mut i: usize = 0;
    while i < fields.len()
        invariant
            i <= fields.len(),
            all == fields.deep_view(),
            all.len() == fields.len(),
            binding_at(all, slot as int, 0) == binding_at(all, slot as int, i as int),
        decreases fields.len() - i,
    {
        assert(all[i as int] == fields[i as int].deep_view());
        if fields[i].slot == slot {
            return bound(&fields[i], side);
        }
        i = i + 1;
    }
    String::from_str("_")
}

fn write_pattern_entries(arm: &Arm, side: Side) -> (r: Vec<String>)
    ensures
        r.deep_view() == pattern_entries(arm.deep_view(), side),
{
    let ghost all = arm.deep_view().fields;
    let mut out: Vec<String> = Vec::new();
    assert(out.deep_view() =~= Seq::empty());
    assert(all.len() == arm.fields.len());
    match arm.shape {
        Shape::Named => {
            let mut i: usize = 0;
            while i < arm.fields.len()
                invariant
                    i <= arm.fields.len(),
                    out.len() == i,
                    all == arm.fields.deep_view(),
                    all.len() == arm.fields.len(),
                    forall|j: int| 0 <= j < i ==> out.deep_view()[j] == named_entry(all[j], side),
                decreases arm.fields.len() - i,
            {
                let ghost before = out.deep_view();
                assert(all[i as int] == arm.fields[i as int].deep_view());
                let field = &arm.fields[i];
                let next = match side {
                    Side::Single => field.name.clone(),
                    _ => {
                        let mut entry = field.name.clone();
                        entry.append(": ");
                        entry.append(bound(field, side).as_str());
                        entry
                    },
                };
                out.push(next);
                assert(out.deep_view() =~= before.push(next@));
                i = i + 1;
            }
            let ghost named = out.deep_view();
            assert(named =~= Seq::new(all.len(), |i: int| named_entry(all[i], side)));
            if arm.fields.len() < arm.arity {
                let rest = String::from_str("..");
                out.push(rest);
                assert(out.deep_view() =~= named.push(".."@));
            }
        },
        Shape::Unnamed => {
            let mut slot: usize = 0;
            while slot < arm.arity
                invariant
                    slot <= arm.arity,
                    out.len() == slot,
                    all == arm.fields.deep_view(),
                    forall|j: int|
                        0 <= j < slot ==> out.deep_view()[j] == positional_entry(all, j, side),
                decreases arm.arity - slot,
            {
                let ghost before = out.deep_view();
                let next = write_positional_entry(&arm.fields, slot, side);
                out.push(next);
                assert(out.deep_view() =~= before.push(next@));
                slot = slot + 1;
            }
            assert(out.deep_view() =~= Seq::new(
                arm.arity as nat,
                |slot: int| positional_entry(all, slot, side),
            ));
        },
        Shape::Unit => {},
    }
    out
}

/// Writes the pattern that takes a value of an arm's variant apart.
pub fn write_pattern(arm: &Arm, side: Side) -> (r: String)
    ensures
        r@ == pattern(arm.deep_view(), side),
{
    let mut out = String::from_str("Self::");
    out.append(arm.variant.as_str());
    match arm.shape {
        Shape::Named => {
            out.append(" { ");
            out.append(join(&write_pattern_entries(arm, side), ", ").as_str());
            out.append(" }");
        },
        Shape::Unnamed => {
            out.append("(");
            out.append(join(&write_pattern_entries(arm, side), ", ").as_str());
            out.append(")");
        },
        Shape::Unit => {},
    }
    out
}

/// `text` with a blank behind it, or nothing where `text` is empty.
pub open spec fn spaced(text: Seq<char>) -> Seq<char> {
    if text.len() == 0 {
        text
    } else {
        text + " "@
    }
}

/// A bound as it is written: a trait bound is its modifier, its binder and its path,
/// in parentheses where it stands in them; any other bound is its text.
pub open spec fn bound_text(bound: BoundView) -> Seq<char> {
    match bound {
        BoundView::Trait { parenthesized, modifier, binder, path } => if parenthesized {
            "("@ + spaced(modifier) + spaced(binder) + path + ")"@
        } else {
            spaced(modifier) + spaced(binder) + path
        },
        BoundView::Other(text) => text,
    }
}

/// A list of bounds as it is written behind a colon.
pub open spec fn bounds_text(bounds: Seq<BoundView>) -> Seq<char> {
    joined(Seq::new(bounds.len(), |i: int| bound_text(bounds[i])), " + "@)
}

/// A generic parameter as it is written in the head of an implementation.
pub open spec fn parameter_text(param: GenericParameterView) -> Seq<char> {
    let start = match param.kind {
        ParamKind::Type => param.name,
        ParamKind::Lifetime => "\'"@ + param.name,
        ParamKind::Const => "const "@ + param.name,
    };
    if param.bounds.len() == 0 {
        start
    } else {
        start + ": "@ + bounds_text(param.bounds)
    }
}

/// A constraint as it is written in a `where` clause.
pub open spec fn constraint_text(constraint: ConstraintView) -> Seq<char> {
    spaced(constraint.binder) + constraint.subject + ": "@ + bounds_text(constraint.bounds)
}

/// The generic parameters as they follow `impl`: nothing where there are none.
pub open spec fn impl_gen_text(params: Seq<GenericParameterView>) -> Seq<char> {
    if params.len() == 0 {
        Seq::empty()
    } else {
        "<"@ + joined(Seq::new(params.len(), |i: int| parameter_text(params[i])), ", "@) + ">"@
    }
}

/// The generic arguments as they follow the type's name: nothing where there are none.
pub open spec fn type_gen_text(args: Seq<Seq<char>>) -> Seq<char> {
    if args.len() == 0 {
        Seq::empty()
    } else {
        "<"@ + joined(args, ", "@) + ">"@
    }
}

/// The constraints as a `where` clause: nothing where there are none.
pub open spec fn where_clause_text(constraints: Seq<ConstraintView>) -> Seq<char> {
    if constraints.len() == 0 {
        Seq::empty()
    } else {
        "where "@ + joined(
            Seq::new(constraints.len(), |i: int| constraint_text(constraints[i])),
            ", "@,
        )
    }
}

/// An implementation of `target` as it is written: its head, and `items` between braces.
pub open spec fn impl_text(header: HeaderView, target: Seq<char>, items: Seq<char>) -> Seq<char> {
    "impl"@ + impl_gen_text(header.impl_gen) + " "@ + target + " for "@ + header.name
        + type_gen_text(header.ty_gen) + " "@ + where_clause_text(header.where_clause) + " { "@
        + items + " }"@
}

fn append_spaced(out: &mut String, text: &str)
    ensures
        final(out)@ == old(out)@ + spaced(text@),
{
    if text.unicode_len() > 0 {
        out.append(text);
        out.append(" ");
        assert(out@ =~= old(out)@ + (text@ + " "@));
    } else {
        assert(out@ =~= old(out)@ + text@);
    }
}

/// Writes a bound.
pub fn write_bound(bound: &Bound) -> (r: String)
    ensures
        r@ == bound_text(bound.deep_view()),
{
    match bound {
        Bound::Trait { parenthesized, modifier, binder, path } => {
            let mut out = String::new();
            if *parenthesized {
                out.append("(");
            }
            append_spaced(&mut out, modifier.as_str());
            append_spaced(&mut out, binder.as_str());
            out.append(path.as_str());
            if *parenthesized {
                out.append(")");
            }
            assert(out@ =~= bound_text(bound.deep_view()));
            out
        },
        Bound::Other(text) => text.clone(),
    }
}

/// Writes a list of bounds as it stands behind a colon.
pub fn write_bounds(bounds: &Vec<Bound>) -> (r: String)
    ensures
        r@ == bounds_text(bounds.deep_view()),
{
    let mut texts: Vec<String> = Vec::new();
    let mut i: usize = 0;
    while i < bounds.len()
        invariant
            i <= bounds.len(),
            texts.len() == i,
            bounds.deep_view().len() == bounds.len(),
            forall|j: int| 0 <= j < i ==> texts.deep_view()[j] == bound_text(bounds.deep_view()[j]),
        decreases bounds.len() - i,
    {
        let ghost before = texts.deep_view();
        assert(bounds.deep_view()[i as int] == bounds[i as int].deep_view());
        let next = write_bound(&bounds[i]);
        texts.push(next);
        assert(texts.deep_view() =~= before.push(next@));
        i = i + 1;
    }
    assert(texts.deep_view() =~= Seq::new(
        bounds.deep_view().len(),
        |i: int| bound_text(bounds.deep_view()[i]),
    ));
    join(&texts, " + ")
}

fn write_parameter(param: &GenericParameter) -> (r: String)
    ensures
        r@ == parameter_text(param.deep_view()),
{
    let mut out = match param.kind {
        ParamKind::Type => String::new(),
        ParamKind::Lifetime => String::from_str("\'"),
        ParamKind::Const => String::from_str("const "),
    };
    out.append(param.name.as_str());
    assert(param.deep_view().bounds.len() == param.bounds.len());
    if param.bounds.len() > 0 {
        out.append(": ");
        out.append(write_bounds(&param.bounds).as_str());
    }
    assert(out@ =~= parameter_text(param.deep_view()));
    out
}

fn write_constraint(constraint: &Constraint) -> (r: String)
    ensures
        r@ == constraint_text(constraint.deep_view()),
{
    let mut out = String::new();
    append_spaced(&mut out, constraint.binder.as_str());
    out.append(constraint.subject.as_str());
    out.append(": ");
    out.append(write_bounds(&constraint.bounds).as_str());
    assert(out@ =~= constraint_text(constraint.deep_view()));
    out
}

/// Writes the generic parameters as they follow `impl`.
pub fn write_impl_gen(params: &Vec<GenericParameter>) -> (r: String)
    ensures
        r@ == impl_gen_text(params.deep_view()),
{
    assert(params.deep_view().len() == params.len());
    if params.len() == 0 {
        return String::new();
    }
    let mut texts: Vec<String> = Vec::new();
    let mut i: usize = 0;
    while i < params.len()
        invariant
            i <= params.len(),
            texts.len() == i,
            params.deep_view().len() == params.len(),
            forall|j: int|
                0 <= j < i ==> texts.deep_view()[j] == parameter_text(params.deep_view()[j]),
        decreases params.len() - i,
    {
        let ghost before = texts.deep_view();
        assert(params.deep_view()[i as int] == params[i as int].deep_view());
        let next = write_parameter(&params[i]);
        texts.push(next);
        assert(texts.deep_view() =~= before.push(next@));
        i = i + 1;
    }
    assert(texts.deep_view() =~= Seq::new(
        params.deep_view().len(),
        |i: int| parameter_text(params.deep_view()[i]),
    ));
    let mut out = String::from_str("<");
    out.append(join(&texts, ", ").as_str());
    out.append(">");
    out
}

/// Writes the generic arguments as they follow the type's name.
pub fn write_type_gen(args: &Vec<String>) -> (r: String)
    ensures
        r@ == type_gen_text(args.deep_view()),
{
    assert(args.deep_view().len() == args.len());
    if args.len() == 0 {
        return String::new();
    }
    let mut out = String::from_str("<");
    out.append(join(args, ", ").as_str());
    out.append(">");
    out
}

/// Writes the constraints as a `where` clause.
pub fn write_where_clause(constraints: &Vec<Constraint>) -> (r: String)
    ensures
        r@ == where_clause_text(constraints.deep_view()),
{
    assert(constraints.deep_view().len() == constraints.len());
    if constraints.len() == 0 {
        return String::new();
    }
    let mut texts: Vec<String> = Vec::new();
    let mut i: usize = 0;
    while i < constraints.len()
        invariant
            i <= constraints.len(),
            texts.len() == i,
            constraints.deep_view().len() == constraints.len(),
            forall|j: int|
                0 <= j < i ==> texts.deep_view()[j] == constraint_text(
                    constraints.deep_view()[j],
                ),
        decreases constraints.len() - i,
    {
        let ghost before = texts.deep_view();
        assert(constraints.deep_view()[i as int] == constraints[i as int].deep_view());
        let next = write_constraint(&constraints[i]);
        texts.push(next);
        assert(texts.deep_view() =~= before.push(next@));
        i = i + 1;
    }
    assert(texts.deep_view() =~= Seq::new(
        constraints.deep_view().len(),
        |i: int| constraint_text(constraints.deep_view()[i]),
    ));
    let mut out = String::from_str("where ");
    out.append(join(&texts, ", ").as_str());
    out
}

/// Writes an implementation of `target`: its head, and `items` between braces.
pub fn write_impl(header: &Header, target: &str, items: &str) -> (r: String)
    ensures
        r@ == impl_text(header.deep_view(), target@, items@),
{
    let mut out = String::from_str("impl");
    out.append(header.impl_gen.render().as_str());
    out.append(" ");
    out.append(target);
    out.append(" for ");
    out.append(header.name.as_str());
    out.append(header.ty_gen.render().as_str());
    out.append(" ");
    out.append(header.where_clause.render().as_str());
    out.append(" { ");
    out.append(items);
    out.append(" }");
    out
}

/// An integer as it is written: a minus sign where it is negative, and its digits.
pub open spec fn integer_text(value: int) -> Seq<char> {
    if value < 0 {
        "-"@ + decimal((-value) as nat)
    } else {
        decimal(value as nat)
    }
}

/// Writes an integer.
pub fn write_integer(value: i64) -> (r: String)
    ensures
        r@ == integer_text(value as int),
{
    if value < 0 {
        let below: i64 = -(value + 1);
        let magnitude: u64 = below as u64 + 1;
        let mut out = String::from_str("-");
        out.append(render_number(magnitude).as_str());
        out
    } else {
        render_number(value as u64)
    }
}

/// A `match` as it is written: `scrutinee` taken apart by `arms`, with `fallback` behind
/// the last of them. Without arms there is no value to match, and the code says that it
/// cannot be reached.
pub open spec fn match_text(scrutinee: Seq<char>, arms: Seq<Seq<char>>, fallback: Seq<char>) -> Seq<
    char,
> {
    if arms.len() == 0 {
        "::std::unreachable!()"@
    } else {
        "match "@ + scrutinee + " { "@ + joined(arms, " "@) + fallback + " }"@
    }
}

/// Writes a `match`.
pub fn write_match(scrutinee: &str, arms: &Vec<String>, fallback: &str) -> (r: String)
    ensures
        r@ == match_text(scrutinee@, arms.deep_view(), fallback@),
{
    assert(arms.deep_view().len() == arms.len());
    if arms.len() == 0 {
        return String::from_str("::std::unreachable!()");
    }
    let mut out = String::from_str("match ");
    out.append(scrutinee);
    out.append(" { ");
    out.append(join(arms, " ").as_str());
    out.append(fallback);
    out.append(" }");
    out
}

/// A list of fields as it is written between the brackets of its shape, behind `head`:
/// `entries` with commas between them; `head` alone for a unit.
pub open spec fn bracketed(shape: Shape, head: Seq<char>, entries: Seq<Seq<char>>) -> Seq<char> {
    match shape {
        Shape::Named => head + " { "@ + joined(entries, ", "@) + " }"@,
        Shape::Unnamed => head + "("@ + joined(entries, ", "@) + ")"@,
        Shape::Unit => head,
    }
}

/// Writes a list of fields between the brackets of its shape, behind `head`.
pub fn write_bracketed(shape: Shape, head: &str, entries: &Vec<String>) -> (r: String)
    ensures
        r@ == bracketed(shape, head@, entries.deep_view()),
{
    let mut out = String::from_str(head);
    match shape {
        Shape::Named => {
            out.append(" { ");
            out.append(join(entries, ", ").as_str());
            out.append(" }");
        },
        Shape::Unnamed => {
            out.append("(");
            out.append(join(entries, ", ").as_str());
            out.append(")");
        },
        Shape::Unit => {},
    }
    out
}

} // verus!
