//! Deriving debug formatting: the name of the type, or of the type and the variant, and
//! the fields that take part, written like a struct or like a tuple.

use vstd::prelude::*;
use vstd::string::*;
use crate::capability::DEBUG_ATTR_NAME;
use crate::capability::DEBUG_TARGET;
use crate::common::derivation;
use crate::common::derive_plan;
use crate::common::Header;
use crate::common::HeaderView;
use crate::emit::fill_all;
use crate::emit::filled_all;
use crate::emit::fixed;
use crate::emit::impl_text;
use crate::emit::match_text;
use crate::emit::Part;
use crate::emit::PartView;
use crate::emit::pattern;
use crate::emit::Side;
use crate::emit::write_impl;
use crate::emit::write_match;
use crate::emit::write_pattern;
use crate::error::DeriveError;
use crate::error::result_view;
use crate::model::TypeDefinition;
use crate::model::TypeDefinitionView;
use crate::plan::Arm;
use crate::plan::arm_for;
use crate::plan::ArmView;
use crate::plan::build_plan;
use crate::plan::FieldBinding;
use crate::plan::FieldBindingView;
use crate::plan::Plan;
use crate::plan::plan_of;
use crate::plan::PlanView;
use crate::selection::Selection;
use crate::selection::Shape;
use crate::text::indent;
use crate::text::indented;
use crate::text::join;
use crate::text::joined;

verus! {

/// The body of `fmt`: the name of the type and, for each arm, the fields to write.
#[derive(Clone, Debug, PartialEq, Eq)]
pub struct DebugBody {
    pub name: String,
    pub plan: Plan,
}

/// The mathematical value of a [`DebugBody`].
pub struct DebugBodyView {
    pub name: Seq<char>,
    pub plan: PlanView,
}

impl DeepView for DebugBody {
    type V = DebugBodyView;

    open spec fn deep_view(&self) -> DebugBodyView {
        DebugBodyView { name: self.name@, plan: self.plan.deep_view() }
    }
}

/// What a value is headed by: the type's name, and for an enum the variant's behind it.
pub open spec fn label(name: Seq<char>, arm: ArmView, tagged: bool) -> Seq<char> {
    if tagged {
        name + "::"@ + arm.variant
    } else {
        name
    }
}

/// One field as it is written: its name before it where it has one; on a line of its
/// own, one level deeper, where the value is spread over lines. `texts` holds for each
/// declared field what its value is written as.
pub open spec fn entry(
    field: FieldBindingView,
    shape: Shape,
    texts: Seq<Seq<char>>,
    pretty: bool,
) -> Seq<char> {
    let value = if pretty {
        indented(texts[field.slot as int])
    } else {
        texts[field.slot as int]
    };
    let pair = if shape is Named {
        field.name + ": "@ + value
    } else {
        value
    };
    if pretty {
        "    "@ + pair + ",\n"@
    } else {
        pair
    }
}

/// The fields of an arm as they are written, in their order.
pub open spec fn entries(arm: ArmView, texts: Seq<Seq<char>>, pretty: bool) -> Seq<Seq<char>> {
    Seq::new(arm.fields.len(), |i: int| entry(arm.fields[i], arm.shape, texts, pretty))
}

/// A value as it is written: its head alone where no field takes part; else the fields
/// between braces or parentheses, on one line with commas between them, or one to a
/// line with a comma behind each.
pub open spec fn rendering(arm: ArmView, head: Seq<char>, texts: Seq<Seq<char>>, pretty: bool) -> Seq<
    char,
> {
    if arm.shape is Unit || arm.fields.len() == 0 {
        head
    } else if arm.shape is Named {
        if pretty {
            head + " {\n"@ + joined(entries(arm, texts, pretty), ""@) + "}"@
        } else {
            head + " { "@ + joined(entries(arm, texts, pretty), ", "@) + " }"@
        }
    } else {
        if pretty {
            head + "(\n"@ + joined(entries(arm, texts, pretty), ""@) + ")"@
        } else {
            head + "("@ + joined(entries(arm, texts, pretty), ", "@) + ")"@
        }
    }
}

/// What `fmt` writes for a value of the variant declared at `ordinal`, given what each
/// declared field's value is written as in the same mode. `None` where the body cannot
/// run on such a value: no arm is for its variant, or the arm expects another number of
/// fields.
pub open spec fn formatted(
    body: DebugBodyView,
    ordinal: usize,
    texts: Seq<Seq<char>>,
    pretty: bool,
) -> Option<Seq<char>> {
    match arm_for(body.plan, ordinal) {
        Some(arm) => if arm.fits(texts.len()) {
            Some(rendering(arm, label(body.name, arm, body.plan is Enum), texts, pretty))
        } else {
            None
        },
        None => None,
    }
}

/// Builds the body of `fmt` for the type called `name`, over what the filter kept.
pub fn build_fmt_impl(name: &str, selection: &Selection) -> (r: DebugBody)
    ensures
        r.deep_view() == (DebugBodyView { name: name@, plan: plan_of(selection.deep_view()) }),
{
    DebugBody { name: String::from_str(name), plan: build_plan(selection) }
}

fn write_entry(field: &FieldBinding, shape: Shape, texts: &Vec<String>, pretty: bool) -> (r: String)
    requires
        field.slot < texts.len(),
    ensures
        r@ == entry(field.deep_view(), shape, texts.deep_view(), pretty),
{
    assert(texts.deep_view()[field.slot as int] == texts[field.slot as int]@);
    let value = if pretty {
        indent(texts[field.slot].as_str())
    } else {
        texts[field.slot].clone()
    };
    let pair = match shape {
        Shape::Named => {
            let mut pair = field.name.clone();
            pair.append(": ");
            pair.append(value.as_str());
            pair
        },
        _ => value,
    };
    if pretty {
        let mut line = String::from_str("    ");
        line.append(pair.as_str());
        line.append(",\n");
        line
    } else {
        pair
    }
}

fn write_entries(arm: &Arm, texts: &Vec<String>, pretty: bool) -> (r: Vec<String>)
    requires
        arm.deep_view().fits(texts.len() as nat),
    ensures
        r.deep_view() == entries(arm.deep_view(), texts.deep_view(), pretty),
{
    let ghost all = arm.deep_view().fields;
    let mut out: Vec<String> = Vec::new();
    let mut i: usize = 0;
    while i < arm.fields.len()
        invariant
            i <= arm.fields.len(),
            out.len() == i,
            all == arm.fields.deep_view(),
            all == arm.deep_view().fields,
            all.len() == arm.fields.len(),
            arm.deep_view().fits(texts.len() as nat),
            forall|j: int|
                0 <= j < i ==> out.deep_view()[j] == entry(
                    all[j],
                    arm.shape,
                    texts.deep_view(),
                    pretty,
                ),
        decreases arm.fields.len() - i,
    {
        let ghost before = out.deep_view();
        assert(all[i as int] == arm.fields[i as int].deep_view());
        let next = write_entry(&arm.fields[i], arm.shape, texts, pretty);
        out.push(next);
        assert(out.deep_view() =~= before.push(next@));
        i = i + 1;
    }
    assert(out.deep_view() =~= entries(arm.deep_view(), texts.deep_view(), pretty));
    out
}

fn write_value(arm: &Arm, head: String, texts: &Vec<String>, pretty: bool) -> (r: String)
    requires
        arm.deep_view().fits(texts.len() as nat),
    ensures
        r@ == rendering(arm.deep_view(), head@, texts.deep_view(), pretty),
{
    assert(arm.deep_view().fields.len() == arm.fields.len());
    let named = match arm.shape {
        Shape::Unit => {
            return head;
        },
        Shape::Named => true,
        Shape::Unnamed => false,
    };
    if arm.fields.len() == 0 {
        return head;
    }
    let written = write_entries(arm, texts, pretty);
    let mut out = head;
    if named {
        if pretty {
            out.append(" {\n");
            out.append(join(&written, "").as_str());
            out.append("}");
        } else {
            out.append(" { ");
            out.append(join(&written, ", ").as_str());
            out.append(" }");
        }
    } else {
        if pretty {
            out.append("(\n");
            out.append(join(&written, "").as_str());
            out.append(")");
        } else {
            out.append("(");
            out.append(join(&written, ", ").as_str());
            out.append(")");
        }
    }
    out
}

impl DebugBody {
    /// Runs the body on a value of the variant declared at `ordinal`, given what each
    /// declared field's value is written as: on one line, or, where `pretty` is set,
    /// spread over lines.
    pub fn evaluate(&self, ordinal: usize, texts: &Vec<String>, pretty: bool) -> (r: Option<String>)
        ensures
            r.deep_view() == formatted(self.deep_view(), ordinal, texts.deep_view(), pretty),
    {
        let tagged = match &self.plan {
            Plan::Enum(_) => true,
            Plan::Struct(_) => false,
        };
        assert(texts.deep_view().len() == texts.len());
        match self.plan.find_arm(ordinal) {
            Some(arm) => {
                if arm.fits(texts.len()) {
                    let mut head = self.name.clone();
                    if tagged {
                        head.append("::");
                        head.append(arm.variant.as_str());
                    }
                    Some(write_value(arm, head, texts, pretty))
                } else {
                    None
                }
            },
            None => None,
        }
    }
}

/// What [`debug`] returns.
pub open spec fn debug_derivation(input: TypeDefinitionView) -> Result<
    (HeaderView, DebugBodyView),
    DeriveError,
> {
    match derivation(DEBUG_ATTR_NAME@, DEBUG_TARGET@, input) {
        Err(fault) => Err(fault),
        Ok((header, plan)) => Ok((header, DebugBodyView { name: input.name, plan })),
    }
}

/// Derives `Debug` for `input`: the head of the implementation and the body of `fmt`.
pub fn debug(input: &TypeDefinition) -> (r: Result<(Header, DebugBody), DeriveError>)
    ensures
        result_view(r) == debug_derivation(input.deep_view()),
{
    match derive_plan(DEBUG_ATTR_NAME, DEBUG_TARGET, input) {
        Err(fault) => Err(fault),
        Ok((header, plan)) => Ok((header, DebugBody { name: input.name.clone(), plan })),
    }
}

/// The template of one field's entry: the call that hands the field to the builder, with
/// its name before it where it has one; the field of `self`, or the variable that a
/// pattern bound.
pub open spec fn field_parts(named: bool, on_self: bool) -> Seq<PartView> {
    let start = if named {
        seq![
            PartView::Text("__fmt.field(::std::stringify!("@),
            PartView::Name,
            PartView::Text("), "@),
        ]
    } else {
        seq![PartView::Text("__fmt.field("@)]
    };
    let value = if on_self {
        seq![PartView::Text("&self."@), PartView::Member]
    } else {
        seq![PartView::Local]
    };
    start + value + seq![PartView::Text(");"@)]
}

/// The statements that write a value of an arm under the head `head`: a builder for a
/// struct or a tuple that every field is handed to, or the head alone for a unit.
pub open spec fn writing_text(arm: ArmView, head: Seq<char>, on_self: bool) -> Seq<char> {
    match arm.shape {
        Shape::Named => "let mut __fmt = __f.debug_struct(\""@ + head + "\"); "@ + joined(
            filled_all(field_parts(true, on_self), arm.fields),
            " "@,
        ) + " __fmt.finish()"@,
        Shape::Unnamed => "let mut __fmt = __f.debug_tuple(\""@ + head + "\"); "@ + joined(
            filled_all(field_parts(false, on_self), arm.fields),
            " "@,
        ) + " __fmt.finish()"@,
        Shape::Unit => "::std::write!(__f, \""@ + head + "\")"@,
    }
}

/// One arm of the `match` in `fmt`.
pub open spec fn fmt_arm_text(name: Seq<char>, arm: ArmView) -> Seq<char> {
    pattern(arm, Side::Single) + " => { "@ + writing_text(arm, label(name, arm, true), false)
        + " },"@
}

/// The body of `fmt` as it is written.
pub open spec fn fmt_body_text(body: DebugBodyView) -> Seq<char> {
    match body.plan {
        PlanView::Struct(arm) => writing_text(arm, body.name, true),
        PlanView::Enum(arms) => match_text(
            "self"@,
            Seq::new(arms.len(), |i: int| fmt_arm_text(body.name, arms[i])),
            ""@,
        ),
    }
}

/// The implementation of `Debug` as it is written.
pub open spec fn fmt_impl_text(header: HeaderView, body: DebugBodyView) -> Seq<char> {
    impl_text(
        header,
        DEBUG_TARGET@,
        "#[inline] fn fmt(&self, __f: &mut ::std::fmt::Formatter) -> ::std::fmt::Result { "@
            + fmt_body_text(body) + " }"@,
    )
}

fn field_template(named: bool, on_self: bool) -> (r: Vec<Part>)
    ensures
        r.deep_view() == field_parts(named, on_self),
{
    let mut parts: Vec<Part> = Vec::new();
    if named {
        parts.push(fixed("__fmt.field(::std::stringify!("));
        parts.push(Part::Name);
        parts.push(fixed("), "));
    } else {
        parts.push(fixed("__fmt.field("));
    }
    if on_self {
        parts.push(fixed("&self."));
        parts.push(Part::Member);
    } else {
        parts.push(Part::Local);
    }
    parts.push(fixed(");"));
    assert(parts.deep_view() =~= field_parts(named, on_self));
    parts
}

fn write_writing(arm: &Arm, head: &str, on_self: bool) -> (r: String)
    ensures
        r@ == writing_text(arm.deep_view(), head@, on_self),
{
    match arm.shape {
        Shape::Named => {
            let mut out = String::from_str("let mut __fmt = __f.debug_struct(\"");
            out.append(head);
            out.append("\"); ");
            out.append(
                join(&fill_all(&field_template(true, on_self), &arm.fields), " ").as_str(),
            );
            out.append(" __fmt.finish()");
            out
        },
        Shape::Unnamed => {
            let mut out = String::from_str("let mut __fmt = __f.debug_tuple(\"");
            out.append(head);
            out.append("\"); ");
            out.append(
                join(&fill_all(&field_template(false, on_self), &arm.fields), " ").as_str(),
            );
            out.append(" __fmt.finish()");
            out
        },
        Shape::Unit => {
            let mut out = String::from_str("::std::write!(__f, \"");
            out.append(head);
            out.append("\")");
            out
        },
    }
}

fn write_fmt_arm(name: &str, arm: &Arm) -> (r: String)
    ensures
        r@ == fmt_arm_text(name@, arm.deep_view()),
{
    let mut head = String::from_str(name);
    head.append("::");
    head.append(arm.variant.as_str());
    let mut out = write_pattern(arm, Side::Single);
    out.append(" => { ");
    out.append(write_writing(arm, head.as_str(), false).as_str());
    out.append(" },");
    out
}

impl DebugBody {
    /// Writes the body of `fmt`.
    pub fn render(&self) -> (r: String)
        ensures
            r@ == fmt_body_text(self.deep_view()),
    {
        match &self.plan {
            Plan::Struct(arm) => write_writing(arm, self.name.as_str(), true),
            Plan::Enum(arms) => {
                let mut texts: Vec<String> = Vec::new();
                let mut i: usize = 0;
                while i < arms.len()
                    invariant
                        i <= arms.len(),
                        texts.len() == i,
                        arms.deep_view().len() == arms.len(),
                        forall|j: int|
                            0 <= j < i ==> texts.deep_view()[j] == fmt_arm_text(
                                self.name@,
                                arms.deep_view()[j],
                            ),
                    decreases arms.len() - i,
                {
                    let ghost before = texts.deep_view();
                    assert(arms.deep_view()[i as int] == arms[i as int].deep_view());
                    let next = write_fmt_arm(self.name.as_str(), &arms[i]);
                    texts.push(next);
                    assert(texts.deep_view() =~= before.push(next@));
                    i = i + 1;
                }
                assert(texts.deep_view() =~= Seq::new(
                    arms.deep_view().len(),
                    |i: int| fmt_arm_text(self.name@, arms.deep_view()[i]),
                ));
                write_match("self", &texts, "")
            },
        }
    }

    /// Writes the implementation of `Debug` under `header`.
    pub fn render_impl(&self, header: &Header) -> (r: String)
        ensures
            r@ == fmt_impl_text(header.deep_view(), self.deep_view()),
    {
        let mut items = String::from_str(
            "#[inline] fn fmt(&self, __f: &mut ::std::fmt::Formatter) -> ::std::fmt::Result { ",
        );
        items.append(self.render().as_str());
        items.append(" }");
        write_impl(header, DEBUG_TARGET, items.as_str())
    }
}

} // verus!
