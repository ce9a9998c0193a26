//! Deriving cloning: the clone is of the same variant as the value it is made from, and
//! each of its fields is the clone of that value's field.

use vstd::prelude::*;
use vstd::string::*;
use crate::capability::CLONE_ATTR_NAME;
use crate::capability::CLONE_TARGET;
use crate::common::derivation;
use crate::common::derive_plan;
use crate::common::Header;
use crate::common::HeaderView;
use crate::emit::bracketed;
use crate::emit::fill_all;
use crate::emit::filled_all;
use crate::emit::fixed;
use crate::emit::impl_text;
use crate::emit::match_text;
use crate::emit::Part;
use crate::emit::PartView;
use crate::emit::pattern;
use crate::emit::Side;
use crate::emit::write_bracketed;
use crate::emit::write_impl;
use crate::emit::write_match;
use crate::emit::write_pattern;
use crate::error::DeriveError;
use crate::error::result_view;
use crate::model::TypeDefinition;
use crate::plan::Arm;
use crate::plan::arm_for;
use crate::plan::ArmView;
use crate::plan::build_plan;
use crate::plan::Plan;
use crate::plan::plan_of;
use crate::plan::PlanView;
use crate::plan::slots_of;
use crate::selection::Selection;

verus! {

/// The body of `clone`: for each arm, the same struct or variant built again from the
/// clones of its fields.
#[derive(Clone, Debug, PartialEq, Eq)]
pub struct CloneBody {
    pub plan: Plan,
}

impl DeepView for CloneBody {
    type V = PlanView;

    open spec fn deep_view(&self) -> PlanView {
        self.plan.deep_view()
    }
}

/// What `clone` makes of a value of the variant declared at `ordinal` that has `count`
/// fields: a value of the same variant, in which each of the fields at the slots given is
/// the clone of that value's field at that slot. `None` where the body cannot run on
/// such a value: no arm is for its variant, or the arm expects another number of fields.
pub open spec fn copies(plan: PlanView, ordinal: usize, count: nat) -> Option<Seq<usize>> {
    match arm_for(plan, ordinal) {
        Some(arm) => if arm.fits(count) {
            Some(slots_of(arm.fields))
        } else {
            None
        },
        None => None,
    }
}

/// Builds the body of `clone` over what the filter kept.
pub fn build_clone_impl(selection: &Selection) -> (r: CloneBody)
    ensures
        r.deep_view() == plan_of(selection.deep_view()),
{
    CloneBody { plan: build_plan(selection) }
}

impl CloneBody {
    /// Runs the body on a value of the variant declared at `ordinal` that has `count`
    /// fields: the slots of the fields that are cloned into the new value, which is of
    /// the same variant.
    pub fn evaluate(&self, ordinal: usize, count: usize) -> (r: Option<Vec<usize>>)
        ensures
            r.deep_view() == copies(self.deep_view(), ordinal, count as nat),
    {
        match self.plan.find_arm(ordinal) {
            Some(arm) => {
                if arm.fits(count) {
                    let slots = arm.slots();
                    assert(slots.deep_view() =~= slots@);
                    Some(slots)
                } else {
                    None
                }
            },
            None => None,
        }
    }
}

/// Derives `Clone` for `input`: the head of the implementation and the body of `clone`.
pub fn clone(input: &TypeDefinition) -> (r: Result<(Header, CloneBody), DeriveError>)
    ensures
        result_view(r) == derivation(CLONE_ATTR_NAME@, CLONE_TARGET@, input.deep_view()),
{
    match derive_plan(CLONE_ATTR_NAME, CLONE_TARGET, input) {
        Err(fault) => Err(fault),
        Ok((header, plan)) => Ok((header, CloneBody { plan })),
    }
}

/// The template of one field's clone: the call of the field type's `clone`, on the
/// field of `self` or on the variable that a pattern bound, behind the field's name
/// where it has one.
pub open spec fn clone_parts(named: bool, on_self: bool) -> Seq<PartView> {
    let call = seq![
        PartView::Text("<"@),
        PartView::Type,
        PartView::Text(" as ::std::clone::Clone>::clone("@),
        if on_self {
            PartView::Text("&self."@)
        } else {
            PartView::Text(""@)
        },
        if on_self {
            PartView::Member
        } else {
            PartView::Local
        },
        PartView::Text(")"@),
    ];
    if named {
        seq![PartView::Name, PartView::Text(": "@)] + call
    } else {
        call
    }
}

/// The value that an arm builds: its struct or variant, with the clone of each field.
pub open spec fn construction(arm: ArmView, tagged: bool) -> Seq<char> {
    let head = if tagged {
        "Self"@ + "::"@ + arm.variant
    } else {
        "Self"@
    };
    bracketed(
        arm.shape,
        head,
        filled_all(clone_parts(arm.shape is Named, !tagged), arm.fields),
    )
}

/// One arm of the `match` in `clone`.
pub open spec fn clone_arm_text(arm: ArmView) -> Seq<char> {
    pattern(arm, Side::Single) + " => { "@ + construction(arm, true) + " },"@
}

/// The body of `clone` as it is written.
pub open spec fn clone_body_text(plan: PlanView) -> Seq<char> {
    match plan {
        PlanView::Struct(arm) => construction(arm, false),
        PlanView::Enum(arms) => match_text(
            "self"@,
            Seq::new(arms.len(), |i: int| clone_arm_text(arms[i])),
            ""@,
        ),
    }
}

/// The implementation of `Clone` as it is written.
pub open spec fn clone_impl_text(header: HeaderView, plan: PlanView) -> Seq<char> {
    impl_text(
        header,
        CLONE_TARGET@,
        "#[inline] fn clone(&self) -> Self { "@ + clone_body_text(plan) + " }"@,
    )
}

fn clone_template(named: bool, on_self: bool) -> (r: Vec<Part>)
    ensures
        r.deep_view() == clone_parts(named, on_self),
{
    let mut parts: Vec<Part> = Vec::new();
    if named {
        parts.push(Part::Name);
        parts.push(fixed(": "));
    }
    parts.push(fixed("<"));
    parts.push(Part::Type);
    parts.push(fixed(" as ::std::clone::Clone>::clone("));
    if on_self {
        parts.push(fixed("&self."));
        parts.push(Part::Member);
    } else {
        parts.push(fixed(""));
        parts.push(Part::Local);
    }
    parts.push(fixed(")"));
    assert(parts.deep_view() =~= clone_parts(named, on_self));
    parts
}

fn write_construction(arm: &Arm, tagged: bool) -> (r: String)
    ensures
        r@ == construction(arm.deep_view(), tagged),
{
    let mut head = String::from_str("Self");
    if tagged {
        head.append("::");
        head.append(arm.variant.as_str());
    }
    let named = match arm.shape {
        crate::selection::Shape::Named => true,
        _ => false,
    };
    let entries = fill_all(&clone_template(named, !tagged), &arm.fields);
    write_bracketed(arm.shape, head.as_str(), &entries)
}

impl CloneBody {
    /// Writes the body of `clone`.
    pub fn render(&self) -> (r: String)
        ensures
            r@ == clone_body_text(self.deep_view()),
    {
        match &self.plan {
            Plan::Struct(arm) => write_construction(arm, false),
            Plan::Enum(arms) => {
                let mut texts: Vec<String> = Vec::new();
                let mut i: usize = 0;
                while i < arms.len()
                    invariant
                        i <= arms.len(),
                        texts.len() == i,
                        arms.deep_view().len() == arms.len(),
                        forall|j: int|
                            0 <= j < i ==> texts.deep_view()[j] == clone_arm_text(
                                arms.deep_view()[j],
                            ),
                    decreases arms.len() - i,
                {
                    let ghost before = texts.deep_view();
                    assert(arms.deep_view()[i as int] == arms[i as int].deep_view());
                    let mut next = write_pattern(&arms[i], Side::Single);
                    next.append(" => { ");
                    next.append(write_construction(&arms[i], true).as_str());
                    next.append(" },");
                    texts.push(next);
                    assert(texts.deep_view() =~= before.push(next@));
                    i = i + 1;
                }
                assert(texts.deep_view() =~= Seq::new(
                    arms.deep_view().len(),
                    |i: int| clone_arm_text(arms.deep_view()[i]),
                ));
                write_match("self", &texts, "")
            },
        }
    }

    /// Writes the implementation of `Clone` under `header`.
    pub fn render_impl(&self, header: &Header) -> (r: String)
        ensures
            r@ == clone_impl_text(header.deep_view(), self.deep_view()),
    {
        let mut items = String::from_str("#[inline] fn clone(&self) -> Self { ");
        items.append(self.render().as_str());
        items.append(" }");
        write_impl(header, CLONE_TARGET, items.as_str())
    }
}

} // verus!
