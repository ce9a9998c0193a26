//! Deriving partial equality: two values are equal when they are of the same variant
//! and each pair of fields that takes part is equal.

use vstd::prelude::*;
use vstd::string::*;
use crate::capability::PARTIAL_EQ_ATTR_NAME;
use crate::capability::PARTIAL_EQ_TARGET;
use crate::common::derivation;
use crate::common::derive_plan;
use crate::common::Header;
use crate::common::HeaderView;
use crate::emit::fill_all;
use crate::emit::filled_all;
use crate::emit::fixed;
use crate::emit::impl_text;
use crate::emit::match_text;
use crate::emit::Part;
use crate::emit::PartView;
use crate::emit::pattern;
use crate::emit::Side;
use crate::emit::write_impl;
use crate::emit::write_match;
use crate::emit::write_pattern;
use crate::error::DeriveError;
use crate::error::result_view;
use crate::model::TypeDefinition;
use crate::plan::arm_for;
use crate::plan::ArmView;
use crate::plan::build_plan;
use crate::plan::FieldBindingView;
use crate::plan::Plan;
use crate::plan::plan_of;
use crate::plan::PlanView;
use crate::selection::Selection;
use crate::text::join;
use crate::text::joined;

verus! {

/// The body of `eq`: for each arm, the conjunction of the comparisons of its fields, from
/// left to right; two values of different variants, or of a variant without an arm, are
/// unequal.
#[derive(Clone, Debug, PartialEq, Eq)]
pub struct PartialEqBody {
    pub plan: Plan,
}

impl DeepView for PartialEqBody {
    type V = PlanView;

    open spec fn deep_view(&self) -> PlanView {
        self.plan.deep_view()
    }
}

/// Whether each of the bindings from `from` on is of a field whose two sides are equal.
/// `field_eq` holds, for each declared field, whether its two sides are.
pub open spec fn all_equal(fields: Seq<FieldBindingView>, field_eq: Seq<bool>, from: int) -> bool
    decreases fields.len() - from,
{
    if from < 0 || from >= fields.len() {
        true
    } else {
        field_eq[fields[from].slot as int] && all_equal(fields, field_eq, from + 1)
    }
}

/// What `eq` answers for two values of the variants declared at `left` and `right`,
/// given for each declared field of the left value's variant whether the two sides are
/// equal there. `None` where the body cannot run on such values: an enum without
/// variants has none, and the fields must be as many as the arm expects.
pub open spec fn equal(plan: PlanView, left: usize, right: usize, field_eq: Seq<bool>) -> Option<
    bool,
> {
    match plan {
        PlanView::Struct(arm) => if arm.fits(field_eq.len()) {
            Some(all_equal(arm.fields, field_eq, 0))
        } else {
            None
        },
        PlanView::Enum(arms) => if arms.len() == 0 {
            None
        } else if left != right {
            Some(false)
        } else {
            match arm_for(plan, left) {
                None => Some(false),
                Some(arm) => if arm.fits(field_eq.len()) {
                    Some(all_equal(arm.fields, field_eq, 0))
                } else {
                    None
                },
            }
        },
    }
}

/// Builds the body of `eq` over what the filter kept.
pub fn build_eq_impl(selection: &Selection) -> (r: PartialEqBody)
    ensures
        r.deep_view() == plan_of(selection.deep_view()),
{
    PartialEqBody { plan: build_plan(selection) }
}

fn conjunction(arm: &crate::plan::Arm, field_eq: &Vec<bool>) -> (r: bool)
    requires
        arm.deep_view().fits(field_eq.len() as nat),
    ensures
        r == all_equal(arm.deep_view().fields, field_eq@, 0),
{
    let ghost all = arm.deep_view().fields;
    let mut i: usize = 0;
    while i < arm.fields.len()
        invariant
            i <= arm.fields.len(),
            all == arm.fields.deep_view(),
            all.len() == arm.fields.len(),
            arm.deep_view().fits(field_eq.len() as nat),
            all == arm.deep_view().fields,
            all_equal(all, field_eq@, 0) == all_equal(all, field_eq@, i as int),
        decreases arm.fields.len() - i,
    {
        assert(all[i as int] == arm.fields[i as int].deep_view());
        if !field_eq[arm.fields[i].slot] {
            return false;
        }
        i = i + 1;
    }
    true
}

impl PartialEqBody {
    /// Runs the body on two values of the variants declared at `left` and `right`, given
    /// whether the two sides are equal in each declared field. The comparisons are
    /// looked at from left to right, up to the first that is unequal.
    pub fn evaluate(&self, left: usize, right: usize, field_eq: &Vec<bool>) -> (r: Option<bool>)
        ensures
            r == equal(self.deep_view(), left, right, field_eq@),
    {
        match &self.plan {
            Plan::Struct(arm) => {
                if arm.fits(field_eq.len()) {
                    Some(conjunction(arm, field_eq))
                } else {
                    None
                }
            },
            Plan::Enum(arms) => {
                assert(arms.deep_view().len() == arms.len());
                if arms.len() == 0 {
                    None
                } else if left != right {
                    Some(false)
                } else {
                    match self.plan.find_arm(left) {
                        None => Some(false),
                        Some(arm) => {
                            if arm.fits(field_eq.len()) {
                                Some(conjunction(arm, field_eq))
                            } else {
                                None
                            }
                        },
                    }
                }
            },
        }
    }
}

/// Derives `PartialEq` for `input`: the head of the implementation and the body of `eq`.
pub fn partial_eq(input: &TypeDefinition) -> (r: Result<(Header, PartialEqBody), DeriveError>)
    ensures
        result_view(r) == derivation(
            PARTIAL_EQ_ATTR_NAME@,
            PARTIAL_EQ_TARGET@,
            input.deep_view(),
        ),
{
    match derive_plan(PARTIAL_EQ_ATTR_NAME, PARTIAL_EQ_TARGET, input) {
        Err(fault) => Err(fault),
        Ok((header, plan)) => Ok((header, PartialEqBody { plan })),
    }
}

/// A comparison that no arm makes does not bear on the answer: where two lists of
/// field comparisons agree on the fields that take part, `eq` answers the same.
pub proof fn lemma_all_equal_agrees(
    fields: Seq<FieldBindingView>,
    first: Seq<bool>,
    second: Seq<bool>,
    from: int,
)
    requires
        0 <= from,
        forall|j: int|
            from <= j < fields.len() ==> first[(#[trigger] fields[j]).slot as int]
                == second[fields[j].slot as int],
    ensures
        all_equal(fields, first, from) == all_equal(fields, second, from),
    decreases fields.len() - from,
{
    if from < fields.len() {
        lemma_all_equal_agrees(fields, first, second, from + 1);
    }
}

/// Where every field that takes part is equal on both sides, so are the values.
pub proof fn lemma_all_equal_holds(fields: Seq<FieldBindingView>, field_eq: Seq<bool>, from: int)
    requires
        0 <= from,
        forall|j: int| from <= j < fields.len() ==> field_eq[(#[trigger] fields[j]).slot as int],
    ensures
        all_equal(fields, field_eq, from),
    decreases fields.len() - from,
{
    if from < fields.len() {
        lemma_all_equal_holds(fields, field_eq, from + 1);
    }
}

/// The template of one field's comparison, with `&&` before it: the call of the field
/// type's `eq` on the fields of `self` and of the other value, or on the variables that
/// the two patterns bound.
pub open spec fn eq_parts(on_self: bool) -> Seq<PartView> {
    let start = seq![
        PartView::Text(" && <"@),
        PartView::Type,
        PartView::Text(" as "@),
        PartView::Text(PARTIAL_EQ_TARGET@),
    ];
    if on_self {
        start + seq![
            PartView::Text(">::eq(&self."@),
            PartView::Member,
            PartView::Text(", &__other."@),
            PartView::Member,
            PartView::Text(")"@),
        ]
    } else {
        start + seq![
            PartView::Text(">::eq("@),
            PartView::Left,
            PartView::Text(", "@),
            PartView::Right,
            PartView::Text(")"@),
        ]
    }
}

/// The conjunction that an arm answers with: `true`, and each field's comparison.
pub open spec fn conjunction_text(arm: ArmView, on_self: bool) -> Seq<char> {
    "true"@ + joined(filled_all(eq_parts(on_self), arm.fields), ""@)
}

/// One arm of the `match` in `eq`: two values of the arm's variant.
pub open spec fn eq_arm_text(arm: ArmView) -> Seq<char> {
    "("@ + pattern(arm, Side::Left) + ", "@ + pattern(arm, Side::Right) + ") => { "@
        + conjunction_text(arm, false) + " },"@
}

/// The body of `eq` as it is written.
pub open spec fn eq_body_text(plan: PlanView) -> Seq<char> {
    match plan {
        PlanView::Struct(arm) => conjunction_text(arm, true),
        PlanView::Enum(arms) => match_text(
            "(self, __other)"@,
            Seq::new(arms.len(), |i: int| eq_arm_text(arms[i])),
            " _ => false,"@,
        ),
    }
}

/// The implementation of `PartialEq` as it is written.
pub open spec fn eq_impl_text(header: HeaderView, plan: PlanView) -> Seq<char> {
    impl_text(
        header,
        PARTIAL_EQ_TARGET@,
        "#[inline] fn eq(&self, __other: &Self) -> bool { "@ + eq_body_text(plan) + " }"@,
    )
}

fn eq_template(on_self: bool) -> (r: Vec<Part>)
    ensures
        r.deep_view() == eq_parts(on_self),
{
    let mut parts: Vec<Part> = Vec::new();
    parts.push(fixed(" && <"));
    parts.push(Part::Type);
    parts.push(fixed(" as "));
    parts.push(fixed(PARTIAL_EQ_TARGET));
    if on_self {
        parts.push(fixed(">::eq(&self."));
        parts.push(Part::Member);
        parts.push(fixed(", &__other."));
        parts.push(Part::Member);
    } else {
        parts.push(fixed(">::eq("));
        parts.push(Part::Left);
        parts.push(fixed(", "));
        parts.push(Part::Right);
    }
    parts.push(fixed(")"));
    assert(parts.deep_view() =~= eq_parts(on_self));
    parts
}

fn write_conjunction(arm: &crate::plan::Arm, on_self: bool) -> (r: String)
    ensures
        r@ == conjunction_text(arm.deep_view(), on_self),
{
    let mut out = String::from_str("true");
    out.append(join(&fill_all(&eq_template(on_self), &arm.fields), "").as_str());
    out
}

fn write_eq_arm(arm: &crate::plan::Arm) -> (r: String)
    ensures
        r@ == eq_arm_text(arm.deep_view()),
{
    let mut out = String::from_str("(");
    out.append(write_pattern(arm, Side::Left).as_str());
    out.append(", ");
    out.append(write_pattern(arm, Side::Right).as_str());
    out.append(") => { ");
    out.append(write_conjunction(arm, false).as_str());
    out.append(" },");
    out
}

impl PartialEqBody {
    /// Writes the body of `eq`.
    pub fn render(&self) -> (r: String)
        ensures
            r@ == eq_body_text(self.deep_view()),
    {
        match &self.plan {
            Plan::Struct(arm) => write_conjunction(arm, true),
            Plan::Enum(arms) => {
                let mut texts: Vec<String> = Vec::new();
                let mut i: usize = 0;
                while i < arms.len()
                    invariant
                        i <= arms.len(),
                        texts.len() == i,
                        arms.deep_view().len() == arms.len(),
                        forall|j: int|
                            0 <= j < i ==> texts.deep_view()[j] == eq_arm_text(
                                arms.deep_view()[j],
                            ),
                    decreases arms.len() - i,
                {
                    let ghost before = texts.deep_view();
                    assert(arms.deep_view()[i as int] == arms[i as int].deep_view());
                    let next = write_eq_arm(&arms[i]);
                    texts.push(next);
                    assert(texts.deep_view() =~= before.push(next@));
                    i = i + 1;
                }
                assert(texts.deep_view() =~= Seq::new(
                    arms.deep_view().len(),
                    |i: int| eq_arm_text(arms.deep_view()[i]),
                ));
                write_match("(self, __other)", &texts, " _ => false,")
            },
        }
    }

    /// Writes the implementation of `PartialEq` under `header`.
    pub fn render_impl(&self, header: &Header) -> (r: String)
        ensures
            r@ == eq_impl_text(header.deep_view(), self.deep_view()),
    {
        let mut items = String::from_str("#[inline] fn eq(&self, __other: &Self) -> bool { ");
        items.append(self.render().as_str());
        items.append(" }");
        write_impl(header, PARTIAL_EQ_TARGET, items.as_str())
    }
}

/// The comparisons are made from left to right and stop at the first that is unequal:
/// what stands behind it does not bear on the answer, which is that the values are
/// unequal.
pub proof fn law_first_unequal_field_decides(
    fields: Seq<FieldBindingView>,
    first: Seq<bool>,
    second: Seq<bool>,
    at: int,
    from: int,
)
    requires
        0 <= from <= at < fields.len(),
        !first[fields[at].slot as int],
        forall|j: int|
            from <= j <= at ==> first[(#[trigger] fields[j]).slot as int]
                == second[fields[j].slot as int],
    ensures
        !all_equal(fields, first, from),
        !all_equal(fields, second, from),
    decreases at - from,
{
    if from < at {
        law_first_unequal_field_decides(fields, first, second, at, from + 1);
    }
}

} // verus!
