//! Deriving partial ordering: values of one variant are ordered by their fields, from
//! left to right; values of different variants by their discriminants.

use vstd::prelude::*;
use vstd::string::*;
use crate::capability::PARTIAL_ORD_ATTR_NAME;
use crate::capability::PARTIAL_ORD_TARGET;
use crate::common::derive_ranked_plan;
use crate::common::ranked_derivation;
use crate::common::Header;
use crate::common::HeaderView;
use crate::discriminant::discriminant_for;
use crate::discriminant::discriminant_of;
use crate::emit::fill_all;
use crate::emit::filled_all;
use crate::emit::fixed;
use crate::emit::impl_text;
use crate::emit::integer_text;
use crate::emit::match_text;
use crate::emit::Part;
use crate::emit::PartView;
use crate::emit::pattern;
use crate::emit::Side;
use crate::emit::write_impl;
use crate::emit::write_integer;
use crate::emit::write_match;
use crate::emit::write_pattern;
use crate::error::DeriveError;
use crate::error::result_view;
use crate::model::TypeDefinition;
use crate::model::TypeDefinitionView;
use crate::plan::Arm;
use crate::plan::arm_for;
use crate::plan::ArmView;
use crate::plan::build_plan;
use crate::plan::FieldBindingView;
use crate::plan::Plan;
use crate::plan::plan_of;
use crate::plan::PlanView;
use crate::selection::Selection;
use crate::text::join;
use crate::text::joined;
use crate::words::discriminant_call;
use crate::words::discriminant_call_text;
use crate::words::equal_answer;
use crate::words::equal_answer_text;
use crate::words::partial_call;
use crate::words::partial_call_text;
use crate::words::partial_method;
use crate::words::partial_method_text;

verus! {

/// How two values stand to each other.
#[derive(Clone, Copy, Debug, PartialEq, Eq, Structural)]
pub enum Relation {
    Less,
    Equal,
    Greater,
    /// Neither comes before the other, and they are not equal.
    Unordered,
}

/// The body of `partial_cmp`: the arms over the fields, and for each declared variant
/// its discriminant.
#[derive(Clone, Debug, PartialEq, Eq)]
pub struct PartialOrdBody {
    pub plan: Plan,
    pub discriminants: Vec<i64>,
}

/// The mathematical value of a [`PartialOrdBody`].
pub struct PartialOrdBodyView {
    pub plan: PlanView,
    pub discriminants: Seq<i64>,
}

impl DeepView for PartialOrdBody {
    type V = PartialOrdBodyView;

    open spec fn deep_view(&self) -> PartialOrdBodyView {
        PartialOrdBodyView { plan: self.plan.deep_view(), discriminants: self.discriminants@ }
    }
}

/// How two values stand whose fields, from the binding at `from` on, stand as
/// `relations` says: as the first pair of fields that is not equal, and equal where all
/// pairs are. `relations` holds the relation of each declared field's two sides.
pub open spec fn lexicographic(
    fields: Seq<FieldBindingView>,
    relations: Seq<Relation>,
    from: int,
) -> Relation
    decreases fields.len() - from,
{
    if from < 0 || from >= fields.len() {
        Relation::Equal
    } else if relations[fields[from].slot as int] != Relation::Equal {
        relations[fields[from].slot as int]
    } else {
        lexicographic(fields, relations, from + 1)
    }
}

/// How two integers stand to each other.
pub open spec fn rank(left: i64, right: i64) -> Relation {
    if left < right {
        Relation::Less
    } else if left == right {
        Relation::Equal
    } else {
        Relation::Greater
    }
}

/// What `partial_cmp` answers for two values of the variants declared at `left` and
/// `right`, given for each declared field of the left value's variant how the two sides
/// stand there. `None` where the body cannot run on such values: a variant has no arm
/// or no discriminant, or the fields are not as many as the arm expects.
pub open spec fn compare(
    body: PartialOrdBodyView,
    left: usize,
    right: usize,
    relations: Seq<Relation>,
) -> Option<Relation> {
    match body.plan {
        PlanView::Struct(arm) => if arm.fits(relations.len()) {
            Some(lexicographic(arm.fields, relations, 0))
        } else {
            None
        },
        PlanView::Enum(arms) => if left == right {
            match arm_for(body.plan, left) {
                Some(arm) => if arm.fits(relations.len()) {
                    Some(lexicographic(arm.fields, relations, 0))
                } else {
                    None
                },
                None => None,
            }
        } else if arm_for(body.plan, left) is Some && arm_for(body.plan, right) is Some && left
            < body.discriminants.len() && right < body.discriminants.len() {
            Some(rank(body.discriminants[left as int], body.discriminants[right as int]))
        } else {
            None
        },
    }
}

/// Builds the body of `partial_cmp` over what the filter kept, with the discriminant of
/// each declared variant.
pub fn build_partial_ord_impl(selection: &Selection, discriminants: Vec<i64>) -> (r:
    PartialOrdBody)
    ensures
        r.deep_view() == (PartialOrdBodyView {
            plan: plan_of(selection.deep_view()),
            discriminants: discriminants@,
        }),
{
    PartialOrdBody { plan: build_plan(selection), discriminants }
}

fn first_difference(arm: &Arm, relations: &Vec<Relation>) -> (r: Relation)
    requires
        arm.deep_view().fits(relations.len() as nat),
    ensures
        r == lexicographic(arm.deep_view().fields, relations@, 0),
{
    let ghost all = arm.deep_view().fields;
    let mut i: usize = 0;
    while i < arm.fields.len()
        invariant
            i <= arm.fields.len(),
            all == arm.fields.deep_view(),
            all.len() == arm.fields.len(),
            arm.deep_view().fits(relations.len() as nat),
            all == arm.deep_view().fields,
            lexicographic(all, relations@, 0) == lexicographic(all, relations@, i as int),
        decreases arm.fields.len() - i,
    {
        assert(all[i as int] == arm.fields[i as int].deep_view());
        match relations[arm.fields[i].slot] {
            Relation::Equal => {},
            other => {
                return other;
            },
        }
        i = i + 1;
    }
    Relation::Equal
}

fn rank_of(left: i64, right: i64) -> (r: Relation)
    ensures
        r == rank(left, right),
{
    if left < right {
        Relation::Less
    } else if left == right {
        Relation::Equal
    } else {
        Relation::Greater
    }
}

impl PartialOrdBody {
    /// Runs the body on two values of the variants declared at `left` and `right`, given
    /// how the two sides stand in each declared field. The fields are looked at from left
    /// to right, up to the first pair that is not equal.
    pub fn evaluate(&self, left: usize, right: usize, relations: &Vec<Relation>) -> (r: Option<
        Relation,
    >)
        ensures
            r == compare(self.deep_view(), left, right, relations@),
    {
        match &self.plan {
            Plan::Struct(arm) => {
                if arm.fits(relations.len()) {
                    Some(first_difference(arm, relations))
                } else {
                    None
                }
            },
            Plan::Enum(_) => {
                if left == right {
                    match self.plan.find_arm(left) {
                        Some(arm) => {
                            if arm.fits(relations.len()) {
                                Some(first_difference(arm, relations))
                            } else {
                                None
                            }
                        },
                        None => None,
                    }
                } else {
                    let both = self.plan.find_arm(left).is_some() && self.plan.find_arm(
                        right,
                    ).is_some();
                    if both && left < self.discriminants.len() && right
                        < self.discriminants.len() {
                        Some(rank_of(self.discriminants[left], self.discriminants[right]))
                    } else {
                        None
                    }
                }
            },
        }
    }
}

/// What [`partial_ord`] returns.
pub open spec fn partial_ord_derivation(input: TypeDefinitionView) -> Result<
    (HeaderView, PartialOrdBodyView),
    DeriveError,
> {
    match ranked_derivation(PARTIAL_ORD_ATTR_NAME@, PARTIAL_ORD_TARGET@, input) {
        Err(fault) => Err(fault),
        Ok((header, plan, discriminants)) => Ok(
            (header, PartialOrdBodyView { plan, discriminants }),
        ),
    }
}

/// Derives `PartialOrd` for `input`: the head of the implementation and the body of
/// `partial_cmp`.
pub fn partial_ord(input: &TypeDefinition) -> (r: Result<(Header, PartialOrdBody), DeriveError>)
    ensures
        result_view(r) == partial_ord_derivation(input.deep_view()),
{
    match derive_ranked_plan(PARTIAL_ORD_ATTR_NAME, PARTIAL_ORD_TARGET, input) {
        Err(fault) => Err(fault),
        Ok((header, plan, discriminants)) => Ok((header, PartialOrdBody { plan, discriminants })),
    }
}

/// Two values of different variants stand to each other as their variants'
/// discriminants do, whatever their fields hold.
pub proof fn law_variants_order_by_discriminant(
    body: PartialOrdBodyView,
    left: usize,
    right: usize,
    relations: Seq<Relation>,
    others: Seq<Relation>,
)
    requires
        body.plan is Enum,
        left != right,
        compare(body, left, right, relations) is Some,
    ensures
        compare(body, left, right, relations) == Some(
            rank(body.discriminants[left as int], body.discriminants[right as int]),
        ),
        compare(body, left, right, others) == compare(body, left, right, relations),
{
}

/// A relation that no arm looks at does not bear on the answer: where two lists of
/// relations agree on the fields that take part, the first difference is the same.
pub proof fn lemma_lexicographic_agrees(
    fields: Seq<FieldBindingView>,
    first: Seq<Relation>,
    second: Seq<Relation>,
    from: int,
)
    requires
        0 <= from,
        forall|j: int|
            from <= j < fields.len() ==> first[(#[trigger] fields[j]).slot as int]
                == second[fields[j].slot as int],
    ensures
        lexicographic(fields, first, from) == lexicographic(fields, second, from),
    decreases fields.len() - from,
{
    if from < fields.len() {
        lemma_lexicographic_agrees(fields, first, second, from + 1);
    }
}

/// The template of one field's step: the field type's partial comparison, on the fields
/// of `self` and of the other value or on the variables that the two patterns bound;
/// any answer but "equal" is returned at once.
pub open spec fn step_parts(on_self: bool) -> Seq<PartView> {
    let start = seq![
        PartView::Text("match <"@),
        PartView::Type,
        PartView::Text(" as "@),
        PartView::Text(PARTIAL_ORD_TARGET@),
        PartView::Text(partial_call()),
    ];
    let sides = if on_self {
        seq![
            PartView::Text("&self."@),
            PartView::Member,
            PartView::Text(", &__other."@),
            PartView::Member,
        ]
    } else {
        seq![PartView::Left, PartView::Text(", "@), PartView::Right]
    };
    start + sides + seq![
        PartView::Text(") { "@),
        PartView::Text(equal_answer()),
        PartView::Text(" => {}, ord => return ord, }"@),
    ]
}

/// The statements that compare an arm's fields from left to right, and the answer that
/// the values are equal behind them.
pub open spec fn steps_text(arm: ArmView, on_self: bool) -> Seq<char> {
    joined(filled_all(step_parts(on_self), arm.fields), " "@) + " "@ + equal_answer()
}

/// One arm of the `match` in the partial comparison: two values of the arm's variant.
pub open spec fn step_arm_text(arm: ArmView) -> Seq<char> {
    "("@ + pattern(arm, Side::Left) + ", "@ + pattern(arm, Side::Right) + ") => { "@
        + steps_text(arm, false) + " },"@
}

/// One arm of the `match` that gives a value's discriminant.
pub open spec fn discriminant_arm_text(discriminants: Seq<i64>, arm: ArmView) -> Seq<char> {
    "Self::"@ + arm.variant + " { .. } => "@ + integer_text(
        discriminant_for(discriminants, arm.ordinal) as int,
    ) + "isize,"@
}

/// The arms of the `match` that gives a value's discriminant.
pub open spec fn discriminant_arms_text(discriminants: Seq<i64>, arms: Seq<ArmView>) -> Seq<
    char,
> {
    joined(Seq::new(arms.len(), |i: int| discriminant_arm_text(discriminants, arms[i])), " "@)
}

/// The last arm of the `match` in the partial comparison: two values of different
/// variants, which stand as their discriminants do.
pub open spec fn fallback_text(discriminants: Seq<i64>, arms: Seq<ArmView>) -> Seq<char> {
    " (this, other) => match this { "@ + discriminant_arms_text(discriminants, arms)
        + discriminant_call() + discriminant_arms_text(discriminants, arms) + " }),"@
}

/// The body of the partial comparison as it is written.
pub open spec fn partial_ord_body_text(body: PartialOrdBodyView) -> Seq<char> {
    match body.plan {
        PlanView::Struct(arm) => steps_text(arm, true),
        PlanView::Enum(arms) => match_text(
            "(self, __other)"@,
            Seq::new(arms.len(), |i: int| step_arm_text(arms[i])),
            fallback_text(body.discriminants, arms),
        ),
    }
}

/// The implementation of `PartialOrd` as it is written.
pub open spec fn partial_ord_impl_text(header: HeaderView, body: PartialOrdBodyView) -> Seq<char> {
    impl_text(
        header,
        PARTIAL_ORD_TARGET@,
        partial_method() + partial_ord_body_text(body) + " }"@,
    )
}

fn step_template(on_self: bool) -> (r: Vec<Part>)
    ensures
        r.deep_view() == step_parts(on_self),
{
    let mut parts: Vec<Part> = Vec::new();
    parts.push(fixed("match <"));
    parts.push(Part::Type);
    parts.push(fixed(" as "));
    parts.push(fixed(PARTIAL_ORD_TARGET));
    parts.push(fixed(partial_call_text()));
    if on_self {
        parts.push(fixed("&self."));
        parts.push(Part::Member);
        parts.push(fixed(", &__other."));
        parts.push(Part::Member);
    } else {
        parts.push(Part::Left);
        parts.push(fixed(", "));
        parts.push(Part::Right);
    }
    parts.push(fixed(") { "));
    parts.push(fixed(equal_answer_text()));
    parts.push(fixed(" => {}, ord => return ord, }"));
    assert(parts.deep_view() =~= step_parts(on_self));
    parts
}

fn write_steps(arm: &Arm, on_self: bool) -> (r: String)
    ensures
        r@ == steps_text(arm.deep_view(), on_self),
{
    let mut out = join(&fill_all(&step_template(on_self), &arm.fields), " ");
    out.append(" ");
    out.append(equal_answer_text());
    out
}

fn write_step_arm(arm: &Arm) -> (r: String)
    ensures
        r@ == step_arm_text(arm.deep_view()),
{
    let mut out = String::from_str("(");
    out.append(write_pattern(arm, Side::Left).as_str());
    out.append(", ");
    out.append(write_pattern(arm, Side::Right).as_str());
    out.append(") => { ");
    out.append(write_steps(arm, false).as_str());
    out.append(" },");
    out
}

fn write_discriminant_arm(discriminants: &Vec<i64>, arm: &Arm) -> (r: String)
    ensures
        r@ == discriminant_arm_text(discriminants@, arm.deep_view()),
{
    let value: i64 = discriminant_of(discriminants, arm.ordinal);
    let mut out = String::from_str("Self::");
    out.append(arm.variant.as_str());
    out.append(" { .. } => ");
    out.append(write_integer(value).as_str());
    out.append("isize,");
    out
}

fn write_discriminant_arms(discriminants: &Vec<i64>, arms: &Vec<Arm>) -> (r: String)
    ensures
        r@ == discriminant_arms_text(discriminants@, arms.deep_view()),
{
    let mut texts: Vec<String> = Vec::new();
    let mut i: usize = 0;
    while i < arms.len()
        invariant
            i <= arms.len(),
            texts.len() == i,
            arms.deep_view().len() == arms.len(),
            forall|j: int|
                0 <= j < i ==> texts.deep_view()[j] == discriminant_arm_text(
                    discriminants@,
                    arms.deep_view()[j],
                ),
        decreases arms.len() - i,
    {
        let ghost before = texts.deep_view();
        assert(arms.deep_view()[i as int] == arms[i as int].deep_view());
        let next = write_discriminant_arm(discriminants, &arms[i]);
        texts.push(next);
        assert(texts.deep_view() =~= before.push(next@));
        i = i + 1;
    }
    assert(texts.deep_view() =~= Seq::new(
        arms.deep_view().len(),
        |i: int| discriminant_arm_text(discriminants@, arms.deep_view()[i]),
    ));
    join(&texts, " ")
}

fn write_fallback(discriminants: &Vec<i64>, arms: &Vec<Arm>) -> (r: String)
    ensures
        r@ == fallback_text(discriminants@, arms.deep_view()),
{
    let listed = write_discriminant_arms(discriminants, arms);
    let mut out = String::from_str(" (this, other) => match this { ");
    out.append(listed.as_str());
    out.append(discriminant_call_text());
    out.append(listed.as_str());
    out.append(" }),");
    out
}

impl PartialOrdBody {
    /// Writes the body of the partial comparison.
    pub fn render(&self) -> (r: String)
        ensures
            r@ == partial_ord_body_text(self.deep_view()),
    {
        match &self.plan {
            Plan::Struct(arm) => write_steps(arm, true),
            Plan::Enum(arms) => {
                let mut texts: Vec<String> = Vec::new();
                let mut i: usize = 0;
                while i < arms.len()
                    invariant
                        i <= arms.len(),
                        texts.len() == i,
                        arms.deep_view().len() == arms.len(),
                        forall|j: int|
                            0 <= j < i ==> texts.deep_view()[j] == step_arm_text(
                                arms.deep_view()[j],
                            ),
                    decreases arms.len() - i,
                {
                    let ghost before = texts.deep_view();
                    assert(arms.deep_view()[i as int] == arms[i as int].deep_view());
                    let next = write_step_arm(&arms[i]);
                    texts.push(next);
                    assert(texts.deep_view() =~= before.push(next@));
                    i = i + 1;
                }
                assert(texts.deep_view() =~= Seq::new(
                    arms.deep_view().len(),
                    |i: int| step_arm_text(arms.deep_view()[i]),
                ));
                let fallback = write_fallback(&self.discriminants, arms);
                write_match("(self, __other)", &texts, fallback.as_str())
            },
        }
    }

    /// Writes the implementation of `PartialOrd` under `header`.
    pub fn render_impl(&self, header: &Header) -> (r: String)
        ensures
            r@ == partial_ord_impl_text(header.deep_view(), self.deep_view()),
    {
        let mut items = String::from_str(partial_method_text());
        items.append(self.render().as_str());
        items.append(" }");
        write_impl(header, PARTIAL_ORD_TARGET, items.as_str())
    }
}

/// The fields are compared from left to right up to the first pair that is not equal:
/// the answer is how that pair stands, unordered too, and what stands behind it does
/// not bear on the answer.
pub proof fn law_first_difference_decides(
    fields: Seq<FieldBindingView>,
    first: Seq<Relation>,
    second: Seq<Relation>,
    at: int,
    from: int,
)
    requires
        0 <= from <= at < fields.len(),
        first[fields[at].slot as int] != Relation::Equal,
        forall|j: int| from <= j < at ==> first[(#[trigger] fields[j]).slot as int] == Relation::Equal,
        forall|j: int|
            from <= j <= at ==> first[(#[trigger] fields[j]).slot as int]
                == second[fields[j].slot as int],
    ensures
        lexicographic(fields, first, from) == first[fields[at].slot as int],
        lexicographic(fields, second, from) == first[fields[at].slot as int],
    decreases at - from,
{
    if from < at {
        assert(first[fields[from].slot as int] == Relation::Equal);
        law_first_difference_decides(fields, first, second, at, from + 1);
    }
}

} // verus!
