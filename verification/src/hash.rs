//! Deriving hashing: an enum's value feeds the discriminant of its variant, then every
//! value feeds its fields from left to right.

use vstd::prelude::*;
use vstd::string::*;
use crate::capability::HASH_ATTR_NAME;
use crate::capability::HASH_TARGET;
use crate::common::derive_ranked_plan;
use crate::common::ranked_derivation;
use crate::common::Header;
use crate::common::HeaderView;
use crate::emit::fill_all;
use crate::emit::filled_all;
use crate::emit::fixed;
use crate::discriminant::discriminant_for;
use crate::discriminant::discriminant_of;
use crate::emit::impl_text;
use crate::emit::integer_text;
use crate::emit::match_text;
use crate::emit::Part;
use crate::emit::PartView;
use crate::emit::pattern;
use crate::emit::Side;
use crate::emit::write_impl;
use crate::emit::write_integer;
use crate::emit::write_match;
use crate::emit::write_pattern;
use crate::error::DeriveError;
use crate::error::result_view;
use crate::model::TypeDefinition;
use crate::model::TypeDefinitionView;
use crate::plan::Arm;
use crate::plan::arm_for;
use crate::plan::ArmView;
use crate::plan::build_plan;
use crate::plan::FieldBindingView;
use crate::plan::Plan;
use crate::plan::plan_of;
use crate::plan::PlanView;
use crate::selection::Selection;
use crate::text::join;
use crate::text::joined;

verus! {

/// One thing that is fed to the hasher.
#[derive(Clone, Copy, Debug, PartialEq, Eq, Structural)]
pub enum HashWrite {
    /// The discriminant of the value's variant, as an `isize`.
    Discriminant(i64),
    /// The value's field at this slot.
    Field(usize),
}

/// The body of `hash`: the arms over the fields, and for each declared variant its
/// discriminant.
#[derive(Clone, Debug, PartialEq, Eq)]
pub struct HashBody {
    pub plan: Plan,
    pub discriminants: Vec<i64>,
}

/// The mathematical value of a [`HashBody`].
pub struct HashBodyView {
    pub plan: PlanView,
    pub discriminants: Seq<i64>,
}

impl DeepView for HashBody {
    type V = HashBodyView;

    open spec fn deep_view(&self) -> HashBodyView {
        HashBodyView { plan: self.plan.deep_view(), discriminants: self.discriminants@ }
    }
}

/// The fields that an arm feeds, in their order.
pub open spec fn field_writes(fields: Seq<FieldBindingView>) -> Seq<HashWrite> {
    Seq::new(fields.len(), |i: int| HashWrite::Field(fields[i].slot))
}

/// What an arm feeds: for a variant its discriminant first, then the fields.
pub open spec fn arm_writes(arm: ArmView, tag: Option<i64>) -> Seq<HashWrite> {
    match tag {
        Some(discriminant) => seq![HashWrite::Discriminant(discriminant)] + field_writes(
            arm.fields,
        ),
        None => field_writes(arm.fields),
    }
}

/// What `hash` feeds for a value of the variant declared at `ordinal` that has `count`
/// fields, in order. `None` where the body cannot run on such a value: no arm is for its
/// variant, the arm expects another number of fields, or the variant has no
/// discriminant.
pub open spec fn feed(body: HashBodyView, ordinal: usize, count: nat) -> Option<Seq<HashWrite>> {
    match arm_for(body.plan, ordinal) {
        Some(arm) => if !arm.fits(count) {
            None
        } else if body.plan is Struct {
            Some(arm_writes(arm, None))
        } else if arm.ordinal < body.discriminants.len() {
            Some(arm_writes(arm, Some(body.discriminants[arm.ordinal as int])))
        } else {
            None
        },
        None => None,
    }
}

/// What reaches the hasher.
pub enum Fed<C> {
    /// The discriminant of a variant.
    Discriminant(i64),
    /// What a field feeds.
    Field(C),
}

/// What reaches the hasher when `writes` are carried out on a value whose field at each
/// slot feeds what `contributions` holds there.
pub open spec fn stream<C>(writes: Seq<HashWrite>, contributions: Seq<C>) -> Seq<Fed<C>> {
    Seq::new(
        writes.len(),
        |i: int|
            match writes[i] {
                HashWrite::Discriminant(at) => Fed::Discriminant(at),
                HashWrite::Field(slot) => Fed::Field(contributions[slot as int]),
            },
    )
}

/// Builds the body of `hash` over what the filter kept, with the discriminant of each
/// declared variant.
pub fn build_hash_impl(selection: &Selection, discriminants: Vec<i64>) -> (r: HashBody)
    ensures
        r.deep_view() == (HashBodyView {
            plan: plan_of(selection.deep_view()),
            discriminants: discriminants@,
        }),
{
    HashBody { plan: build_plan(selection), discriminants }
}

fn writes_of(arm: &Arm, tag: Option<i64>) -> (r: Vec<HashWrite>)
    ensures
        r@ == arm_writes(arm.deep_view(), tag),
{
    let ghost all = arm.deep_view().fields;
    let mut out: Vec<HashWrite> = Vec::new();
    match tag {
        Some(discriminant) => {
            out.push(HashWrite::Discriminant(discriminant));
        },
        None => {},
    }
    let ghost head = out@;
    let mut i: usize = 0;
    while i < arm.fields.len()
        invariant
            i <= arm.fields.len(),
            all == arm.fields.deep_view(),
            all.len() == arm.fields.len(),
            out@.len() == head.len() + i,
            out@.subrange(0, head.len() as int) == head,
            forall|j: int| 0 <= j < i ==> out@[head.len() + j] == HashWrite::Field(all[j].slot),
        decreases arm.fields.len() - i,
    {
        assert(all[i as int] == arm.fields[i as int].deep_view());
        let ghost before = out@;
        out.push(HashWrite::Field(arm.fields[i].slot));
        assert(out@.subrange(0, head.len() as int) =~= before.subrange(0, head.len() as int));
        i = i + 1;
    }
    assert(out@ =~= head + field_writes(all));
    assert(field_writes(all) =~= Seq::<HashWrite>::empty() + field_writes(all));
    out
}

impl HashBody {
    /// Runs the body on a value of the variant declared at `ordinal` that has `count`
    /// fields: what is fed to the hasher, in order.
    pub fn evaluate(&self, ordinal: usize, count: usize) -> (r: Option<Vec<HashWrite>>)
        ensures
            match r {
                Some(writes) => feed(self.deep_view(), ordinal, count as nat) == Some(writes@),
                None => feed(self.deep_view(), ordinal, count as nat) is None,
            },
    {
        let tagged = match &self.plan {
            Plan::Enum(_) => true,
            Plan::Struct(_) => false,
        };
        match self.plan.find_arm(ordinal) {
            Some(arm) => {
                if !arm.fits(count) {
                    None
                } else if !tagged {
                    Some(writes_of(arm, None))
                } else if arm.ordinal < self.discriminants.len() {
                    Some(writes_of(arm, Some(self.discriminants[arm.ordinal])))
                } else {
                    None
                }
            },
            None => None,
        }
    }
}

/// What [`hash`] returns.
pub open spec fn hash_derivation(input: TypeDefinitionView) -> Result<
    (HeaderView, HashBodyView),
    DeriveError,
> {
    match ranked_derivation(HASH_ATTR_NAME@, HASH_TARGET@, input) {
        Err(fault) => Err(fault),
        Ok((header, plan, discriminants)) => Ok((header, HashBodyView { plan, discriminants })),
    }
}

/// Derives `Hash` for `input`: the head of the implementation and the body of `hash`.
pub fn hash(input: &TypeDefinition) -> (r: Result<(Header, HashBody), DeriveError>)
    ensures
        result_view(r) == hash_derivation(input.deep_view()),
{
    match derive_ranked_plan(HASH_ATTR_NAME, HASH_TARGET, input) {
        Err(fault) => Err(fault),
        Ok((header, plan, discriminants)) => Ok((header, HashBody { plan, discriminants })),
    }
}

/// Two values of one variant whose fields feed the same at every binding of their arm
/// feed the hasher the same.
pub proof fn lemma_stream_agrees<C>(
    body: HashBodyView,
    ordinal: usize,
    first: Seq<C>,
    second: Seq<C>,
)
    requires
        first.len() == second.len(),
        feed(body, ordinal, first.len()) is Some,
        forall|j: int|
            0 <= j < arm_for(body.plan, ordinal)->0.fields.len() ==> first[(
            #[trigger] arm_for(body.plan, ordinal)->0.fields[j]).slot as int] == second[arm_for(
                body.plan,
                ordinal,
            )->0.fields[j].slot as int],
    ensures
        stream(feed(body, ordinal, first.len())->0, first) == stream(
            feed(body, ordinal, second.len())->0,
            second,
        ),
{
    let arm = arm_for(body.plan, ordinal)->0;
    let writes = feed(body, ordinal, first.len())->0;
    assert forall|i: int| 0 <= i < writes.len() implies stream(writes, first)[i] == stream(
        writes,
        second,
    )[i] by {
        if body.plan is Enum {
            if i > 0 {
                assert(writes[i] == HashWrite::Field(arm.fields[i - 1].slot));
            }
        } else {
            assert(writes[i] == HashWrite::Field(arm.fields[i].slot));
        }
    }
    assert(stream(writes, first) =~= stream(writes, second));
}

/// The template of one field's feeding: the call of the field type's `hash`, on the
/// field of `self` or on the variable that a pattern bound.
pub open spec fn hash_parts(on_self: bool) -> Seq<PartView> {
    seq![
        PartView::Text("<"@),
        PartView::Type,
        PartView::Text(" as "@),
        PartView::Text(HASH_TARGET@),
        if on_self {
            PartView::Text(">::hash(&self."@)
        } else {
            PartView::Text(">::hash("@)
        },
        if on_self {
            PartView::Member
        } else {
            PartView::Local
        },
        PartView::Text(", __state);"@),
    ]
}

/// The statements that feed an arm's fields.
pub open spec fn feeding_text(arm: ArmView, on_self: bool) -> Seq<char> {
    joined(filled_all(hash_parts(on_self), arm.fields), " "@)
}

/// One arm of the `match` in `hash`: the variant's discriminant is fed, then its
/// fields.
pub open spec fn hash_arm_text(discriminants: Seq<i64>, arm: ArmView) -> Seq<char> {
    pattern(arm, Side::Single) + " => { <isize as "@ + HASH_TARGET@ + ">::hash(&"@
        + integer_text(discriminant_for(discriminants, arm.ordinal) as int)
        + "isize, __state); "@ + feeding_text(arm, false) + " },"@
}

/// The body of `hash` as it is written.
pub open spec fn hash_body_text(body: HashBodyView) -> Seq<char> {
    match body.plan {
        PlanView::Struct(arm) => feeding_text(arm, true),
        PlanView::Enum(arms) => match_text(
            "self"@,
            Seq::new(arms.len(), |i: int| hash_arm_text(body.discriminants, arms[i])),
            ""@,
        ),
    }
}

/// The implementation of `Hash` as it is written.
pub open spec fn hash_impl_text(header: HeaderView, body: HashBodyView) -> Seq<char> {
    impl_text(
        header,
        HASH_TARGET@,
        "#[inline] fn hash<H: ::std::hash::Hasher>(&self, __state: &mut H) { "@ + hash_body_text(
            body,
        ) + " }"@,
    )
}

fn hash_template(on_self: bool) -> (r: Vec<Part>)
    ensures
        r.deep_view() == hash_parts(on_self),
{
    let mut parts: Vec<Part> = Vec::new();
    parts.push(fixed("<"));
    parts.push(Part::Type);
    parts.push(fixed(" as "));
    parts.push(fixed(HASH_TARGET));
    if on_self {
        parts.push(fixed(">::hash(&self."));
        parts.push(Part::Member);
    } else {
        parts.push(fixed(">::hash("));
        parts.push(Part::Local);
    }
    parts.push(fixed(", __state);"));
    assert(parts.deep_view() =~= hash_parts(on_self));
    parts
}

fn write_feeding(arm: &Arm, on_self: bool) -> (r: String)
    ensures
        r@ == feeding_text(arm.deep_view(), on_self),
{
    join(&fill_all(&hash_template(on_self), &arm.fields), " ")
}

fn write_hash_arm(discriminants: &Vec<i64>, arm: &Arm) -> (r: String)
    ensures
        r@ == hash_arm_text(discriminants@, arm.deep_view()),
{
    let mut out = write_pattern(arm, Side::Single);
    out.append(" => { <isize as ");
    out.append(HASH_TARGET);
    out.append(">::hash(&");
    out.append(write_integer(discriminant_of(discriminants, arm.ordinal)).as_str());
    out.append("isize, __state); ");
    out.append(write_feeding(arm, false).as_str());
    out.append(" },");
    out
}

impl HashBody {
    /// Writes the body of `hash`.
    pub fn render(&self) -> (r: String)
        ensures
            r@ == hash_body_text(self.deep_view()),
    {
        match &self.plan {
            Plan::Struct(arm) => write_feeding(arm, true),
            Plan::Enum(arms) => {
                let mut texts: Vec<String> = Vec::new();
                let mut i: usize = 0;
                while i < arms.len()
                    invariant
                        i <= arms.len(),
                        texts.len() == i,
                        arms.deep_view().len() == arms.len(),
                        forall|j: int|
                            0 <= j < i ==> texts.deep_view()[j] == hash_arm_text(
                                self.discriminants@,
                                arms.deep_view()[j],
                            ),
                    decreases arms.len() - i,
                {
                    let ghost before = texts.deep_view();
                    assert(arms.deep_view()[i as int] == arms[i as int].deep_view());
                    let next = write_hash_arm(&self.discriminants, &arms[i]);
                    texts.push(next);
                    assert(texts.deep_view() =~= before.push(next@));
                    i = i + 1;
                }
                assert(texts.deep_view() =~= Seq::new(
                    arms.deep_view().len(),
                    |i: int| hash_arm_text(self.discriminants@, arms.deep_view()[i]),
                ));
                write_match("self", &texts, "")
            },
        }
    }

    /// Writes the implementation of `Hash` under `header`.
    pub fn render_impl(&self, header: &Header) -> (r: String)
        ensures
            r@ == hash_impl_text(header.deep_view(), self.deep_view()),
    {
        let mut items = String::from_str(
            "#[inline] fn hash<H: ::std::hash::Hasher>(&self, __state: &mut H) { ",
        );
        items.append(self.render().as_str());
        items.append(" }");
        write_impl(header, HASH_TARGET, items.as_str())
    }
}

} // verus!
