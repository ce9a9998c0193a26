//! The traversal that every derivation shares: for each struct or variant, the fields
//! that take part, each with the identifiers that generated code reaches it by.

use vstd::prelude::*;
use vstd::string::*;
use crate::selection::FieldSelection;
use crate::selection::FieldSelectionView;
use crate::selection::SelectedField;
use crate::selection::SelectedFieldView;
use crate::selection::Selection;
use crate::selection::SelectionView;
use crate::selection::Shape;
use crate::text::decimal;
use crate::text::render_decimal;

verus! {

/// A field with the identifiers that stand for it in generated code.
///
/// `member` is what follows `self.`; `local` is the variable that a pattern binds the
/// field to; `left` and `right` are the two variables where two values are matched
/// together.
#[derive(Clone, Debug, PartialEq, Eq)]
pub struct FieldBinding {
    pub slot: usize,
    pub name: String,
    pub ty: String,
    pub member: String,
    pub local: String,
    pub left: String,
    pub right: String,
}

/// The mathematical value of a [`FieldBinding`].
pub struct FieldBindingView {
    pub slot: usize,
    pub name: Seq<char>,
    pub ty: Seq<char>,
    pub member: Seq<char>,
    pub local: Seq<char>,
    pub left: Seq<char>,
    pub right: Seq<char>,
}

impl DeepView for FieldBinding {
    type V = FieldBindingView;

    open spec fn deep_view(&self) -> FieldBindingView {
        FieldBindingView {
            slot: self.slot,
            name: self.name@,
            ty: self.ty@,
            member: self.member@,
            local: self.local@,
            left: self.left@,
            right: self.right@,
        }
    }
}

/// The fields of a struct or of one variant, bound to identifiers.
#[derive(Clone, Debug, PartialEq, Eq)]
pub struct Arm {
    pub variant: String,
    pub ordinal: usize,
    pub shape: Shape,
    pub arity: usize,
    pub fields: Vec<FieldBinding>,
}

/// The mathematical value of an [`Arm`].
pub struct ArmView {
    pub variant: Seq<char>,
    pub ordinal: usize,
    pub shape: Shape,
    pub arity: usize,
    pub fields: Seq<FieldBindingView>,
}

impl DeepView for Arm {
    type V = ArmView;

    open spec fn deep_view(&self) -> ArmView {
        ArmView {
            variant: self.variant@,
            ordinal: self.ordinal,
            shape: self.shape,
            arity: self.arity,
            fields: self.fields.deep_view(),
        }
    }
}

/// What a derivation walks over: the one arm of a struct, or an arm for each variant
/// that takes part. An enum without arms has no values to work on.
#[derive(Clone, Debug, PartialEq, Eq)]
pub enum Plan {
    Struct(Arm),
    Enum(Vec<Arm>),
}

/// The mathematical value of a [`Plan`].
pub enum PlanView {
    Struct(ArmView),
    Enum(Seq<ArmView>),
}

impl DeepView for Plan {
    type V = PlanView;

    open spec fn deep_view(&self) -> PlanView {
        match self {
            Plan::Struct(arm) => PlanView::Struct(arm.deep_view()),
            Plan::Enum(arms) => PlanView::Enum(arms.deep_view()),
        }
    }
}

/// The identifiers of one field: a named field goes by its name everywhere; a positional
/// one is `self.<slot>` on a value and `field<slot>` in a pattern. The two sides of a
/// pair are the pattern's variable behind `l` and `r`.
pub open spec fn binding(field: SelectedFieldView, shape: Shape) -> FieldBindingView {
    let member = if shape is Named {
        field.name
    } else {
        decimal(field.slot as nat)
    };
    let local = if shape is Named {
        field.name
    } else {
        "field"@ + decimal(field.slot as nat)
    };
    FieldBindingView {
        slot: field.slot,
        name: field.name,
        ty: field.ty,
        member,
        local,
        left: "l"@ + local,
        right: "r"@ + local,
    }
}

/// The arm for one struct or variant.
pub open spec fn arm_of(fields: FieldSelectionView) -> ArmView {
    ArmView {
        variant: fields.variant,
        ordinal: fields.ordinal,
        shape: fields.shape,
        arity: fields.arity,
        fields: Seq::new(fields.fields.len(), |i: int| binding(fields.fields[i], fields.shape)),
    }
}

/// The plan for what a derivation sees of a type.
pub open spec fn plan_of(selection: SelectionView) -> PlanView {
    match selection {
        SelectionView::Struct(fields) => PlanView::Struct(arm_of(fields)),
        SelectionView::Enum(variants) => PlanView::Enum(
            Seq::new(variants.len(), |i: int| arm_of(variants[i])),
        ),
    }
}

fn bind(field: &SelectedField, shape: Shape) -> (r: FieldBinding)
    ensures
        r.deep_view() == binding(field.deep_view(), shape),
{
    let named = match shape {
        Shape::Named => true,
        _ => false,
    };
    let member = if named {
        field.name.clone()
    } else {
        render_decimal(field.slot)
    };
    let local = if named {
        field.name.clone()
    } else {
        let mut local = String::from_str("field");
        local.append(render_decimal(field.slot).as_str());
        local
    };
    let mut left = String::from_str("l");
    left.append(local.as_str());
    let mut right = String::from_str("r");
    right.append(local.as_str());
    FieldBinding {
        slot: field.slot,
        name: field.name.clone(),
        ty: field.ty.clone(),
        member,
        local,
        left,
        right,
    }
}

/// Gives each field the identifiers that generated code reaches it by.
pub fn generate_field_idents(fields: &Vec<SelectedField>, shape: Shape) -> (r: Vec<FieldBinding>)
    ensures
        r.deep_view() == Seq::new(
            fields.deep_view().len(),
            |i: int| binding(fields.deep_view()[i], shape),
        ),
{
    let mut out: Vec<FieldBinding> = Vec::new();
    let mut i: usize = 0;
    while i < fields.len()
        invariant
            i <= fields.len(),
            out.len() == i,
            fields.deep_view().len() == fields.len(),
            forall|j: int|
                0 <= j < i ==> out.deep_view()[j] == binding(fields.deep_view()[j], shape),
        decreases fields.len() - i,
    {
        let ghost before = out.deep_view();
        assert(fields.deep_view()[i as int] == fields[i as int].deep_view());
        let next = bind(&fields[i], shape);
        out.push(next);
        assert(out.deep_view() =~= before.push(next.deep_view()));
        i = i + 1;
    }
    assert(out.deep_view() =~= Seq::new(
        fields.deep_view().len(),
        |i: int| binding(fields.deep_view()[i], shape),
    ));
    out
}

/// Builds the arm for one struct or variant.
pub fn build_arm(fields: &FieldSelection) -> (r: Arm)
    ensures
        r.deep_view() == arm_of(fields.deep_view()),
{
    Arm {
        variant: fields.variant.clone(),
        ordinal: fields.ordinal,
        shape: fields.shape,
        arity: fields.arity,
        fields: generate_field_idents(&fields.fields, fields.shape),
    }
}

/// Builds the plan for what a derivation sees of a type.
pub fn build_plan(selection: &Selection) -> (r: Plan)
    ensures
        r.deep_view() == plan_of(selection.deep_view()),
{
    match selection {
        Selection::Struct(fields) => Plan::Struct(build_arm(fields)),
        Selection::Enum(variants) => {
            let mut arms: Vec<Arm> = Vec::new();
            let mut i: usize = 0;
            while i < variants.len()
                invariant
                    i <= variants.len(),
                    arms.len() == i,
                    variants.deep_view().len() == variants.len(),
                    forall|j: int|
                        0 <= j < i ==> arms.deep_view()[j] == arm_of(variants.deep_view()[j]),
                decreases variants.len() - i,
            {
                let ghost before = arms.deep_view();
                assert(variants.deep_view()[i as int] == variants[i as int].deep_view());
                let next = build_arm(&variants[i]);
                arms.push(next);
                assert(arms.deep_view() =~= before.push(next.deep_view()));
                i = i + 1;
            }
            assert(arms.deep_view() =~= Seq::new(
                variants.deep_view().len(),
                |i: int| arm_of(variants.deep_view()[i]),
            ));
            Plan::Enum(arms)
        },
    }
}

/// The position, among `arms`, of the first arm at or after `from` for the variant
/// declared at `ordinal`; `None` where no arm is for it.
pub open spec fn arm_index(arms: Seq<ArmView>, ordinal: usize, from: int) -> Option<int>
    decreases arms.len() - from,
{
    if from < 0 || from >= arms.len() {
        None
    } else if arms[from].ordinal == ordinal {
        Some(from)
    } else {
        arm_index(arms, ordinal, from + 1)
    }
}

/// The arm that a value is worked on by: the one arm of a struct, whatever `ordinal`
/// says; for an enum the arm of the variant declared at `ordinal`, if it takes part.
pub open spec fn arm_for(plan: PlanView, ordinal: usize) -> Option<ArmView> {
    match plan {
        PlanView::Struct(arm) => Some(arm),
        PlanView::Enum(arms) => match arm_index(arms, ordinal, 0) {
            Some(at) => Some(arms[at]),
            None => None,
        },
    }
}

/// An arm that is found lies among the arms, at or after the start of the search.
pub proof fn lemma_arm_index(arms: Seq<ArmView>, ordinal: usize, from: int)
    requires
        0 <= from,
    ensures
        arm_index(arms, ordinal, from) matches Some(at) ==> from <= at < arms.len()
            && arms[at].ordinal == ordinal,
        arm_index(arms, ordinal, from) is None ==> forall|k: int|
            from <= k < arms.len() ==> (#[trigger] arms[k]).ordinal != ordinal,
    decreases arms.len() - from,
{
    if from < arms.len() && arms[from].ordinal != ordinal {
        lemma_arm_index(arms, ordinal, from + 1);
    }
}

impl Plan {
    /// Finds the arm that a value of the variant declared at `ordinal` is worked on by.
    pub fn find_arm(&self, ordinal: usize) -> (r: Option<&Arm>)
        ensures
            r.deep_view() == arm_for(self.deep_view(), ordinal),
    {
        match self {
            Plan::Struct(arm) => Some(arm),
            Plan::Enum(arms) => {
                let ghost all = arms.deep_view();
                let mut i: usize = 0;
                while i < arms.len()
                    invariant
                        i <= arms.len(),
                        all == arms.deep_view(),
                        all.len() == arms.len(),
                        self.deep_view() == PlanView::Enum(all),
                        arm_index(all, ordinal, 0) == arm_index(all, ordinal, i as int),
                    decreases arms.len() - i,
                {
                    assert(all[i as int] == arms[i as int].deep_view());
                    if arms[i].ordinal == ordinal {
                        return Some(&arms[i]);
                    }
                    i = i + 1;
                }
                None
            },
        }
    }
}

impl ArmView {
    /// Whether a value with `count` fields can be worked on by this arm: the arm's
    /// struct or variant declares that many, and each binding is of one of them.
    pub open spec fn fits(self, count: nat) -> bool {
        count == self.arity && forall|j: int|
            0 <= j < self.fields.len() ==> (#[trigger] self.fields[j]).slot < self.arity
    }
}

impl Arm {
    /// Tells whether a value with `count` fields can be worked on by this arm.
    pub fn fits(&self, count: usize) -> (r: bool)
        ensures
            r == self.deep_view().fits(count as nat),
    {
        if count != self.arity {
            return false;
        }
        let ghost all = self.fields.deep_view();
        let mut i: usize = 0;
        while i < self.fields.len()
            invariant
                i <= self.fields.len(),
                all == self.fields.deep_view(),
                all == self.deep_view().fields,
                self.arity == self.deep_view().arity,
                all.len() == self.fields.len(),
                forall|j: int| 0 <= j < i ==> (#[trigger] all[j]).slot < self.arity,
            decreases self.fields.len() - i,
        {
            assert(all[i as int] == self.fields[i as int].deep_view());
            if self.fields[i].slot >= self.arity {
                return false;
            }
            i = i + 1;
        }
        true
    }
}

/// The slots of the bound fields, in their order.
pub open spec fn slots_of(fields: Seq<FieldBindingView>) -> Seq<usize> {
    Seq::new(fields.len(), |i: int| fields[i].slot)
}

impl Arm {
    /// The slots of the fields that take part, in their order.
    pub fn slots(&self) -> (r: Vec<usize>)
        ensures
            r@ == slots_of(self.deep_view().fields),
    {
        let mut out: Vec<usize> = Vec::new();
        let mut i: usize = 0;
        while i < self.fields.len()
            invariant
                i <= self.fields.len(),
                out.len() == i,
                self.fields.deep_view().len() == self.fields.len(),
                forall|j: int| 0 <= j < i ==> out@[j] == self.fields.deep_view()[j].slot,
            decreases self.fields.len() - i,
        {
            assert(self.fields.deep_view()[i as int] == self.fields[i as int].deep_view());
            out.push(self.fields[i].slot);
            i = i + 1;
        }
        assert(out@ =~= slots_of(self.deep_view().fields));
        out
    }
}

impl ArmView {
    /// Whether the field declared at `slot` takes part in this arm.
    pub open spec fn binds(self, slot: int) -> bool {
        exists|j: int| 0 <= j < self.fields.len() && (#[trigger] self.fields[j]).slot == slot
    }
}

} // verus!
