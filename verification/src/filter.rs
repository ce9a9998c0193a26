//! Leaving out the fields and variants that are marked as skipped.

use vstd::prelude::*;
use vstd::string::*;
use crate::attrs::parse_field_attrs;
use crate::attrs::skip_marked;
use crate::error::ConfigError;
use crate::error::DeriveError;
use crate::error::result_view;
use crate::error::Site;
use crate::model::AttributeView;
use crate::model::Data;
use crate::model::DataView;
use crate::model::Field;
use crate::model::FieldList;
use crate::model::FieldListView;
use crate::model::FieldView;
use crate::model::Variant;
use crate::model::VariantView;
use crate::plan::arm_for;
use crate::plan::arm_index;
use crate::plan::arm_of;
use crate::plan::binding;
use crate::plan::lemma_arm_index;
use crate::plan::plan_of;
use crate::plan::PlanView;
use crate::selection::FieldSelection;
use crate::selection::FieldSelectionView;
use crate::selection::SelectedField;
use crate::selection::SelectedFieldView;
use crate::selection::Selection;
use crate::selection::SelectionView;
use crate::selection::Shape;

verus! {

/// How a list of fields is written.
pub open spec fn shape_of(fields: FieldListView) -> Shape {
    match fields {
        FieldListView::Named(_) => Shape::Named,
        FieldListView::Unnamed(_) => Shape::Unnamed,
        FieldListView::Unit => Shape::Unit,
    }
}

/// The field at position `slot`, as a derivation sees it.
pub open spec fn selected(field: FieldView, slot: int) -> SelectedFieldView {
    SelectedFieldView { slot: slot as usize, name: field.name, ty: field.ty.text() }
}

/// The first `upto` fields of the variant at position `variant` without those marked as
/// skipped, in their order; or the first fault among their attributes.
pub open spec fn kept_fields(
    fields: Seq<FieldView>,
    base: Seq<char>,
    variant: int,
    upto: int,
) -> Result<Seq<SelectedFieldView>, DeriveError>
    decreases upto,
{
    if upto <= 0 || upto > fields.len() {
        Ok(Seq::empty())
    } else {
        match kept_fields(fields, base, variant, upto - 1) {
            Err(fault) => Err(fault),
            Ok(front) => match skip_marked(fields[upto - 1].attrs, base, 0) {
                Err(fault) => Err(
                    DeriveError::Config(Site::Field(variant as usize, (upto - 1) as usize), fault),
                ),
                Ok(true) => Ok(front),
                Ok(false) => Ok(front.push(selected(fields[upto - 1], upto - 1))),
            },
        }
    }
}

/// The fields of one struct or variant that a derivation listening to `base` sees.
pub open spec fn kept_of(
    name: Seq<char>,
    ordinal: int,
    fields: FieldListView,
    base: Seq<char>,
) -> Result<FieldSelectionView, DeriveError> {
    match kept_fields(fields.items(), base, ordinal, fields.items().len() as int) {
        Err(fault) => Err(fault),
        Ok(kept) => Ok(
            FieldSelectionView {
                variant: name,
                ordinal: ordinal as usize,
                shape: shape_of(fields),
                arity: fields.items().len() as usize,
                fields: kept,
            },
        ),
    }
}

/// The first `upto` variants without those marked as skipped, each without its skipped
/// fields; or the first fault, a variant's own attributes coming before its fields'.
pub open spec fn kept_variants(variants: Seq<VariantView>, base: Seq<char>, upto: int) -> Result<
    Seq<FieldSelectionView>,
    DeriveError,
>
    decreases upto,
{
    if upto <= 0 || upto > variants.len() {
        Ok(Seq::empty())
    } else {
        let variant = variants[upto - 1];
        match kept_variants(variants, base, upto - 1) {
            Err(fault) => Err(fault),
            Ok(front) => match skip_marked(variant.attrs, base, 0) {
                Err(fault) => Err(DeriveError::Config(Site::Variant((upto - 1) as usize), fault)),
                Ok(skipped) => match kept_of(variant.name, upto - 1, variant.fields, base) {
                    Err(fault) => Err(fault),
                    Ok(kept) => if skipped {
                        Ok(front)
                    } else {
                        Ok(front.push(kept))
                    },
                },
            },
        }
    }
}

/// What a derivation that listens to `base` sees of `data`.
pub open spec fn filtered(data: DataView, base: Seq<char>) -> Result<SelectionView, DeriveError> {
    match data {
        DataView::Struct(fields) => match kept_of(Seq::empty(), 0, fields, base) {
            Err(fault) => Err(fault),
            Ok(kept) => Ok(SelectionView::Struct(kept)),
        },
        DataView::Enum(variants) => match kept_variants(variants, base, variants.len() as int) {
            Err(fault) => Err(fault),
            Ok(kept) => Ok(SelectionView::Enum(kept)),
        },
        DataView::Union => Err(DeriveError::UnsupportedShape),
    }
}

/// A fault among the first fields is a fault of the whole list.
pub proof fn lemma_kept_fields_fault(
    fields: Seq<FieldView>,
    base: Seq<char>,
    variant: int,
    upto: int,
    whole: int,
)
    requires
        0 <= upto <= whole <= fields.len(),
        kept_fields(fields, base, variant, upto) is Err,
    ensures
        kept_fields(fields, base, variant, whole) == kept_fields(fields, base, variant, upto),
    decreases whole - upto,
{
    if upto < whole {
        lemma_kept_fields_fault(fields, base, variant, upto, whole - 1);
    }
}

/// A fault among the first variants is a fault of the whole enum.
pub proof fn lemma_kept_variants_fault(
    variants: Seq<VariantView>,
    base: Seq<char>,
    upto: int,
    whole: int,
)
    requires
        0 <= upto <= whole <= variants.len(),
        kept_variants(variants, base, upto) is Err,
    ensures
        kept_variants(variants, base, whole) == kept_variants(variants, base, upto),
    decreases whole - upto,
{
    if upto < whole {
        lemma_kept_variants_fault(variants, base, upto, whole - 1);
    }
}

fn filter_fields(base_ident: &str, fields: &Vec<Field>, variant: usize) -> (r: Result<
    Vec<SelectedField>,
    DeriveError,
>)
    ensures
        result_view(r) == kept_fields(
            fields.deep_view(),
            base_ident@,
            variant as int,
            fields.len() as int,
        ),
{
    let ghost all = fields.deep_view();
    let mut kept: Vec<SelectedField> = Vec::new();
    let mut i: usize = 0;
    assert(kept.deep_view() =~= Seq::empty());
    while i < fields.len()
        invariant
            i <= fields.len(),
            all == fields.deep_view(),
            kept_fields(all, base_ident@, variant as int, i as int) == Ok::<
                Seq<SelectedFieldView>,
                DeriveError,
            >(kept.deep_view()),
        decreases fields.len() - i,
    {
        let ghost before = kept.deep_view();
        match parse_field_attrs(base_ident, &fields[i].attrs) {
            Err(fault) => {
                proof {
                    lemma_kept_fields_fault(
                        all,
                        base_ident@,
                        variant as int,
                        i + 1,
                        fields.len() as int,
                    );
                }
                return Err(DeriveError::Config(Site::Field(variant, i), fault));
            },
            Ok(true) => {},
            Ok(false) => {
                let field = &fields[i];
                kept.push(SelectedField { slot: i, name: field.name.clone(), ty: field.ty.text() });
                proof {
                    assert(kept.deep_view() =~= before.push(selected(all[i as int], i as int)));
                }
            },
        }
        i = i + 1;
    }
    Ok(kept)
}

fn filter_list(base_ident: &str, name: &String, ordinal: usize, fields: &FieldList) -> (r: Result<
    FieldSelection,
    DeriveError,
>)
    ensures
        result_view(r) == kept_of(name@, ordinal as int, fields.deep_view(), base_ident@),
{
    match fields {
        FieldList::Named(items) => {
            assert(items.deep_view().len() == items.len());
            let kept = filter_fields(base_ident, items, ordinal)?;
            Ok(
                FieldSelection {
                    variant: name.clone(),
                    ordinal,
                    shape: Shape::Named,
                    arity: items.len(),
                    fields: kept,
                },
            )
        },
        FieldList::Unnamed(items) => {
            assert(items.deep_view().len() == items.len());
            let kept = filter_fields(base_ident, items, ordinal)?;
            Ok(
                FieldSelection {
                    variant: name.clone(),
                    ordinal,
                    shape: Shape::Unnamed,
                    arity: items.len(),
                    fields: kept,
                },
            )
        },
        FieldList::Unit => {
            let kept: Vec<SelectedField> = Vec::new();
            assert(kept.deep_view() =~= Seq::empty());
            Ok(
                FieldSelection {
                    variant: name.clone(),
                    ordinal,
                    shape: Shape::Unit,
                    arity: 0,
                    fields: kept,
                },
            )
        },
    }
}

/// Leaves out of `data` every variant and field that carries `#[name(skip)]`, for
/// `name` the common attribute or `base_ident`. What is kept stays in its order and
/// remembers the position it was declared at; `data` itself is not changed.
pub fn filter_skipped_variants_and_fields(base_ident: &str, data: &Data) -> (r: Result<
    Selection,
    DeriveError,
>)
    ensures
        result_view(r) == filtered(data.deep_view(), base_ident@),
{
    match data {
        Data::Struct(fields) => {
            let name = String::new();
            let kept = filter_list(base_ident, &name, 0, fields)?;
            Ok(Selection::Struct(kept))
        },
        Data::Enum(variants) => {
            let ghost all = variants.deep_view();
            let mut kept: Vec<FieldSelection> = Vec::new();
            let mut i: usize = 0;
            assert(kept.deep_view() =~= Seq::empty());
            assert(all.len() == variants.len());
            while i < variants.len()
                invariant
                    i <= variants.len(),
                    all == variants.deep_view(),
                    data.deep_view() == DataView::Enum(all),
                    kept_variants(all, base_ident@, i as int) == Ok::<
                        Seq<FieldSelectionView>,
                        DeriveError,
                    >(kept.deep_view()),
                decreases variants.len() - i,
            {
                let ghost before = kept.deep_view();
                let variant = &variants[i];
                proof {
                    assert(all[i as int] == variant.deep_view());
                    if kept_variants(all, base_ident@, i + 1) is Err {
                        lemma_kept_variants_fault(all, base_ident@, i + 1, variants.len() as int);
                    }
                }
                let skipped = match parse_field_attrs(base_ident, &variant.attrs) {
                    Ok(skipped) => skipped,
                    Err(fault) => {
                        return Err(DeriveError::Config(Site::Variant(i), fault));
                    },
                };
                let fields = match filter_list(base_ident, &variant.name, i, &variant.fields) {
                    Ok(fields) => fields,
                    Err(fault) => {
                        return Err(fault);
                    },
                };
                if !skipped {
                    kept.push(fields);
                    proof {
                        assert(kept.deep_view() =~= before.push(fields.deep_view()));
                    }
                }
                i = i + 1;
            }
            Ok(Selection::Enum(kept))
        },
        Data::Union => Err(DeriveError::UnsupportedShape),
    }
}

/// Whether the field declared at `slot` is among `kept`.
pub open spec fn keeps(kept: Seq<SelectedFieldView>, slot: int) -> bool {
    exists|k: int| 0 <= k < kept.len() && (#[trigger] kept[k]).slot == slot
}

/// Whether the variant declared at `ordinal` is among `kept`.
pub open spec fn keeps_variant(kept: Seq<FieldSelectionView>, ordinal: int) -> bool {
    exists|k: int| 0 <= k < kept.len() && (#[trigger] kept[k]).ordinal == ordinal
}

/// What the filter keeps of the first `upto` fields: exactly those not marked as
/// skipped, each as it was declared, in the order of their slots.
pub proof fn lemma_kept_fields(fields: Seq<FieldView>, base: Seq<char>, variant: int, upto: int)
    requires
        0 <= upto <= fields.len() <= usize::MAX,
        kept_fields(fields, base, variant, upto) is Ok,
    ensures
        forall|k: int|
            0 <= k < kept_fields(fields, base, variant, upto)->Ok_0.len() ==> {
                let field = #[trigger] kept_fields(fields, base, variant, upto)->Ok_0[k];
                &&& field.slot < upto
                &&& field == selected(fields[field.slot as int], field.slot as int)
                &&& skip_marked(fields[field.slot as int].attrs, base, 0) == Ok::<bool, ConfigError>(
                    false,
                )
            },
        forall|k: int, l: int|
            0 <= k < l < kept_fields(fields, base, variant, upto)->Ok_0.len() ==> (
            #[trigger] kept_fields(fields, base, variant, upto)->Ok_0[k]).slot < (
            #[trigger] kept_fields(fields, base, variant, upto)->Ok_0[l]).slot,
        forall|j: int|
            0 <= j < upto ==> (#[trigger] skip_marked(fields[j].attrs, base, 0)) is Ok && (keeps(
                kept_fields(fields, base, variant, upto)->Ok_0,
                j,
            ) <==> skip_marked(fields[j].attrs, base, 0) == Ok::<bool, ConfigError>(false)),
    decreases upto,
{
    if upto > 0 {
        let front = kept_fields(fields, base, variant, upto - 1);
        let whole = kept_fields(fields, base, variant, upto)->Ok_0;
        assert(front is Ok);
        lemma_kept_fields(fields, base, variant, upto - 1);
        let last = skip_marked(fields[upto - 1].attrs, base, 0);
        assert(last is Ok);
        assert forall|j: int| 0 <= j < upto implies (#[trigger] skip_marked(
            fields[j].attrs,
            base,
            0,
        )) is Ok && (keeps(whole, j) <==> skip_marked(fields[j].attrs, base, 0) == Ok::<
            bool,
            ConfigError,
        >(false)) by {
            if j < upto - 1 {
                if keeps(front->Ok_0, j) {
                    let k = choose|k: int|
                        0 <= k < front->Ok_0.len() && (#[trigger] front->Ok_0[k]).slot == j;
                    assert(whole[k].slot == j);
                }
                if keeps(whole, j) {
                    let k = choose|k: int| 0 <= k < whole.len() && (#[trigger] whole[k]).slot == j;
                    assert(front->Ok_0[k].slot == j);
                }
            } else {
                if last == Ok::<bool, ConfigError>(false) {
                    assert(whole[whole.len() - 1].slot == j);
                } else {
                    if keeps(whole, j) {
                        let k = choose|k: int|
                            0 <= k < whole.len() && (#[trigger] whole[k]).slot == j;
                        assert(front->Ok_0[k].slot < upto - 1);
                    }
                }
            }
        }
    }
}

/// What the filter keeps of one struct or variant fits the values it is for.
pub proof fn lemma_kept_of_fits(name: Seq<char>, ordinal: int, fields: FieldListView, base: Seq<char>)
    requires
        fields.items().len() <= usize::MAX,
        0 <= ordinal <= usize::MAX,
        kept_of(name, ordinal, fields, base) is Ok,
    ensures
        arm_of(kept_of(name, ordinal, fields, base)->Ok_0).fits(fields.items().len()),
        arm_of(kept_of(name, ordinal, fields, base)->Ok_0).ordinal == ordinal,
{
    let kept = kept_of(name, ordinal, fields, base)->Ok_0;
    lemma_kept_fields(fields.items(), base, ordinal, fields.items().len() as int);
    let arm = arm_of(kept);
    assert forall|j: int| 0 <= j < arm.fields.len() implies (#[trigger] arm.fields[j]).slot
        < arm.arity by {
        assert(arm.fields[j] == binding(kept.fields[j], kept.shape));
        assert(kept.fields[j].slot < fields.items().len());
    }
}

/// What the filter keeps of the first `upto` variants: exactly those not marked as
/// skipped, each under the position it was declared at, in the order of declaration.
pub proof fn lemma_kept_variants(variants: Seq<VariantView>, base: Seq<char>, upto: int)
    requires
        0 <= upto <= variants.len() <= usize::MAX,
        kept_variants(variants, base, upto) is Ok,
    ensures
        forall|k: int|
            0 <= k < kept_variants(variants, base, upto)->Ok_0.len() ==> {
                let kept = #[trigger] kept_variants(variants, base, upto)->Ok_0[k];
                &&& kept.ordinal < upto
                &&& kept_of(
                    variants[kept.ordinal as int].name,
                    kept.ordinal as int,
                    variants[kept.ordinal as int].fields,
                    base,
                ) == Ok::<FieldSelectionView, DeriveError>(kept)
                &&& skip_marked(variants[kept.ordinal as int].attrs, base, 0) == Ok::<
                    bool,
                    ConfigError,
                >(false)
            },
        forall|k: int, l: int|
            0 <= k < l < kept_variants(variants, base, upto)->Ok_0.len() ==> (
            #[trigger] kept_variants(variants, base, upto)->Ok_0[k]).ordinal < (
            #[trigger] kept_variants(variants, base, upto)->Ok_0[l]).ordinal,
        forall|v: int|
            0 <= v < upto ==> (#[trigger] skip_marked(variants[v].attrs, base, 0)) is Ok && (
            keeps_variant(kept_variants(variants, base, upto)->Ok_0, v) <==> skip_marked(
                variants[v].attrs,
                base,
                0,
            ) == Ok::<bool, ConfigError>(false)),
    decreases upto,
{
    if upto > 0 {
        let front = kept_variants(variants, base, upto - 1);
        let whole = kept_variants(variants, base, upto)->Ok_0;
        assert(front is Ok);
        lemma_kept_variants(variants, base, upto - 1);
        let last = skip_marked(variants[upto - 1].attrs, base, 0);
        assert(last is Ok);
        let fields = kept_of(variants[upto - 1].name, upto - 1, variants[upto - 1].fields, base);
        assert(fields is Ok);
        assert forall|v: int| 0 <= v < upto implies (#[trigger] skip_marked(
            variants[v].attrs,
            base,
            0,
        )) is Ok && (keeps_variant(whole, v) <==> skip_marked(variants[v].attrs, base, 0) == Ok::<
            bool,
            ConfigError,
        >(false)) by {
            if v < upto - 1 {
                if keeps_variant(front->Ok_0, v) {
                    let k = choose|k: int|
                        0 <= k < front->Ok_0.len() && (#[trigger] front->Ok_0[k]).ordinal == v;
                    assert(whole[k].ordinal == v);
                }
                if keeps_variant(whole, v) {
                    let k = choose|k: int|
                        0 <= k < whole.len() && (#[trigger] whole[k]).ordinal == v;
                    assert(front->Ok_0[k].ordinal == v);
                }
            } else {
                if last == Ok::<bool, ConfigError>(false) {
                    assert(whole[whole.len() - 1].ordinal == v);
                } else {
                    if keeps_variant(whole, v) {
                        let k = choose|k: int|
                            0 <= k < whole.len() && (#[trigger] whole[k]).ordinal == v;
                        assert(front->Ok_0[k].ordinal < upto - 1);
                    }
                }
            }
        }
    }
}

/// Whether the sequences of a type's contents are no longer than a machine can hold.
pub open spec fn well_sized(data: DataView) -> bool {
    match data {
        DataView::Struct(fields) => fields.items().len() <= usize::MAX,
        DataView::Enum(variants) => variants.len() <= usize::MAX && forall|v: int|
            0 <= v < variants.len() ==> (#[trigger] variants[v]).fields.items().len()
                <= usize::MAX,
        DataView::Union => true,
    }
}

/// The number of fields that a value of the variant declared at `ordinal` has.
pub open spec fn declared_count(data: DataView, ordinal: usize) -> nat {
    match data {
        DataView::Struct(fields) => fields.items().len(),
        DataView::Enum(variants) => if ordinal < variants.len() {
            variants[ordinal as int].fields.items().len()
        } else {
            0
        },
        DataView::Union => 0,
    }
}

/// The arm that a plan has for a variant is the one made of that variant: it is for a
/// variant that is declared, and fits the values of that variant.
pub proof fn lemma_plan_arm(data: DataView, base: Seq<char>, ordinal: usize)
    requires
        well_sized(data),
        filtered(data, base) is Ok,
        arm_for(plan_of(filtered(data, base)->Ok_0), ordinal) is Some,
    ensures
        arm_for(plan_of(filtered(data, base)->Ok_0), ordinal)->0.fits(
            declared_count(data, ordinal),
        ),
        data matches DataView::Enum(variants) ==> ordinal < variants.len() && kept_of(
            variants[ordinal as int].name,
            ordinal as int,
            variants[ordinal as int].fields,
            base,
        ) is Ok && arm_for(plan_of(filtered(data, base)->Ok_0), ordinal)->0 == arm_of(
            kept_of(
                variants[ordinal as int].name,
                ordinal as int,
                variants[ordinal as int].fields,
                base,
            )->Ok_0,
        ) && skip_marked(variants[ordinal as int].attrs, base, 0) == Ok::<bool, ConfigError>(false),
        data matches DataView::Struct(fields) ==> kept_of(Seq::empty(), 0, fields, base) is Ok
            && arm_for(plan_of(filtered(data, base)->Ok_0), ordinal)->0 == arm_of(
            kept_of(Seq::empty(), 0, fields, base)->Ok_0,
        ),
{
    match data {
        DataView::Struct(fields) => {
            lemma_kept_of_fits(Seq::empty(), 0, fields, base);
        },
        DataView::Enum(variants) => {
            let kept = kept_variants(variants, base, variants.len() as int)->Ok_0;
            let arms = Seq::new(kept.len(), |i: int| arm_of(kept[i]));
            assert(plan_of(filtered(data, base)->Ok_0) == PlanView::Enum(arms));
            lemma_arm_index(arms, ordinal, 0);
            let at = arm_index(arms, ordinal, 0)->0;
            lemma_kept_variants(variants, base, variants.len() as int);
            assert(arms[at] == arm_of(kept[at]));
            assert(kept[at].ordinal == ordinal);
            lemma_kept_of_fits(
                variants[ordinal as int].name,
                ordinal as int,
                variants[ordinal as int].fields,
                base,
            );
        },
        DataView::Union => {},
    }
}

/// A field or variant that carries no list under the common name or under `base` is not
/// skipped by the derivation that listens to `base`.
pub proof fn law_unmarked_is_kept(attrs: Seq<AttributeView>, base: Seq<char>, from: int)
    requires
        0 <= from,
        forall|i: int| from <= i < attrs.len() ==> !crate::attrs::applies(#[trigger] attrs[i], base),
    ensures
        skip_marked(attrs, base, from) == Ok::<bool, ConfigError>(false),
    decreases attrs.len() - from,
{
    if from < attrs.len() {
        law_unmarked_is_kept(attrs, base, from + 1);
    }
}

/// A field takes part in a derivation exactly if it is not marked as skipped for it, and
/// then as it was declared.
pub proof fn law_skip_exclusion(fields: Seq<FieldView>, base: Seq<char>, variant: int, slot: int)
    requires
        0 <= slot < fields.len() <= usize::MAX,
        kept_fields(fields, base, variant, fields.len() as int) is Ok,
    ensures
        skip_marked(fields[slot].attrs, base, 0) is Ok,
        keeps(kept_fields(fields, base, variant, fields.len() as int)->Ok_0, slot) <==> skip_marked(
            fields[slot].attrs,
            base,
            0,
        ) == Ok::<bool, ConfigError>(false),
        forall|k: int|
            0 <= k < kept_fields(fields, base, variant, fields.len() as int)->Ok_0.len() && (
            #[trigger] kept_fields(fields, base, variant, fields.len() as int)->Ok_0[k]).slot
                == slot ==> kept_fields(fields, base, variant, fields.len() as int)->Ok_0[k]
                == selected(fields[slot], slot),
{
    lemma_kept_fields(fields, base, variant, fields.len() as int);
    assert(skip_marked(fields[slot].attrs, base, 0) is Ok);
}

} // verus!
