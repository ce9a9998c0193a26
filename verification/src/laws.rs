//! What holds of the derived implementations together.

use vstd::prelude::*;
use crate::attrs::skip_marked;
use crate::capability::CLONE_ATTR_NAME;
use crate::capability::CLONE_TARGET;
use crate::capability::HASH_ATTR_NAME;
use crate::capability::PARTIAL_EQ_ATTR_NAME;
use crate::capability::PARTIAL_EQ_TARGET;
use crate::capability::PARTIAL_ORD_ATTR_NAME;
use crate::clone::copies;
use crate::common::derivation;
use crate::debug::DebugBodyView;
use crate::debug::entries;
use crate::debug::entry;
use crate::debug::formatted;
use crate::discriminant::discriminants_of;
use crate::discriminant::lemma_assigned_len;
use crate::discriminant::lemma_written_len;
use crate::discriminant::written;
use crate::error::ConfigError;
use crate::filter::filtered;
use crate::filter::keeps;
use crate::filter::kept_of;
use crate::filter::lemma_kept_fields;
use crate::filter::lemma_plan_arm;
use crate::filter::well_sized;
use crate::hash::feed;
use crate::hash::hash_derivation;
use crate::hash::HashBodyView;
use crate::hash::lemma_stream_agrees;
use crate::hash::stream;
use crate::model::DataView;
use crate::model::FieldView;
use crate::model::TypeDefinitionView;
use crate::partial_eq::all_equal;
use crate::partial_eq::equal;
use crate::partial_eq::lemma_all_equal_agrees;
use crate::partial_eq::lemma_all_equal_holds;
use crate::partial_ord::compare;
use crate::partial_ord::lemma_lexicographic_agrees;
use crate::partial_ord::partial_ord_derivation;
use crate::partial_ord::PartialOrdBodyView;
use crate::partial_ord::rank;
use crate::partial_ord::Relation;
use crate::plan::arm_for;
use crate::plan::arm_of;
use crate::plan::binding;
use crate::plan::FieldBindingView;
use crate::plan::plan_of;
use crate::plan::PlanView;

verus! {

/// The fields that a value of the variant declared at `ordinal` has.
pub open spec fn declared_fields(data: DataView, ordinal: usize) -> Seq<FieldView> {
    match data {
        DataView::Struct(fields) => fields.items(),
        DataView::Enum(variants) => if ordinal < variants.len() {
            variants[ordinal as int].fields.items()
        } else {
            Seq::empty()
        },
        DataView::Union => Seq::empty(),
    }
}

/// A field takes part in a derivation exactly if it is not marked as skipped for that
/// derivation: one that is marked is absent from the arm that works on its variant, one
/// that is not is there.
pub proof fn law_skipped_field_takes_no_part(
    data: DataView,
    base: Seq<char>,
    ordinal: usize,
    slot: int,
)
    requires
        well_sized(data),
        filtered(data, base) is Ok,
        arm_for(plan_of(filtered(data, base)->Ok_0), ordinal) is Some,
        0 <= slot < declared_fields(data, ordinal).len(),
    ensures
        arm_for(plan_of(filtered(data, base)->Ok_0), ordinal)->0.binds(slot) <==> skip_marked(
            declared_fields(data, ordinal)[slot].attrs,
            base,
            0,
        ) == Ok::<bool, ConfigError>(false),
{
    lemma_plan_arm(data, base, ordinal);
    let arm = arm_for(plan_of(filtered(data, base)->Ok_0), ordinal)->0;
    let fields = declared_fields(data, ordinal);
    let name = match data {
        DataView::Enum(variants) => variants[ordinal as int].name,
        _ => Seq::empty(),
    };
    let position: int = match data {
        DataView::Enum(variants) => ordinal as int,
        _ => 0,
    };
    let list = match data {
        DataView::Struct(list) => list,
        DataView::Enum(variants) => variants[ordinal as int].fields,
        DataView::Union => arbitrary(),
    };
    let kept = kept_of(name, position, list, base)->Ok_0;
    assert(arm == arm_of(kept));
    lemma_kept_fields(fields, base, position, fields.len() as int);
    if arm.binds(slot) {
        let j = choose|j: int| 0 <= j < arm.fields.len() && (#[trigger] arm.fields[j]).slot == slot;
        assert(arm.fields[j] == binding(kept.fields[j], kept.shape));
        assert(kept.fields[j].slot == slot);
        assert(keeps(kept.fields, slot));
    }
    if keeps(kept.fields, slot) {
        let k = choose|k: int| 0 <= k < kept.fields.len() && (#[trigger] kept.fields[k]).slot == slot;
        assert(arm.fields[k] == binding(kept.fields[k], kept.shape));
        assert(arm.fields[k].slot == slot);
    }
}

/// Equality does not look at a field that takes no part: two lists of comparisons that
/// agree wherever a field takes part give the same answer.
pub proof fn law_equality_ignores_skipped(
    plan: PlanView,
    left: usize,
    right: usize,
    first: Seq<bool>,
    second: Seq<bool>,
)
    requires
        first.len() == second.len(),
        arm_for(plan, left) matches Some(arm) ==> forall|slot: int|
            0 <= slot < first.len() && arm.binds(slot) ==> first[slot] == second[slot],
    ensures
        equal(plan, left, right, first) == equal(plan, left, right, second),
{
    if arm_for(plan, left) is Some {
        let arm = arm_for(plan, left)->0;
        if arm.fits(first.len()) {
            assert forall|j: int| 0 <= j < arm.fields.len() implies first[(
            #[trigger] arm.fields[j]).slot as int] == second[arm.fields[j].slot as int] by {
                assert(arm.binds(arm.fields[j].slot as int));
            }
            lemma_all_equal_agrees(arm.fields, first, second, 0);
        }
    }
}

/// The ordering does not look at a field that takes no part: two lists of relations that
/// agree wherever a field takes part give the same answer.
pub proof fn law_ordering_ignores_skipped(
    body: PartialOrdBodyView,
    left: usize,
    right: usize,
    first: Seq<Relation>,
    second: Seq<Relation>,
)
    requires
        first.len() == second.len(),
        arm_for(body.plan, left) matches Some(arm) ==> forall|slot: int|
            0 <= slot < first.len() && arm.binds(slot) ==> first[slot] == second[slot],
    ensures
        compare(body, left, right, first) == compare(body, left, right, second),
{
    if arm_for(body.plan, left) is Some {
        let arm = arm_for(body.plan, left)->0;
        if arm.fits(first.len()) {
            assert forall|j: int| 0 <= j < arm.fields.len() implies first[(
            #[trigger] arm.fields[j]).slot as int] == second[arm.fields[j].slot as int] by {
                assert(arm.binds(arm.fields[j].slot as int));
            }
            lemma_lexicographic_agrees(arm.fields, first, second, 0);
        }
    }
}

/// Formatting does not write a field that takes no part: two values whose fields are
/// written alike wherever a field takes part are written alike.
pub proof fn law_formatting_ignores_skipped(
    body: DebugBodyView,
    ordinal: usize,
    first: Seq<Seq<char>>,
    second: Seq<Seq<char>>,
    pretty: bool,
)
    requires
        first.len() == second.len(),
        arm_for(body.plan, ordinal) matches Some(arm) ==> forall|slot: int|
            0 <= slot < first.len() && arm.binds(slot) ==> first[slot] == second[slot],
    ensures
        formatted(body, ordinal, first, pretty) == formatted(body, ordinal, second, pretty),
{
    if arm_for(body.plan, ordinal) is Some {
        let arm = arm_for(body.plan, ordinal)->0;
        if arm.fits(first.len()) {
            assert forall|j: int| 0 <= j < arm.fields.len() implies entry(
                arm.fields[j],
                arm.shape,
                first,
                pretty,
            ) == entry(arm.fields[j], arm.shape, second, pretty) by {
                assert(arm.binds(arm.fields[j].slot as int));
            }
            assert(entries(arm, first, pretty) =~= entries(arm, second, pretty));
        }
    }
}

/// Hashing does not feed a field that takes no part: two values of one variant whose
/// fields feed the same wherever a field takes part feed the hasher the same.
pub proof fn law_hashing_ignores_skipped<C>(
    body: HashBodyView,
    ordinal: usize,
    first: Seq<C>,
    second: Seq<C>,
)
    requires
        first.len() == second.len(),
        feed(body, ordinal, first.len()) is Some,
        forall|slot: int|
            0 <= slot < first.len() && arm_for(body.plan, ordinal)->0.binds(slot) ==> first[slot]
                == second[slot],
    ensures
        stream(feed(body, ordinal, first.len())->0, first) == stream(
            feed(body, ordinal, second.len())->0,
            second,
        ),
{
    let arm = arm_for(body.plan, ordinal)->0;
    assert forall|j: int| 0 <= j < arm.fields.len() implies first[(
    #[trigger] arm.fields[j]).slot as int] == second[arm.fields[j].slot as int] by {
        assert(arm.binds(arm.fields[j].slot as int));
    }
    lemma_stream_agrees(body, ordinal, first, second);
}

/// Where the fields from `from` on are all equal, each of them is.
pub proof fn lemma_all_equal_each(fields: Seq<FieldBindingView>, field_eq: Seq<bool>, from: int)
    requires
        0 <= from,
        all_equal(fields, field_eq, from),
    ensures
        forall|j: int| from <= j < fields.len() ==> field_eq[(#[trigger] fields[j]).slot as int],
    decreases fields.len() - from,
{
    if from < fields.len() {
        lemma_all_equal_each(fields, field_eq, from + 1);
    }
}

/// A value equals its clone. Stated of a value of the variant declared at `ordinal`:
/// where `clone` makes a value, the variant takes part in the comparison, every field
/// that is compared was cloned, and each cloned field equals the field it was cloned
/// from, `eq` answers that the clone and the value are equal.
pub proof fn law_clone_equals_its_source(
    input: TypeDefinitionView,
    ordinal: usize,
    field_eq: Seq<bool>,
)
    requires
        well_sized(input.data),
        derivation(CLONE_ATTR_NAME@, CLONE_TARGET@, input) is Ok,
        derivation(PARTIAL_EQ_ATTR_NAME@, PARTIAL_EQ_TARGET@, input) is Ok,
        copies(
            derivation(CLONE_ATTR_NAME@, CLONE_TARGET@, input)->Ok_0.1,
            ordinal,
            field_eq.len(),
        ) is Some,
        arm_for(
            derivation(PARTIAL_EQ_ATTR_NAME@, PARTIAL_EQ_TARGET@, input)->Ok_0.1,
            ordinal,
        ) is Some,
        forall|slot: int|
            0 <= slot < field_eq.len() && arm_for(
                derivation(PARTIAL_EQ_ATTR_NAME@, PARTIAL_EQ_TARGET@, input)->Ok_0.1,
                ordinal,
            )->0.binds(slot) ==> arm_for(
                derivation(CLONE_ATTR_NAME@, CLONE_TARGET@, input)->Ok_0.1,
                ordinal,
            )->0.binds(slot),
        forall|slot: int|
            0 <= slot < field_eq.len() && arm_for(
                derivation(CLONE_ATTR_NAME@, CLONE_TARGET@, input)->Ok_0.1,
                ordinal,
            )->0.binds(slot) ==> field_eq[slot],
    ensures
        equal(
            derivation(PARTIAL_EQ_ATTR_NAME@, PARTIAL_EQ_TARGET@, input)->Ok_0.1,
            ordinal,
            ordinal,
            field_eq,
        ) == Some(true),
{
    let clone_plan = derivation(CLONE_ATTR_NAME@, CLONE_TARGET@, input)->Ok_0.1;
    let eq_plan = derivation(PARTIAL_EQ_ATTR_NAME@, PARTIAL_EQ_TARGET@, input)->Ok_0.1;
    assert(clone_plan == plan_of(filtered(input.data, CLONE_ATTR_NAME@)->Ok_0));
    assert(eq_plan == plan_of(filtered(input.data, PARTIAL_EQ_ATTR_NAME@)->Ok_0));
    lemma_plan_arm(input.data, CLONE_ATTR_NAME@, ordinal);
    lemma_plan_arm(input.data, PARTIAL_EQ_ATTR_NAME@, ordinal);
    let arm = arm_for(eq_plan, ordinal)->0;
    assert(arm.fits(field_eq.len()));
    assert forall|j: int| 0 <= j < arm.fields.len() implies field_eq[(
    #[trigger] arm.fields[j]).slot as int] by {
        assert(arm.binds(arm.fields[j].slot as int));
    }
    lemma_all_equal_holds(arm.fields, field_eq, 0);
    if eq_plan is Enum {
        assert(eq_plan->Enum_0.len() != 0) by {
            crate::plan::lemma_arm_index(eq_plan->Enum_0, ordinal, 0);
        }
    }
}

/// Equal values hash alike. Stated of two values of the variants declared at `left` and
/// `right`: where `eq` answers that they are equal, every field that is hashed is also
/// compared, and two fields that are equal feed the hasher the same, the two values feed
/// the hasher the same.
pub proof fn law_equal_values_hash_alike<C>(
    input: TypeDefinitionView,
    left: usize,
    right: usize,
    field_eq: Seq<bool>,
    first: Seq<C>,
    second: Seq<C>,
)
    requires
        well_sized(input.data),
        hash_derivation(input) is Ok,
        derivation(PARTIAL_EQ_ATTR_NAME@, PARTIAL_EQ_TARGET@, input) is Ok,
        first.len() == field_eq.len(),
        feed(hash_derivation(input)->Ok_0.1, left, first.len()) is Some,
        feed(hash_derivation(input)->Ok_0.1, right, second.len()) is Some,
        equal(
            derivation(PARTIAL_EQ_ATTR_NAME@, PARTIAL_EQ_TARGET@, input)->Ok_0.1,
            left,
            right,
            field_eq,
        ) == Some(true),
        forall|slot: int|
            0 <= slot < field_eq.len() && arm_for(
                hash_derivation(input)->Ok_0.1.plan,
                left,
            )->0.binds(slot) ==> arm_for(
                derivation(PARTIAL_EQ_ATTR_NAME@, PARTIAL_EQ_TARGET@, input)->Ok_0.1,
                left,
            ) is Some && arm_for(
                derivation(PARTIAL_EQ_ATTR_NAME@, PARTIAL_EQ_TARGET@, input)->Ok_0.1,
                left,
            )->0.binds(slot),
        forall|slot: int|
            0 <= slot < field_eq.len() && slot < second.len() && field_eq[slot] ==> first[slot]
                == second[slot],
    ensures
        stream(feed(hash_derivation(input)->Ok_0.1, left, first.len())->0, first) == stream(
            feed(hash_derivation(input)->Ok_0.1, right, second.len())->0,
            second,
        ),
{
    let hashing = hash_derivation(input)->Ok_0.1;
    let eq_plan = derivation(PARTIAL_EQ_ATTR_NAME@, PARTIAL_EQ_TARGET@, input)->Ok_0.1;
    assert(hashing.plan == plan_of(filtered(input.data, HASH_ATTR_NAME@)->Ok_0));
    assert(eq_plan == plan_of(filtered(input.data, PARTIAL_EQ_ATTR_NAME@)->Ok_0));
    let arm = arm_for(hashing.plan, left)->0;
    // Equal values are of one variant, so one arm works on both.
    assert(arm_for(hashing.plan, right) == arm_for(hashing.plan, left)) by {
        if eq_plan is Enum {
            assert(left == right);
        } else {
            assert(input.data is Struct);
            assert(hashing.plan is Struct);
        }
    }
    assert(second.len() == first.len());
    assert forall|j: int| 0 <= j < arm.fields.len() implies first[(
    #[trigger] arm.fields[j]).slot as int] == second[arm.fields[j].slot as int] by {
        let slot = arm.fields[j].slot as int;
        assert(arm.binds(slot));
        let compared = arm_for(eq_plan, left)->0;
        assert(compared.binds(slot));
        let k = choose|k: int|
            0 <= k < compared.fields.len() && (#[trigger] compared.fields[k]).slot == slot;
        lemma_all_equal_each(compared.fields, field_eq, 0);
        assert(field_eq[compared.fields[k].slot as int]);
    }
    lemma_stream_agrees(hashing, left, first, second);
    assert(feed(hashing, right, second.len()) == feed(hashing, left, first.len()));
}

/// Two values of different variants that both take part in the ordering always have an
/// answer, and it is how their discriminants stand: every declared variant has its
/// discriminant.
pub proof fn law_variants_are_comparable(
    input: TypeDefinitionView,
    left: usize,
    right: usize,
    relations: Seq<Relation>,
)
    requires
        well_sized(input.data),
        input.data is Enum,
        partial_ord_derivation(input) is Ok,
        left != right,
        arm_for(partial_ord_derivation(input)->Ok_0.1.plan, left) is Some,
        arm_for(partial_ord_derivation(input)->Ok_0.1.plan, right) is Some,
    ensures
        compare(partial_ord_derivation(input)->Ok_0.1, left, right, relations) == Some(
            rank(
                partial_ord_derivation(input)->Ok_0.1.discriminants[left as int],
                partial_ord_derivation(input)->Ok_0.1.discriminants[right as int],
            ),
        ),
        discriminants_of(input.data->Enum_0) == Ok::<Seq<i64>, crate::error::DeriveError>(
            partial_ord_derivation(input)->Ok_0.1.discriminants,
        ),
        partial_ord_derivation(input)->Ok_0.1.discriminants.len() == input.data->Enum_0.len(),
{
    let variants = input.data->Enum_0;
    let body = partial_ord_derivation(input)->Ok_0.1;
    assert(body.plan == plan_of(filtered(input.data, PARTIAL_ORD_ATTR_NAME@)->Ok_0));
    lemma_plan_arm(input.data, PARTIAL_ORD_ATTR_NAME@, left);
    lemma_plan_arm(input.data, PARTIAL_ORD_ATTR_NAME@, right);
    lemma_written_len(variants, variants.len() as int);
    let explicit = written(variants, variants.len() as int)->Ok_0;
    lemma_assigned_len(explicit, explicit.len() as int);
}

/// A value whose variant takes part in hashing always has something fed: every declared
/// variant has its discriminant.
pub proof fn law_kept_variants_are_hashed(input: TypeDefinitionView, ordinal: usize)
    requires
        well_sized(input.data),
        hash_derivation(input) is Ok,
        arm_for(hash_derivation(input)->Ok_0.1.plan, ordinal) is Some,
    ensures
        feed(
            hash_derivation(input)->Ok_0.1,
            ordinal,
            declared_fields(input.data, ordinal).len(),
        ) is Some,
{
    let body = hash_derivation(input)->Ok_0.1;
    assert(body.plan == plan_of(filtered(input.data, HASH_ATTR_NAME@)->Ok_0));
    lemma_plan_arm(input.data, HASH_ATTR_NAME@, ordinal);
    if input.data is Enum {
        let variants = input.data->Enum_0;
        lemma_written_len(variants, variants.len() as int);
        let explicit = written(variants, variants.len() as int)->Ok_0;
        lemma_assigned_len(explicit, explicit.len() as int);
    }
}

} // verus!
