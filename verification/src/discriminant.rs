//! The discriminants of an enum's variants: the integer that is written on a variant, or
//! one more than the variant before has; the first variant has 0.

use vstd::prelude::*;
use vstd::string::*;
use crate::error::ConfigError;
use crate::error::ConfigErrorKind;
use crate::error::DeriveError;
use crate::error::Site;
use crate::grammar::integer_literal;
use crate::grammar::parse_integer_literal;
use crate::model::Variant;
use crate::model::VariantView;

verus! {

/// The discriminants of the first `upto` variants, given what is written on each; or
/// the position of the first variant whose discriminant cannot be represented.
pub open spec fn assigned(explicit: Seq<Option<i64>>, upto: int) -> Result<Seq<i64>, usize>
    decreases upto,
{
    if upto <= 0 || upto > explicit.len() {
        Ok(Seq::empty())
    } else {
        match assigned(explicit, upto - 1) {
            Err(at) => Err(at),
            Ok(front) => match explicit[upto - 1] {
                Some(written) => Ok(front.push(written)),
                None => if front.len() == 0 {
                    Ok(front.push(0))
                } else if front.last() < i64::MAX {
                    Ok(front.push((front.last() + 1) as i64))
                } else {
                    Err((upto - 1) as usize)
                },
            },
        }
    }
}

/// A variant that cannot be given a discriminant stays so when more variants follow.
pub proof fn lemma_assigned_fault(explicit: Seq<Option<i64>>, upto: int, whole: int)
    requires
        0 <= upto <= whole <= explicit.len(),
        assigned(explicit, upto) is Err,
    ensures
        assigned(explicit, whole) == assigned(explicit, upto),
    decreases whole - upto,
{
    if upto < whole {
        lemma_assigned_fault(explicit, upto, whole - 1);
    }
}

/// As many discriminants are assigned as there are variants.
pub proof fn lemma_assigned_len(explicit: Seq<Option<i64>>, upto: int)
    requires
        0 <= upto <= explicit.len(),
    ensures
        assigned(explicit, upto) matches Ok(values) ==> values.len() == upto,
    decreases upto,
{
    if upto > 0 {
        lemma_assigned_len(explicit, upto - 1);
    }
}

/// Where no discriminant is written, each variant has its position as its discriminant.
pub proof fn law_declaration_order(explicit: Seq<Option<i64>>, upto: int)
    requires
        0 <= upto <= explicit.len(),
        upto <= i64::MAX,
        forall|i: int| 0 <= i < upto ==> explicit[i] is None,
    ensures
        assigned(explicit, upto) matches Ok(values) && values.len() == upto && forall|i: int|
            0 <= i < upto ==> values[i] == i,
    decreases upto,
{
    if upto > 0 {
        law_declaration_order(explicit, upto - 1);
    }
}

/// Assigns each variant its discriminant, given what is written on each: the integer
/// written, or one more than the variant before has, or 0 for the first. Fails with the
/// position of the first variant that would need more than the largest integer.
pub fn assign_discriminants(explicit: &Vec<Option<i64>>) -> (r: Result<Vec<i64>, usize>)
    ensures
        match r {
            Ok(values) => assigned(explicit@, explicit.len() as int) == Ok::<Seq<i64>, usize>(
                values@,
            ),
            Err(at) => assigned(explicit@, explicit.len() as int) == Err::<Seq<i64>, usize>(at),
        },
{
    let mut values: Vec<i64> = Vec::new();
    let mut i: usize = 0;
    while i < explicit.len()
        invariant
            i <= explicit.len(),
            values.len() == i,
            assigned(explicit@, i as int) == Ok::<Seq<i64>, usize>(values@),
        decreases explicit.len() - i,
    {
        let ghost before = values@;
        let next = match explicit[i] {
            Some(written) => written,
            None => {
                if i == 0 {
                    0
                } else {
                    match values[i - 1].checked_add(1) {
                        Some(next) => next,
                        None => {
                            proof {
                                assert(before.last() == values[i - 1]);
                                lemma_assigned_fault(explicit@, i + 1, explicit.len() as int);
                            }
                            return Err(i);
                        },
                    }
                }
            },
        };
        values.push(next);
        proof {
            if i > 0 {
                assert(before.last() == before[i - 1]);
            }
            assert(values@ == before.push(next));
        }
        i = i + 1;
    }
    Ok(values)
}

/// What is written on each of the first `upto` variants, as an integer; or the position
/// of the first variant whose discriminant is not an integer literal.
pub open spec fn written(variants: Seq<VariantView>, upto: int) -> Result<
    Seq<Option<i64>>,
    usize,
>
    decreases upto,
{
    if upto <= 0 || upto > variants.len() {
        Ok(Seq::empty())
    } else {
        match written(variants, upto - 1) {
            Err(at) => Err(at),
            Ok(front) => match variants[upto - 1].discriminant {
                None => Ok(front.push(None)),
                Some(text) => match integer_literal(text) {
                    Some(value) => Ok(front.push(Some(value as i64))),
                    None => Err((upto - 1) as usize),
                },
            },
        }
    }
}

/// A discriminant that is no integer literal stays so when more variants follow.
pub proof fn lemma_written_fault(variants: Seq<VariantView>, upto: int, whole: int)
    requires
        0 <= upto <= whole <= variants.len(),
        written(variants, upto) is Err,
    ensures
        written(variants, whole) == written(variants, upto),
    decreases whole - upto,
{
    if upto < whole {
        lemma_written_fault(variants, upto, whole - 1);
    }
}

/// Each variant has its entry among what is written.
pub proof fn lemma_written_len(variants: Seq<VariantView>, upto: int)
    requires
        0 <= upto <= variants.len(),
    ensures
        written(variants, upto) matches Ok(explicit) ==> explicit.len() == upto,
    decreases upto,
{
    if upto > 0 {
        lemma_written_len(variants, upto - 1);
    }
}

/// The fault of a discriminant at the variant in position `at`.
pub open spec fn discriminant_fault(kind: ConfigErrorKind, at: usize) -> DeriveError {
    DeriveError::Config(Site::Variant(at), ConfigError { kind, attribute: 0, item: 0 })
}

/// The discriminants of an enum's variants; or the first discriminant that is no
/// integer literal; or else the first that cannot be represented.
pub open spec fn discriminants_of(variants: Seq<VariantView>) -> Result<Seq<i64>, DeriveError> {
    match written(variants, variants.len() as int) {
        Err(at) => Err(discriminant_fault(ConfigErrorKind::MalformedDiscriminant, at)),
        Ok(explicit) => match assigned(explicit, explicit.len() as int) {
            Err(at) => Err(discriminant_fault(ConfigErrorKind::DiscriminantOverflow, at)),
            Ok(values) => Ok(values),
        },
    }
}

/// Reads what is written on each variant as an integer literal.
pub fn read_discriminants(variants: &Vec<Variant>) -> (r: Result<Vec<Option<i64>>, usize>)
    ensures
        match r {
            Ok(explicit) => written(variants.deep_view(), variants.len() as int) == Ok::<
                Seq<Option<i64>>,
                usize,
            >(explicit@),
            Err(at) => written(variants.deep_view(), variants.len() as int) == Err::<
                Seq<Option<i64>>,
                usize,
            >(at),
        },
{
    let ghost all = variants.deep_view();
    let mut explicit: Vec<Option<i64>> = Vec::new();
    let mut i: usize = 0;
    while i < variants.len()
        invariant
            i <= variants.len(),
            all == variants.deep_view(),
            all.len() == variants.len(),
            written(all, i as int) == Ok::<Seq<Option<i64>>, usize>(explicit@),
        decreases variants.len() - i,
    {
        let ghost before = explicit@;
        assert(all[i as int] == variants[i as int].deep_view());
        let next = match &variants[i].discriminant {
            None => None,
            Some(text) => match parse_integer_literal(text.as_str()) {
                Some(value) => Some(value),
                None => {
                    proof {
                        lemma_written_fault(all, i + 1, variants.len() as int);
                    }
                    return Err(i);
                },
            },
        };
        explicit.push(next);
        assert(explicit@ == before.push(next));
        i = i + 1;
    }
    Ok(explicit)
}

/// Works out the discriminant of each variant of an enum.
pub fn resolve_discriminants(variants: &Vec<Variant>) -> (r: Result<Vec<i64>, DeriveError>)
    ensures
        match r {
            Ok(values) => discriminants_of(variants.deep_view()) == Ok::<Seq<i64>, DeriveError>(
                values@,
            ),
            Err(fault) => discriminants_of(variants.deep_view()) == Err::<
                Seq<i64>,
                DeriveError,
            >(fault),
        },
{
    assert(variants.deep_view().len() == variants.len());
    let explicit = match read_discriminants(variants) {
        Ok(explicit) => explicit,
        Err(at) => {
            return Err(
                DeriveError::Config(
                    Site::Variant(at),
                    ConfigError {
                        kind: ConfigErrorKind::MalformedDiscriminant,
                        attribute: 0,
                        item: 0,
                    },
                ),
            );
        },
    };
    match assign_discriminants(&explicit) {
        Ok(values) => Ok(values),
        Err(at) => Err(
            DeriveError::Config(
                Site::Variant(at),
                ConfigError { kind: ConfigErrorKind::DiscriminantOverflow, attribute: 0, item: 0 },
            ),
        ),
    }
}

/// The discriminant of the variant declared at `ordinal`; 0 where none is given for it.
pub open spec fn discriminant_for(discriminants: Seq<i64>, ordinal: usize) -> i64 {
    if ordinal < discriminants.len() {
        discriminants[ordinal as int]
    } else {
        0
    }
}

/// Looks up the discriminant of the variant declared at `ordinal`.
pub fn discriminant_of(discriminants: &Vec<i64>, ordinal: usize) -> (r: i64)
    ensures
        r == discriminant_for(discriminants@, ordinal),
{
    if ordinal < discriminants.len() {
        discriminants[ordinal]
    } else {
        0
    }
}

} // verus!
