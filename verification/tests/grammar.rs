use better_derive::discriminant::assign_discriminants;
use better_derive::discriminant::read_discriminants;
use better_derive::discriminant::resolve_discriminants;
use better_derive::error::ConfigError;
use better_derive::error::ConfigErrorKind;
use better_derive::error::DeriveError;
use better_derive::error::Site;
use better_derive::grammar::parse_bound;
use better_derive::grammar::parse_generic_arguments;
use better_derive::grammar::parse_generic_parameters;
use better_derive::grammar::parse_integer_literal;
use better_derive::grammar::parse_where_predicates;
use better_derive::model::Bound;
use better_derive::model::Constraint;
use better_derive::model::FieldList;
use better_derive::model::GenericParameter;
use better_derive::model::ParamKind;
use better_derive::model::Variant;

fn trait_bound(path: &str) -> Bound {
    Bound::Trait {
        parenthesized: false,
        modifier: String::new(),
        binder: String::new(),
        path: path.to_string(),
    }
}

fn written(text: &str) -> Bound {
    Bound::Other(text.to_string())
}

fn param(kind: ParamKind, name: &str, bounds: &[&str]) -> GenericParameter {
    GenericParameter {
        kind,
        name: name.to_string(),
        bounds: bounds
            .iter()
            .map(|b| if kind == ParamKind::Type { trait_bound(b) } else { written(b) })
            .collect(),
    }
}

fn constraint(subject: &str, bounds: &[&str]) -> Constraint {
    Constraint {
        binder: String::new(),
        subject: subject.to_string(),
        bounds: bounds
            .iter()
            .map(|b| if b.starts_with('\'') { written(b) } else { trait_bound(b) })
            .collect(),
    }
}

fn variant(name: &str, discriminant: Option<&str>) -> Variant {
    Variant {
        name: name.to_string(),
        fields: FieldList::Unit,
        discriminant: discriminant.map(|text| text.to_string()),
        attrs: vec![],
    }
}

fn discriminant_fault(kind: ConfigErrorKind, at: usize) -> DeriveError {
    DeriveError::Config(Site::Variant(at), ConfigError { kind, attribute: 0, item: 0 })
}

#[test]
fn generic_parameters_are_read_by_kind() {
    assert_eq!(
        parse_generic_parameters("<T: Clone + Send, 'a: 'b, const N: usize>"),
        Some(vec![
            param(ParamKind::Type, "T", &["Clone", "Send"]),
            param(ParamKind::Lifetime, "a", &["'b"]),
            param(ParamKind::Const, "N", &["usize"]),
        ])
    );
}

#[test]
fn generic_parameters_of_nothing_are_none() {
    assert_eq!(parse_generic_parameters(""), Some(vec![]));
    assert_eq!(parse_generic_parameters("<>"), Some(vec![]));
}

#[test]
fn generic_parameters_must_stand_in_angle_brackets() {
    assert_eq!(parse_generic_parameters("T"), None);
    assert_eq!(parse_generic_parameters("<T"), None);
    assert_eq!(parse_generic_parameters("<T> U"), None);
    assert_eq!(parse_generic_parameters("<1>"), None);
}

#[test]
fn generic_arguments_are_read_as_texts() {
    assert_eq!(
        parse_generic_arguments("<'a, T, Vec<U>, 3>"),
        Some(vec![
            "'a".to_string(),
            "T".to_string(),
            "Vec < U >".to_string(),
            "3".to_string()
        ])
    );
    assert_eq!(parse_generic_arguments("<>"), Some(vec![]));
}

#[test]
fn generic_arguments_need_their_brackets() {
    assert_eq!(parse_generic_arguments(""), None);
    assert_eq!(parse_generic_arguments("T"), None);
    assert_eq!(parse_generic_arguments("<T>>"), None);
}

#[test]
fn where_predicates_are_read_with_their_bounds() {
    assert_eq!(
        parse_where_predicates("Vec<T>: Clone + r#trait, 'a: 'b + 'c, U:"),
        Some(vec![
            constraint("Vec < T >", &["Clone", "r#trait"]),
            constraint("'a", &["'b", "'c"]),
            constraint("U", &[]),
        ])
    );
    assert_eq!(parse_where_predicates(""), Some(vec![]));
    assert_eq!(parse_where_predicates("T: Clone,"), Some(vec![constraint("T", &["Clone"])]));
}

#[test]
fn where_predicates_need_a_colon() {
    assert_eq!(parse_where_predicates("T Clone"), None);
    assert_eq!(parse_where_predicates("T: Clone U: Clone"), None);
}

#[test]
fn integer_literals_are_read_in_every_base() {
    assert_eq!(parse_integer_literal("42"), Some(42));
    assert_eq!(parse_integer_literal("0x10"), Some(16));
    assert_eq!(parse_integer_literal("0b101"), Some(5));
    assert_eq!(parse_integer_literal("1_000"), Some(1000));
    assert_eq!(parse_integer_literal("7isize"), Some(7));
    assert_eq!(parse_integer_literal("9223372036854775807"), Some(i64::MAX));
    assert_eq!(parse_integer_literal("9223372036854775808"), None);
    assert_eq!(parse_integer_literal("-3"), Some(-3));
}

#[test]
fn what_is_no_integer_literal_is_refused() {
    assert_eq!(parse_integer_literal("1 + 1"), None);
    assert_eq!(parse_integer_literal("one"), None);
    assert_eq!(parse_integer_literal("1.5"), None);
    assert_eq!(parse_integer_literal(""), None);
    assert_eq!(parse_integer_literal("99999999999999999999999999"), None);
}

#[test]
fn discriminants_start_at_zero_and_count_up() {
    assert_eq!(assign_discriminants(&vec![None, None, None]), Ok(vec![0, 1, 2]));
    assert_eq!(assign_discriminants(&vec![]), Ok(vec![]));
}

#[test]
fn written_discriminant_is_taken_and_counted_on_from() {
    assert_eq!(
        assign_discriminants(&vec![Some(5), None, Some(-2), None, None]),
        Ok(vec![5, 6, -2, -1, 0])
    );
    assert_eq!(assign_discriminants(&vec![None, Some(0), None]), Ok(vec![0, 0, 1]));
}

#[test]
fn discriminant_past_the_largest_integer_is_a_fault() {
    assert_eq!(assign_discriminants(&vec![None, Some(i64::MAX), None, Some(1)]), Err(2));
    assert_eq!(assign_discriminants(&vec![Some(i64::MAX)]), Ok(vec![i64::MAX]));
}

#[test]
fn discriminants_are_read_from_their_text() {
    let variants = vec![variant("A", None), variant("B", Some("0x10")), variant("C", None)];
    assert_eq!(read_discriminants(&variants), Ok(vec![None, Some(16), None]));
    assert_eq!(resolve_discriminants(&variants), Ok(vec![0, 16, 17]));
}

#[test]
fn discriminant_that_is_no_literal_is_a_fault() {
    let variants = vec![variant("A", Some("1")), variant("B", Some("A + 1")), variant("C", Some("x"))];
    assert_eq!(read_discriminants(&variants), Err(1));
    assert_eq!(
        resolve_discriminants(&variants),
        Err(discriminant_fault(ConfigErrorKind::MalformedDiscriminant, 1))
    );
}

#[test]
fn overflowing_discriminant_is_reported_on_its_variant() {
    let largest = i64::MAX.to_string();
    let variants = vec![variant("A", Some(&largest)), variant("B", None)];
    assert_eq!(
        resolve_discriminants(&variants),
        Err(discriminant_fault(ConfigErrorKind::DiscriminantOverflow, 1))
    );
}

fn trait_bound_with(parenthesized: bool, modifier: &str, binder: &str, path: &str) -> Bound {
    Bound::Trait {
        parenthesized,
        modifier: modifier.to_string(),
        binder: binder.to_string(),
        path: path.to_string(),
    }
}

#[test]
fn bare_trait_bound_is_its_path() {
    assert_eq!(parse_bound("r#trait"), Some(trait_bound("r#trait")));
    assert_eq!(parse_bound("Clone"), Some(trait_bound("Clone")));
    assert_eq!(parse_bound("::std::fmt::Debug"), Some(trait_bound(":: std :: fmt :: Debug")));
    assert_eq!(parse_bound("Iterator<Item = T>"), Some(trait_bound("Iterator < Item = T >")));
}

#[test]
fn binder_of_a_bound_is_set_apart_from_its_path() {
    assert_eq!(
        parse_bound("for<'a> r#trait"),
        Some(trait_bound_with(false, "", "for < 'a >", "r#trait"))
    );
    assert_eq!(
        parse_bound("for<'a, 'b> Fn(&'a u8) -> &'b u8"),
        Some(trait_bound_with(false, "", "for < 'a , 'b >", "Fn (& 'a u8) -> & 'b u8"))
    );
}

#[test]
fn modifier_of_a_bound_is_set_apart_from_its_path() {
    assert_eq!(parse_bound("?r#trait"), Some(trait_bound_with(false, "?", "", "r#trait")));
    assert_eq!(parse_bound("?Sized"), Some(trait_bound_with(false, "?", "", "Sized")));
}

#[test]
fn parentheses_of_a_bound_are_set_apart_from_its_path() {
    assert_eq!(parse_bound("(r#trait)"), Some(trait_bound_with(true, "", "", "r#trait")));
    assert_eq!(parse_bound("(?Sized)"), Some(trait_bound_with(true, "?", "", "Sized")));
    assert_eq!(
        parse_bound("(for<'a> r#trait)"),
        Some(trait_bound_with(true, "", "for < 'a >", "r#trait"))
    );
}

#[test]
fn lifetime_bound_is_kept_as_written() {
    assert_eq!(parse_bound("'a"), Some(written("'a")));
    assert_eq!(parse_bound("'static"), Some(written("'static")));
}

#[test]
fn what_is_no_bound_is_refused() {
    assert_eq!(parse_bound(""), None);
    assert_eq!(parse_bound("Clone +"), None);
    assert_eq!(parse_bound("Clone Send"), None);
    assert_eq!(parse_bound("1"), None);
}

#[test]
fn bounds_of_a_type_parameter_are_read_one_by_one() {
    assert_eq!(
        parse_generic_parameters("<T: for<'a> r#trait + ?Sized + (r#trait) + 'static>"),
        Some(vec![GenericParameter {
            kind: ParamKind::Type,
            name: "T".to_string(),
            bounds: vec![
                trait_bound_with(false, "", "for < 'a >", "r#trait"),
                trait_bound_with(false, "?", "", "Sized"),
                trait_bound_with(true, "", "", "r#trait"),
                written("'static"),
            ],
        }])
    );
}

#[test]
fn binder_of_a_predicate_is_kept() {
    assert_eq!(
        parse_where_predicates("for<'a> &'a T: r#trait + for<'b> Other<'b>, U: ?Sized"),
        Some(vec![
            Constraint {
                binder: "for < 'a >".to_string(),
                subject: "& 'a T".to_string(),
                bounds: vec![
                    trait_bound("r#trait"),
                    trait_bound_with(false, "", "for < 'b >", "Other < 'b >"),
                ],
            },
            Constraint {
                binder: "".to_string(),
                subject: "U".to_string(),
                bounds: vec![trait_bound_with(false, "?", "", "Sized")],
            },
        ])
    );
}
