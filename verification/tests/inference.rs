use better_derive::attrs::AttributeConfig;
use better_derive::common::extract_generics;
use better_derive::common::filter_skipped_variants_and_fields;
use better_derive::emit::write_bound;
use better_derive::generics::gen_param_to_arg;
use better_derive::generics::resolve_bound;
use better_derive::generics::has_generics;
use better_derive::generics::infer_generics;
use better_derive::common::ImplGen;
use better_derive::common::TypeGen;
use better_derive::common::WhereClause;
use better_derive::emit::write_impl_gen;
use better_derive::emit::write_type_gen;
use better_derive::emit::write_where_clause;
use better_derive::error::ConfigError;
use better_derive::error::ConfigErrorKind;
use better_derive::error::DeriveError;
use better_derive::error::Site;
use better_derive::model::Attribute;
use better_derive::model::Bound;
use better_derive::model::Constraint;
use better_derive::model::Data;
use better_derive::model::Field;
use better_derive::model::FieldList;
use better_derive::model::GenericParameter;
use better_derive::model::ParamKind;
use better_derive::model::TypeDefinition;
use better_derive::model::TypeExpr;
use better_derive::model::Variant;
use better_derive::plan::build_plan;
use better_derive::plan::generate_field_idents;
use better_derive::plan::FieldBinding;
use better_derive::plan::Plan;
use better_derive::selection::FieldSelection;
use better_derive::selection::SelectedField;
use better_derive::selection::Selection;
use better_derive::selection::Shape;
use better_derive::token::tokenize;

fn ident(name: &str) -> TypeExpr {
    TypeExpr::Ident(name.to_string())
}

fn path(text: &str, args: Vec<TypeExpr>) -> TypeExpr {
    TypeExpr::Path { text: text.to_string(), args }
}

fn field(name: &str, ty: TypeExpr) -> Field {
    Field { name: name.to_string(), ty, attrs: vec![] }
}

fn list(name: &str, body: &str) -> Attribute {
    Attribute { name: name.to_string(), list: Some(tokenize(body).unwrap()) }
}

fn marked(name: &str, ty: TypeExpr, attrs: Vec<Attribute>) -> Field {
    Field { name: name.to_string(), ty, attrs }
}

fn trait_bound(path: &str) -> Bound {
    Bound::Trait {
        parenthesized: false,
        modifier: String::new(),
        binder: String::new(),
        path: path.to_string(),
    }
}

fn written(text: &str) -> Bound {
    Bound::Other(text.to_string())
}

fn param(kind: ParamKind, name: &str, bounds: &[&str]) -> GenericParameter {
    GenericParameter {
        kind,
        name: name.to_string(),
        bounds: bounds
            .iter()
            .map(|b| if kind == ParamKind::Type { trait_bound(b) } else { written(b) })
            .collect(),
    }
}

fn constraint(subject: &str, bounds: &[&str]) -> Constraint {
    Constraint {
        binder: String::new(),
        subject: subject.to_string(),
        bounds: bounds
            .iter()
            .map(|b| if b.starts_with('\'') { written(b) } else { trait_bound(b) })
            .collect(),
    }
}

fn variant(name: &str, fields: FieldList) -> Variant {
    Variant { name: name.to_string(), fields, discriminant: None, attrs: vec![] }
}

fn definition(name: &str, generics: Vec<GenericParameter>, data: Data) -> TypeDefinition {
    TypeDefinition { name: name.to_string(), generics, data, attrs: vec![] }
}

fn phantom_struct() -> TypeDefinition {
    definition(
        "PhantomStruct",
        vec![param(ParamKind::Type, "T", &[])],
        Data::Struct(FieldList::Named(vec![field(
            "_f",
            path("PhantomData < T >", vec![ident("T")]),
        )])),
    )
}

fn selected(slot: usize, name: &str, ty: &str) -> SelectedField {
    SelectedField { slot, name: name.to_string(), ty: ty.to_string() }
}

fn no_config() -> AttributeConfig {
    AttributeConfig::new()
}

#[test]
fn bare_parameter_is_mentioned() {
    let generics = vec![param(ParamKind::Type, "T", &[])];
    assert!(has_generics(&ident("T"), &generics));
    assert!(!has_generics(&ident("U"), &generics));
    assert!(!has_generics(&ident("u32"), &generics));
}

#[test]
fn parameter_is_found_at_any_depth() {
    let generics = vec![param(ParamKind::Type, "T", &[]), param(ParamKind::Type, "U", &[])];
    let nested = path(
        "Vec < Option < (u8 , U) > >",
        vec![path("Option < (u8 , U) >", vec![path("(u8 , U)", vec![ident("u8"), ident("U")])])],
    );
    assert!(has_generics(&nested, &generics));
    let plain = path("Vec < Option < u8 > >", vec![path("Option < u8 >", vec![ident("u8")])]);
    assert!(!has_generics(&plain, &generics));
    assert!(!has_generics(&path("()", vec![]), &generics));
}

#[test]
fn only_type_parameters_count() {
    let generics = vec![param(ParamKind::Const, "N", &["usize"]), param(ParamKind::Lifetime, "a", &[])];
    assert!(!has_generics(&ident("N"), &generics));
    assert!(!has_generics(&ident("a"), &generics));
    assert!(!has_generics(&ident("T"), &vec![]));
}

#[test]
fn text_of_a_path_is_not_searched() {
    let generics = vec![param(ParamKind::Type, "T", &[])];
    assert!(!has_generics(&path("T", vec![]), &generics));
}

#[test]
fn parameter_becomes_its_argument() {
    assert_eq!(gen_param_to_arg(&param(ParamKind::Type, "T", &["Clone"])), "T");
    assert_eq!(gen_param_to_arg(&param(ParamKind::Lifetime, "a", &[])), "'a");
    assert_eq!(gen_param_to_arg(&param(ParamKind::Const, "N", &["usize"])), "N");
}

#[test]
fn marker_field_is_constrained_as_a_whole() {
    let def = phantom_struct();
    let (impl_gen, ty_gen, where_clause) =
        infer_generics(&no_config(), &def, "::std::fmt::Debug").unwrap();
    assert_eq!(impl_gen, ImplGen(vec![param(ParamKind::Type, "T", &[])]));
    assert_eq!(ty_gen, TypeGen(vec!["T".to_string()]));
    assert_eq!(
        where_clause,
        WhereClause(vec![constraint("PhantomData < T >", &["::std::fmt::Debug"])])
    );
}

#[test]
fn parameter_inside_a_marker_gets_no_constraint_of_its_own() {
    let def = phantom_struct();
    for target in ["::std::clone::Clone", "::std::hash::Hash", "::serde::Serialize"] {
        let (_, _, where_clause) = infer_generics(&no_config(), &def, target).unwrap();
        assert!(where_clause.0.iter().all(|c| c.subject != "T"));
        assert_eq!(where_clause.0.len(), 1);
    }
}

#[test]
fn field_without_parameter_gets_no_constraint() {
    let def = definition(
        "Plain",
        vec![param(ParamKind::Type, "T", &[])],
        Data::Struct(FieldList::Unnamed(vec![
            field("", ident("u32")),
            field("", path("Vec < String >", vec![ident("String")])),
        ])),
    );
    let (impl_gen, ty_gen, where_clause) =
        infer_generics(&no_config(), &def, "::std::clone::Clone").unwrap();
    assert_eq!(impl_gen.0.len(), 1);
    assert_eq!(ty_gen.0, vec!["T".to_string()]);
    assert_eq!(where_clause, WhereClause(vec![]));
}

#[test]
fn each_field_with_a_parameter_gets_one_constraint_in_order() {
    let def = definition(
        "Many",
        vec![param(ParamKind::Type, "T", &[]), param(ParamKind::Type, "U", &["Copy"])],
        Data::Enum(vec![
            variant("A", FieldList::Unnamed(vec![field("", ident("T")), field("", ident("u8"))])),
            variant("B", FieldList::Unit),
            variant(
                "C",
                FieldList::Named(vec![
                    field("x", path("Vec < U >", vec![ident("U")])),
                    field("y", ident("T")),
                ]),
            ),
        ]),
    );
    let (impl_gen, ty_gen, where_clause) =
        infer_generics(&no_config(), &def, "::std::cmp::PartialEq").unwrap();
    assert_eq!(
        impl_gen.0,
        vec![param(ParamKind::Type, "T", &[]), param(ParamKind::Type, "U", &["Copy"])]
    );
    assert_eq!(ty_gen.0, vec!["T".to_string(), "U".to_string()]);
    assert_eq!(
        where_clause.0,
        vec![
            constraint("T", &["::std::cmp::PartialEq"]),
            constraint("Vec < U >", &["::std::cmp::PartialEq"]),
            constraint("T", &["::std::cmp::PartialEq"]),
        ]
    );
}

#[test]
fn skipped_field_is_still_constrained() {
    let def = definition(
        "Skipping",
        vec![param(ParamKind::Type, "T", &[])],
        Data::Struct(FieldList::Named(vec![marked(
            "hidden",
            ident("T"),
            vec![list("debug", "skip")],
        )])),
    );
    let (_, _, where_clause) =
        extract_generics("debug", &def.attrs, &def, "::std::fmt::Debug").unwrap();
    assert_eq!(where_clause.0, vec![constraint("T", &["::std::fmt::Debug"])]);
    let kept = filter_skipped_variants_and_fields("debug", &def.data).unwrap();
    assert_eq!(
        kept,
        Selection::Struct(FieldSelection {
            variant: "".to_string(),
            ordinal: 0,
            shape: Shape::Named,
            arity: 1,
            fields: vec![],
        })
    );
}

#[test]
fn given_constraints_replace_the_inferred_ones() {
    let mut def = definition(
        "Bar",
        vec![param(ParamKind::Type, "T", &[])],
        Data::Struct(FieldList::Named(vec![field(
            "foos",
            path("Vec < Foo < T > >", vec![path("Foo < T >", vec![ident("T")])]),
        )])),
    );
    def.attrs = vec![list(
        "better_derive",
        "impl_gen = <T>, type_gen = <T>, bound = (Wrapper<T>: r#trait)",
    )];
    for (keyword, target) in [("clone", "::std::clone::Clone"), ("hash", "::std::hash::Hash")] {
        let (impl_gen, ty_gen, where_clause) =
            extract_generics(keyword, &def.attrs, &def, target).unwrap();
        assert_eq!(impl_gen.0, vec![param(ParamKind::Type, "T", &[])]);
        assert_eq!(ty_gen.0, vec!["T".to_string()]);
        assert_eq!(where_clause.0, vec![constraint("Wrapper < T >", &[target])]);
    }
}

#[test]
fn placeholder_is_replaced_in_type_parameters_only() {
    let config = AttributeConfig {
        impl_generics: Some(vec![
            param(ParamKind::Type, "T", &["r#trait", "Send", "r#trait"]),
            param(ParamKind::Const, "N", &["r#trait"]),
            param(ParamKind::Lifetime, "a", &["'b"]),
        ]),
        type_generics: None,
        constraints: Some(vec![constraint("T", &["Send", "r#trait"]), constraint("U", &[])]),
    };
    let def = definition("Foo", vec![], Data::Struct(FieldList::Unit));
    let (impl_gen, ty_gen, where_clause) = infer_generics(&config, &def, "::std::cmp::Eq").unwrap();
    assert_eq!(
        impl_gen.0,
        vec![
            param(ParamKind::Type, "T", &["::std::cmp::Eq", "Send", "::std::cmp::Eq"]),
            param(ParamKind::Const, "N", &["r#trait"]),
            param(ParamKind::Lifetime, "a", &["'b"]),
        ]
    );
    assert_eq!(ty_gen.0, Vec::<String>::new());
    assert_eq!(
        where_clause.0,
        vec![constraint("T", &["Send", "::std::cmp::Eq"]), constraint("U", &[])]
    );
}

#[test]
fn only_declared_parameters_are_echoed_as_arguments() {
    let config = AttributeConfig {
        impl_generics: Some(vec![
            param(ParamKind::Lifetime, "a", &[]),
            param(ParamKind::Type, "Extra", &[]),
            param(ParamKind::Type, "T", &[]),
            param(ParamKind::Type, "U", &["Clone"]),
        ]),
        type_generics: None,
        constraints: None,
    };
    let def = definition(
        "Foo",
        vec![
            param(ParamKind::Type, "T", &[]),
            param(ParamKind::Type, "U", &[]),
            param(ParamKind::Lifetime, "a", &[]),
        ],
        Data::Struct(FieldList::Unnamed(vec![field("", ident("Extra")), field("", ident("U"))])),
    );
    let (_, ty_gen, where_clause) = infer_generics(&config, &def, "::std::clone::Clone").unwrap();
    assert_eq!(ty_gen.0, vec!["'a".to_string(), "T".to_string()]);
    assert_eq!(
        where_clause.0,
        vec![
            constraint("Extra", &["::std::clone::Clone"]),
            constraint("U", &["::std::clone::Clone"]),
        ]
    );
}

#[test]
fn untagged_union_has_no_signature() {
    let def = definition("Raw", vec![], Data::Union);
    assert_eq!(
        infer_generics(&no_config(), &def, "::std::clone::Clone"),
        Err(DeriveError::UnsupportedShape)
    );
    assert_eq!(
        extract_generics("clone", &def.attrs, &def, "::std::clone::Clone"),
        Err(DeriveError::UnsupportedShape)
    );
    assert_eq!(
        filter_skipped_variants_and_fields("clone", &def.data),
        Err(DeriveError::UnsupportedShape)
    );
}

#[test]
fn fault_in_the_attributes_comes_before_the_shape() {
    let mut def = definition("Raw", vec![], Data::Union);
    def.attrs = vec![list("clone", "nonsense")];
    assert_eq!(
        extract_generics("clone", &def.attrs, &def, "::std::clone::Clone"),
        Err(DeriveError::Config(
            Site::Type,
            ConfigError { kind: ConfigErrorKind::UnknownKey, attribute: 0, item: 0 }
        ))
    );
}

#[test]
fn filter_keeps_what_is_not_skipped_with_its_slot() {
    let data = Data::Struct(FieldList::Named(vec![
        field("bar", ident("String")),
        marked(
            "baz",
            ident("u32"),
            vec![list("debug", "skip"), list("hash", "skip"), list("partial_eq", "skip")],
        ),
        marked("quz", ident("u32"), vec![list("better_derive", "skip")]),
        field("end", path("Vec < u8 >", vec![ident("u8")])),
    ]));
    let seen = |fields: Vec<SelectedField>| {
        Selection::Struct(FieldSelection {
            variant: "".to_string(),
            ordinal: 0,
            shape: Shape::Named,
            arity: 4,
            fields,
        })
    };
    for keyword in ["debug", "hash", "partial_eq"] {
        assert_eq!(
            filter_skipped_variants_and_fields(keyword, &data),
            Ok(seen(vec![selected(0, "bar", "String"), selected(3, "end", "Vec < u8 >")]))
        );
    }
    for keyword in ["clone", "partial_ord", "serialize"] {
        assert_eq!(
            filter_skipped_variants_and_fields(keyword, &data),
            Ok(seen(vec![
                selected(0, "bar", "String"),
                selected(1, "baz", "u32"),
                selected(3, "end", "Vec < u8 >"),
            ]))
        );
    }
}

#[test]
fn filter_leaves_out_skipped_variants_and_keeps_positions() {
    let mut hidden = variant("Hidden", FieldList::Unnamed(vec![field("", ident("u8"))]));
    hidden.attrs = vec![list("partial_eq", "skip")];
    let data = Data::Enum(vec![
        variant("First", FieldList::Unit),
        hidden,
        variant(
            "Last",
            FieldList::Unnamed(vec![
                marked("", ident("u8"), vec![list("partial_eq", "skip")]),
                field("", ident("bool")),
            ]),
        ),
    ]);
    let first = FieldSelection {
        variant: "First".to_string(),
        ordinal: 0,
        shape: Shape::Unit,
        arity: 0,
        fields: vec![],
    };
    assert_eq!(
        filter_skipped_variants_and_fields("partial_eq", &data),
        Ok(Selection::Enum(vec![
            first.clone(),
            FieldSelection {
                variant: "Last".to_string(),
                ordinal: 2,
                shape: Shape::Unnamed,
                arity: 2,
                fields: vec![selected(1, "", "bool")],
            },
        ]))
    );
    assert_eq!(
        filter_skipped_variants_and_fields("debug", &data),
        Ok(Selection::Enum(vec![
            first,
            FieldSelection {
                variant: "Hidden".to_string(),
                ordinal: 1,
                shape: Shape::Unnamed,
                arity: 1,
                fields: vec![selected(0, "", "u8")],
            },
            FieldSelection {
                variant: "Last".to_string(),
                ordinal: 2,
                shape: Shape::Unnamed,
                arity: 2,
                fields: vec![selected(0, "", "u8"), selected(1, "", "bool")],
            },
        ]))
    );
}

#[test]
fn filter_reports_the_first_fault_with_its_site() {
    let mut broken = variant(
        "Broken",
        FieldList::Named(vec![
            field("fine", ident("u8")),
            marked("bad", ident("u8"), vec![list("doc", "x"), list("debug", "skip, nope")]),
        ]),
    );
    let data = Data::Enum(vec![variant("Fine", FieldList::Unit), broken]);
    assert_eq!(
        filter_skipped_variants_and_fields("debug", &data),
        Err(DeriveError::Config(
            Site::Field(1, 1),
            ConfigError { kind: ConfigErrorKind::UnknownKey, attribute: 1, item: 1 }
        ))
    );
    assert!(filter_skipped_variants_and_fields("hash", &data).is_ok());
    broken = variant("Broken", FieldList::Named(vec![marked("bad", ident("u8"), vec![list("debug", "7")])]));
    broken.attrs = vec![list("debug", "skipp")];
    let data = Data::Enum(vec![broken]);
    assert_eq!(
        filter_skipped_variants_and_fields("debug", &data),
        Err(DeriveError::Config(
            Site::Variant(0),
            ConfigError { kind: ConfigErrorKind::UnknownKey, attribute: 0, item: 0 }
        ))
    );
}

#[test]
fn fields_of_a_skipped_variant_are_still_read() {
    let mut hidden = variant(
        "Hidden",
        FieldList::Unnamed(vec![marked("", ident("u8"), vec![list("debug", "1")])]),
    );
    hidden.attrs = vec![list("debug", "skip")];
    assert_eq!(
        filter_skipped_variants_and_fields("debug", &Data::Enum(vec![hidden])),
        Err(DeriveError::Config(
            Site::Field(0, 0),
            ConfigError { kind: ConfigErrorKind::MalformedOption, attribute: 0, item: 0 }
        ))
    );
}

#[test]
fn named_fields_go_by_their_names() {
    let bindings = generate_field_idents(&vec![selected(0, "alpha", "A"), selected(2, "gamma", "C")], Shape::Named);
    assert_eq!(
        bindings,
        vec![
            FieldBinding {
                slot: 0,
                name: "alpha".to_string(),
                ty: "A".to_string(),
                member: "alpha".to_string(),
                local: "alpha".to_string(),
                left: "lalpha".to_string(),
                right: "ralpha".to_string(),
            },
            FieldBinding {
                slot: 2,
                name: "gamma".to_string(),
                ty: "C".to_string(),
                member: "gamma".to_string(),
                local: "gamma".to_string(),
                left: "lgamma".to_string(),
                right: "rgamma".to_string(),
            },
        ]
    );
}

#[test]
fn positional_fields_go_by_their_slots() {
    let bindings = generate_field_idents(&vec![selected(0, "", "A"), selected(12, "", "C")], Shape::Unnamed);
    assert_eq!(
        bindings[1],
        FieldBinding {
            slot: 12,
            name: "".to_string(),
            ty: "C".to_string(),
            member: "12".to_string(),
            local: "field12".to_string(),
            left: "lfield12".to_string(),
            right: "rfield12".to_string(),
        }
    );
    assert_eq!(bindings[0].member, "0");
    assert_eq!(bindings[0].local, "field0");
    assert_eq!(generate_field_idents(&vec![], Shape::Unit), vec![]);
}

#[test]
fn plan_has_an_arm_for_each_kept_variant() {
    let data = Data::Enum(vec![
        variant("A", FieldList::Unit),
        variant("B", FieldList::Unnamed(vec![field("", ident("u8"))])),
    ]);
    let plan = build_plan(&filter_skipped_variants_and_fields("clone", &data).unwrap());
    match &plan {
        Plan::Enum(arms) => {
            assert_eq!(arms.len(), 2);
            assert_eq!(arms[0].variant, "A");
            assert_eq!(arms[1].ordinal, 1);
            assert_eq!(arms[1].fields[0].local, "field0");
        }
        Plan::Struct(_) => panic!("an enum has arms"),
    }
    assert_eq!(plan.find_arm(1).map(|arm| arm.variant.clone()), Some("B".to_string()));
    assert!(plan.find_arm(2).is_none());
}

#[test]
fn head_of_an_implementation_is_written_only_where_it_holds_something() {
    assert_eq!(write_impl_gen(&vec![]), "");
    assert_eq!(write_type_gen(&vec![]), "");
    assert_eq!(write_where_clause(&vec![]), "");
    assert_eq!(
        write_impl_gen(&vec![
            param(ParamKind::Lifetime, "a", &["'b", "'c"]),
            param(ParamKind::Type, "T", &["Clone", "Send"]),
            param(ParamKind::Type, "U", &[]),
            param(ParamKind::Const, "N", &["usize"]),
        ]),
        "<'a: 'b + 'c, T: Clone + Send, U, const N: usize>"
    );
    assert_eq!(write_type_gen(&vec!["'a".to_string(), "T".to_string()]), "<'a, T>");
    assert_eq!(
        write_where_clause(&vec![constraint("Vec < T >", &["Clone", "Send"]), constraint("U", &["Copy"])]),
        "where Vec < T >: Clone + Send, U: Copy"
    );
}

#[test]
fn inference_alone_reads_no_attribute() {
    let mut def = phantom_struct();
    def.attrs = vec![list("debug", "bound = (T: Copy), nonsense")];
    assert_eq!(
        better_derive::extract::extract_generics(&def, "::std::fmt::Debug"),
        Ok((
            ImplGen(vec![param(ParamKind::Type, "T", &[])]),
            TypeGen(vec!["T".to_string()]),
            WhereClause(vec![constraint("PhantomData < T >", &["::std::fmt::Debug"])]),
        ))
    );
}

#[test]
fn debug_is_reached_from_the_root() {
    let def = phantom_struct();
    assert_eq!(better_derive::debug(&def), better_derive::debug::debug(&def));
}

fn trait_bound_with(parenthesized: bool, modifier: &str, binder: &str, path: &str) -> Bound {
    Bound::Trait {
        parenthesized,
        modifier: modifier.to_string(),
        binder: binder.to_string(),
        path: path.to_string(),
    }
}

fn overridden(keyword: &str, body: &str, target: &str) -> (ImplGen, TypeGen, WhereClause) {
    let mut def = definition("Foo", vec![param(ParamKind::Type, "T", &[])], Data::Struct(FieldList::Unit));
    def.attrs = vec![list(keyword, body)];
    extract_generics(keyword, &def.attrs, &def, target).unwrap()
}

#[test]
fn placeholder_behind_a_binder_is_replaced() {
    let (_, _, where_clause) = overridden("clone", "bound = (T: for<'a> r#trait)", "::std::clone::Clone");
    assert_eq!(
        where_clause.0,
        vec![Constraint {
            binder: "".to_string(),
            subject: "T".to_string(),
            bounds: vec![trait_bound_with(false, "", "for < 'a >", "::std::clone::Clone")],
        }]
    );
    assert_eq!(where_clause.render(), "where T: for < 'a > ::std::clone::Clone");
}

#[test]
fn placeholder_behind_a_modifier_is_replaced() {
    let (_, _, where_clause) = overridden("hash", "bound = (T: ?r#trait)", "::std::hash::Hash");
    assert_eq!(
        where_clause.0,
        vec![Constraint {
            binder: "".to_string(),
            subject: "T".to_string(),
            bounds: vec![trait_bound_with(false, "?", "", "::std::hash::Hash")],
        }]
    );
    assert_eq!(where_clause.render(), "where T: ? ::std::hash::Hash");
}

#[test]
fn placeholder_in_parentheses_is_replaced() {
    let (_, _, where_clause) = overridden("debug", "bound = (T: (r#trait))", "::std::fmt::Debug");
    assert_eq!(
        where_clause.0,
        vec![Constraint {
            binder: "".to_string(),
            subject: "T".to_string(),
            bounds: vec![trait_bound_with(true, "", "", "::std::fmt::Debug")],
        }]
    );
    assert_eq!(where_clause.render(), "where T: (::std::fmt::Debug)");
}

#[test]
fn every_placeholder_of_an_override_is_replaced_and_nothing_else() {
    let (impl_gen, _, where_clause) = overridden(
        "partial_eq",
        "impl_gen = <T: ?r#trait + (for<'a> r#trait) + r#trait, 'x: 'y, const N: usize>, \
         bound = (for<'b> &'b T: r#trait + for<'c> r#trait + Send, U: a::r#trait + r#trait<T> + 'static)",
        "::std::cmp::PartialEq",
    );
    assert_eq!(
        impl_gen.0,
        vec![
            GenericParameter {
                kind: ParamKind::Type,
                name: "T".to_string(),
                bounds: vec![
                    trait_bound_with(false, "?", "", "::std::cmp::PartialEq"),
                    trait_bound_with(true, "", "for < 'a >", "::std::cmp::PartialEq"),
                    trait_bound("::std::cmp::PartialEq"),
                ],
            },
            param(ParamKind::Lifetime, "x", &["'y"]),
            param(ParamKind::Const, "N", &["usize"]),
        ]
    );
    assert_eq!(
        where_clause.0,
        vec![
            Constraint {
                binder: "for < 'b >".to_string(),
                subject: "& 'b T".to_string(),
                bounds: vec![
                    trait_bound("::std::cmp::PartialEq"),
                    trait_bound_with(false, "", "for < 'c >", "::std::cmp::PartialEq"),
                    trait_bound("Send"),
                ],
            },
            Constraint {
                binder: "".to_string(),
                subject: "U".to_string(),
                bounds: vec![
                    trait_bound("a :: r#trait"),
                    trait_bound("r#trait < T >"),
                    written("'static"),
                ],
            },
        ]
    );
    assert_eq!(
        impl_gen.render(),
        "<T: ? ::std::cmp::PartialEq + (for < 'a > ::std::cmp::PartialEq) + ::std::cmp::PartialEq, 'x: 'y, const N: usize>"
    );
    assert_eq!(
        where_clause.render(),
        "where for < 'b > & 'b T: ::std::cmp::PartialEq + for < 'c > ::std::cmp::PartialEq + Send, U: a :: r#trait + r#trait < T > + 'static"
    );
    let written_out = format!("impl{} Marker for Foo {} {{}}", impl_gen.render(), where_clause.render());
    assert!(syn::parse_str::<syn::ItemImpl>(&written_out).is_ok());
    assert!(!written_out.replace("a :: r#trait", "").replace("r#trait < T >", "").contains("r#trait"));
}

#[test]
fn only_the_path_of_a_bound_is_replaced() {
    let target = "::std::clone::Clone";
    assert_eq!(
        resolve_bound(&trait_bound_with(true, "?", "", "r#trait"), target),
        trait_bound_with(true, "?", "", target)
    );
    assert_eq!(resolve_bound(&trait_bound("Clone"), target), trait_bound("Clone"));
    assert_eq!(resolve_bound(&written("r#trait"), target), written("r#trait"));
    assert_eq!(
        resolve_bound(&trait_bound_with(false, "r#trait", "r#trait", "Send"), target),
        trait_bound_with(false, "r#trait", "r#trait", "Send")
    );
}

#[test]
fn bound_is_written_with_what_stands_round_its_path() {
    assert_eq!(write_bound(&trait_bound("Clone")), "Clone");
    assert_eq!(write_bound(&trait_bound_with(false, "?", "", "Sized")), "? Sized");
    assert_eq!(write_bound(&trait_bound_with(false, "", "for < 'a >", "Tr < 'a >")), "for < 'a > Tr < 'a >");
    assert_eq!(write_bound(&trait_bound_with(true, "", "for < 'a >", "Tr")), "(for < 'a > Tr)");
    assert_eq!(write_bound(&written("'static")), "'static");
}
