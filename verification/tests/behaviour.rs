use std::hash::DefaultHasher;
use std::hash::Hash;
use std::hash::Hasher;
use std::marker::PhantomData;

use better_derive::clone::clone;
use better_derive::copy::copy;
use better_derive::debug::debug;
use better_derive::eq::eq;
use better_derive::error::DeriveError;
use better_derive::hash::hash;
use better_derive::hash::HashWrite;
use better_derive::model::Attribute;
use better_derive::model::Bound;
use better_derive::model::Data;
use better_derive::model::Field;
use better_derive::model::FieldList;
use better_derive::model::GenericParameter;
use better_derive::model::ParamKind;
use better_derive::model::TypeDefinition;
use better_derive::model::TypeExpr;
use better_derive::model::Variant;
use better_derive::ord::build_ord_impl;
use better_derive::ord::ord;
use better_derive::partial_eq::partial_eq;
use better_derive::partial_ord::partial_ord;
use better_derive::partial_ord::Relation;
use better_derive::serialize::serialize;
use better_derive::serialize::Encoding;
use better_derive::serialize::Form;
use better_derive::token::tokenize;

fn trait_bound(path: &str) -> Bound {
    Bound::Trait {
        parenthesized: false,
        modifier: String::new(),
        binder: String::new(),
        path: path.to_string(),
    }
}

fn ident(name: &str) -> TypeExpr {
    TypeExpr::Ident(name.to_string())
}

fn path(text: &str, args: Vec<TypeExpr>) -> TypeExpr {
    TypeExpr::Path { text: text.to_string(), args }
}

fn field(name: &str, ty: TypeExpr) -> Field {
    Field { name: name.to_string(), ty, attrs: vec![] }
}

fn skipping(name: &str, ty: TypeExpr, keywords: &[&str]) -> Field {
    Field {
        name: name.to_string(),
        ty,
        attrs: keywords
            .iter()
            .map(|keyword| Attribute { name: keyword.to_string(), list: tokenize("skip") })
            .collect(),
    }
}

fn variant(name: &str, fields: FieldList) -> Variant {
    Variant { name: name.to_string(), fields, discriminant: None, attrs: vec![] }
}

fn numbered(name: &str, discriminant: &str) -> Variant {
    Variant {
        name: name.to_string(),
        fields: FieldList::Unit,
        discriminant: Some(discriminant.to_string()),
        attrs: vec![],
    }
}

fn definition(name: &str, data: Data) -> TypeDefinition {
    TypeDefinition { name: name.to_string(), generics: vec![], data, attrs: vec![] }
}

fn unit_list() -> Vec<Field> {
    vec![field("", path("()", vec![])), field("", ident("bool")), field("", ident("String"))]
}

fn named_list() -> Vec<Field> {
    vec![field("a", path("()", vec![])), field("b", ident("bool")), field("c", ident("String"))]
}

fn foo() -> TypeDefinition {
    definition("Foo", Data::Struct(FieldList::Unit))
}

fn bar() -> TypeDefinition {
    definition("Bar", Data::Struct(FieldList::Unnamed(unit_list())))
}

fn baz() -> TypeDefinition {
    definition("Baz", Data::Struct(FieldList::Named(named_list())))
}

fn bar_enum() -> TypeDefinition {
    definition(
        "Bar",
        Data::Enum(vec![
            variant("Variant1", FieldList::Unnamed(unit_list())),
            variant("Variant2", FieldList::Unnamed(vec![field("", ident("bool"))])),
        ]),
    )
}

fn baz_enum() -> TypeDefinition {
    definition("Baz", Data::Enum(vec![variant("Variant1", FieldList::Named(named_list()))]))
}

fn phantom_enum() -> TypeDefinition {
    TypeDefinition {
        name: "PhantomEnum".to_string(),
        generics: vec![GenericParameter {
            kind: ParamKind::Type,
            name: "T".to_string(),
            bounds: vec![],
        }],
        data: Data::Enum(vec![variant(
            "Variant1",
            FieldList::Named(vec![field("_f", path("PhantomData < T >", vec![ident("T")]))]),
        )]),
        attrs: vec![],
    }
}

fn skip_example() -> TypeDefinition {
    definition(
        "Foo",
        Data::Struct(FieldList::Named(vec![
            field("bar", ident("String")),
            skipping("baz", ident("u32"), &["debug", "hash", "partial_eq", "partial_ord"]),
            skipping("quz", ident("u32"), &["better_derive"]),
        ])),
    )
}

fn never() -> TypeDefinition {
    definition("Never", Data::Enum(vec![]))
}

fn texts(values: &[&str]) -> Vec<String> {
    values.iter().map(|value| value.to_string()).collect()
}

struct DontImplementAnything;

fn hello_texts(pretty: bool) -> Vec<String> {
    if pretty {
        vec![format!("{:#?}", ()), format!("{:#?}", true), format!("{:#?}", "Hello, world!")]
    } else {
        vec![format!("{:?}", ()), format!("{:?}", true), format!("{:?}", "Hello, world!")]
    }
}

#[test]
fn unit_struct_is_written_as_its_name() {
    let (_, body) = debug(&foo()).unwrap();
    assert_eq!(body.evaluate(0, &vec![], false), Some("Foo".to_string()));
    assert_eq!(body.evaluate(0, &vec![], true), Some("Foo".to_string()));
}

#[test]
fn tuple_struct_is_written_on_one_line() {
    let (_, body) = debug(&bar()).unwrap();
    assert_eq!(
        body.evaluate(0, &hello_texts(false), false),
        Some("Bar((), true, \"Hello, world!\")".to_string())
    );
}

#[test]
fn tuple_struct_is_written_over_lines() {
    let (_, body) = debug(&bar()).unwrap();
    assert_eq!(
        body.evaluate(0, &hello_texts(true), true),
        Some("Bar(\n    (),\n    true,\n    \"Hello, world!\",\n)".to_string())
    );
}

#[test]
fn named_struct_is_written_with_its_field_names() {
    let (_, body) = debug(&baz()).unwrap();
    assert_eq!(
        body.evaluate(0, &hello_texts(false), false),
        Some("Baz { a: (), b: true, c: \"Hello, world!\" }".to_string())
    );
    assert_eq!(
        body.evaluate(0, &hello_texts(true), true),
        Some("Baz {\n    a: (),\n    b: true,\n    c: \"Hello, world!\",\n}".to_string())
    );
}

#[test]
fn variant_is_written_behind_the_name_of_its_type() {
    let (_, body) = debug(&bar_enum()).unwrap();
    assert_eq!(
        body.evaluate(0, &hello_texts(false), false),
        Some("Bar::Variant1((), true, \"Hello, world!\")".to_string())
    );
    assert_eq!(
        body.evaluate(0, &hello_texts(true), true),
        Some("Bar::Variant1(\n    (),\n    true,\n    \"Hello, world!\",\n)".to_string())
    );
    assert_eq!(body.evaluate(1, &texts(&["false"]), false), Some("Bar::Variant2(false)".to_string()));
    let (_, body) = debug(&baz_enum()).unwrap();
    assert_eq!(
        body.evaluate(0, &hello_texts(false), false),
        Some("Baz::Variant1 { a: (), b: true, c: \"Hello, world!\" }".to_string())
    );
    assert_eq!(
        body.evaluate(0, &hello_texts(true), true),
        Some("Baz::Variant1 {\n    a: (),\n    b: true,\n    c: \"Hello, world!\",\n}".to_string())
    );
}

#[test]
fn marker_field_is_written_with_the_type_it_marks() {
    let marker = PhantomData::<DontImplementAnything>;
    let marked = format!("{:?}", marker);
    assert!(marked.starts_with("PhantomData<"));
    assert!(marked.ends_with("DontImplementAnything>"));
    let (header, body) = debug(&phantom_enum()).unwrap();
    assert_eq!(
        body.evaluate(0, &vec![format!("{:?}", marker)], false),
        Some(format!("PhantomEnum::Variant1 {{ _f: {} }}", marked))
    );
    assert_eq!(
        body.evaluate(0, &vec![format!("{:#?}", marker)], true),
        Some(format!("PhantomEnum::Variant1 {{\n    _f: {},\n}}", marked))
    );
    assert!(header.where_clause.0.iter().all(|constraint| constraint.subject != "T"));
}

#[test]
fn marker_field_needs_nothing_of_its_parameter_to_compare_and_hash() {
    let def = phantom_enum();
    let (header, body) = partial_eq(&def).unwrap();
    assert!(header.where_clause.0.iter().all(|constraint| constraint.subject != "T"));
    assert!(header.impl_gen.0.iter().all(|param| param.bounds.is_empty()));
    assert_eq!(body.evaluate(0, 0, &vec![true]), Some(true));
    let (header, body) = hash(&def).unwrap();
    assert!(header.where_clause.0.iter().all(|constraint| constraint.subject != "T"));
    assert_eq!(
        body.evaluate(0, 1),
        Some(vec![HashWrite::Discriminant(0), HashWrite::Field(0)])
    );
}

#[test]
fn nested_value_is_written_one_level_deeper() {
    let def = definition(
        "Outer",
        Data::Struct(FieldList::Named(vec![field("inner", ident("Inner")), field("n", ident("u8"))])),
    );
    let (_, body) = debug(&def).unwrap();
    #[derive(Debug)]
    #[allow(dead_code)]
    struct Inner {
        x: u8,
        y: Vec<u8>,
    }
    #[derive(Debug)]
    #[allow(dead_code)]
    struct Outer {
        inner: Inner,
        n: u8,
    }
    let inner = Inner { x: 1, y: vec![2, 3] };
    let written = body.evaluate(0, &vec![format!("{:#?}", inner), format!("{:#?}", 7u8)], true);
    assert_eq!(written, Some(format!("{:#?}", Outer { inner: Inner { x: 1, y: vec![2, 3] }, n: 7 })));
    let written = body.evaluate(0, &vec![format!("{:?}", inner), format!("{:?}", 7u8)], false);
    assert_eq!(written, Some(format!("{:?}", Outer { inner, n: 7 })));
}

#[test]
fn skipped_fields_are_not_written() {
    let (_, body) = debug(&skip_example()).unwrap();
    assert_eq!(
        body.evaluate(0, &texts(&["\"Hello, world!\"", "42", "420"]), false),
        Some("Foo { bar: \"Hello, world!\" }".to_string())
    );
    assert_eq!(
        body.evaluate(0, &texts(&["\"Hello, world!\"", "43", "421"]), false),
        Some("Foo { bar: \"Hello, world!\" }".to_string())
    );
}

#[test]
fn struct_with_all_fields_skipped_is_written_as_its_name() {
    let def = definition(
        "Quiet",
        Data::Struct(FieldList::Named(vec![skipping("x", ident("u8"), &["debug"])])),
    );
    let (_, body) = debug(&def).unwrap();
    assert_eq!(body.evaluate(0, &texts(&["1"]), false), Some("Quiet".to_string()));
    assert_eq!(body.evaluate(0, &texts(&["1"]), true), Some("Quiet".to_string()));
}

#[test]
fn bodies_do_not_run_on_values_that_do_not_fit() {
    let (_, body) = debug(&bar()).unwrap();
    assert_eq!(body.evaluate(0, &texts(&["()", "true"]), false), None);
    let (_, body) = debug(&bar_enum()).unwrap();
    assert_eq!(body.evaluate(2, &vec![], false), None);
    assert_eq!(body.evaluate(1, &hello_texts(false), false), None);
    let (_, body) = debug(&never()).unwrap();
    assert_eq!(body.evaluate(0, &vec![], false), None);
    let (_, body) = partial_eq(&never()).unwrap();
    assert_eq!(body.evaluate(0, 0, &vec![]), None);
    let (_, body) = partial_eq(&bar()).unwrap();
    assert_eq!(body.evaluate(0, 0, &vec![true]), None);
    let (_, body) = clone(&bar_enum()).unwrap();
    assert_eq!(body.evaluate(5, 0), None);
    let (_, body) = hash(&never()).unwrap();
    assert_eq!(body.evaluate(0, 0), None);
    let (_, body) = serialize(&bar()).unwrap();
    assert_eq!(body.evaluate(0, 2), None);
    let (_, body) = partial_ord(&bar_enum()).unwrap();
    assert_eq!(body.evaluate(0, 2, &vec![]), None);
    assert_eq!(body.evaluate(1, 1, &vec![]), None);
}

#[test]
fn structurally_identical_values_are_equal() {
    let (_, body) = partial_eq(&bar()).unwrap();
    let same = vec![() == (), true == true, "Hello, world!" == "Hello, world!"];
    assert_eq!(body.evaluate(0, 0, &same), Some(true));
    let (_, body) = partial_eq(&foo()).unwrap();
    assert_eq!(body.evaluate(0, 0, &vec![]), Some(true));
    let (_, body) = partial_eq(&bar_enum()).unwrap();
    assert_eq!(body.evaluate(0, 0, &same), Some(true));
}

#[test]
fn one_unequal_field_makes_values_unequal() {
    let (_, body) = partial_eq(&baz()).unwrap();
    assert_eq!(body.evaluate(0, 0, &vec![true, true, false]), Some(false));
    assert_eq!(body.evaluate(0, 0, &vec![false, true, true]), Some(false));
}

#[test]
fn values_of_different_variants_are_unequal() {
    let (_, body) = partial_eq(&bar_enum()).unwrap();
    assert_eq!(body.evaluate(0, 1, &vec![true, true, true]), Some(false));
    assert_eq!(body.evaluate(1, 0, &vec![true]), Some(false));
}

#[test]
fn skipped_fields_are_not_compared() {
    let (_, body) = partial_eq(&skip_example()).unwrap();
    let comparisons = vec!["Hello, world!" == "Hello, world!", 42 == 43, 420 == 421];
    assert_eq!(body.evaluate(0, 0, &comparisons), Some(true));
    assert_eq!(body.evaluate(0, 0, &vec![false, true, true]), Some(false));
    let (_, body) = partial_eq(&definition(
        "Foo",
        Data::Struct(FieldList::Named(vec![
            field("bar", ident("String")),
            skipping("baz", ident("u32"), &["debug"]),
        ])),
    ))
    .unwrap();
    assert_eq!(body.evaluate(0, 0, &vec![true, false]), Some(false));
}

#[test]
fn value_of_a_skipped_variant_equals_nothing() {
    let mut hidden = variant("Hidden", FieldList::Unit);
    hidden.attrs = vec![Attribute { name: "partial_eq".to_string(), list: tokenize("skip") }];
    let def = definition("Some", Data::Enum(vec![variant("Shown", FieldList::Unit), hidden]));
    let (_, body) = partial_eq(&def).unwrap();
    assert_eq!(body.evaluate(0, 0, &vec![]), Some(true));
    assert_eq!(body.evaluate(1, 1, &vec![]), Some(false));
}

#[test]
fn clone_copies_every_field_of_the_same_variant() {
    let (_, body) = clone(&bar()).unwrap();
    assert_eq!(body.evaluate(0, 3), Some(vec![0, 1, 2]));
    let (_, body) = clone(&foo()).unwrap();
    assert_eq!(body.evaluate(0, 0), Some(vec![]));
    let (_, body) = clone(&bar_enum()).unwrap();
    assert_eq!(body.evaluate(0, 3), Some(vec![0, 1, 2]));
    assert_eq!(body.evaluate(1, 1), Some(vec![0]));
}

#[test]
fn clone_equals_its_source() {
    for def in [bar(), baz(), foo(), bar_enum(), baz_enum(), phantom_enum()] {
        let (_, cloning) = clone(&def).unwrap();
        let (_, comparing) = partial_eq(&def).unwrap();
        let count = match &def.data {
            Data::Struct(FieldList::Unit) => 0,
            Data::Enum(variants) => match &variants[0].fields {
                FieldList::Named(fields) | FieldList::Unnamed(fields) => fields.len(),
                FieldList::Unit => 0,
            },
            _ => 3,
        };
        let copied = cloning.evaluate(0, count).unwrap();
        let mut field_eq = vec![false; count];
        for slot in copied {
            field_eq[slot] = true;
        }
        assert_eq!(comparing.evaluate(0, 0, &field_eq), Some(true));
    }
}

#[test]
fn fields_are_ordered_from_left_to_right() {
    let (_, body) = partial_ord(&bar()).unwrap();
    let by_text = |other: &str| match "Hello, world!".partial_cmp(other) {
        Some(std::cmp::Ordering::Less) => Relation::Less,
        Some(std::cmp::Ordering::Equal) => Relation::Equal,
        Some(std::cmp::Ordering::Greater) => Relation::Greater,
        None => Relation::Unordered,
    };
    assert_eq!(
        body.evaluate(0, 0, &vec![Relation::Equal, Relation::Equal, by_text("Goodbye, world!")]),
        Some(Relation::Greater)
    );
    assert_eq!(
        body.evaluate(0, 0, &vec![Relation::Equal, Relation::Equal, by_text("Howdy, world!")]),
        Some(Relation::Less)
    );
    assert_eq!(
        body.evaluate(0, 0, &vec![Relation::Equal, Relation::Equal, by_text("Hello, world!")]),
        Some(Relation::Equal)
    );
    assert_eq!(
        body.evaluate(0, 0, &vec![Relation::Equal, Relation::Less, Relation::Greater]),
        Some(Relation::Less)
    );
    let (_, body) = partial_ord(&foo()).unwrap();
    assert_eq!(body.evaluate(0, 0, &vec![]), Some(Relation::Equal));
}

#[test]
fn unordered_field_makes_values_unordered() {
    let (_, body) = partial_ord(&baz()).unwrap();
    assert_eq!(
        body.evaluate(0, 0, &vec![Relation::Equal, Relation::Unordered, Relation::Less]),
        Some(Relation::Unordered)
    );
    assert_eq!(
        body.evaluate(0, 0, &vec![Relation::Greater, Relation::Unordered, Relation::Less]),
        Some(Relation::Greater)
    );
}

#[test]
fn skipped_fields_are_not_ordered_by() {
    let (_, body) = partial_ord(&skip_example()).unwrap();
    assert_eq!(
        body.evaluate(0, 0, &vec![Relation::Equal, Relation::Less, Relation::Less]),
        Some(Relation::Equal)
    );
}

#[test]
fn different_variants_are_ordered_by_declaration() {
    let def = definition(
        "Three",
        Data::Enum(vec![
            variant("A", FieldList::Unnamed(vec![field("", ident("u8"))])),
            variant("B", FieldList::Unit),
            variant("C", FieldList::Unnamed(vec![field("", ident("u8"))])),
        ]),
    );
    let (_, body) = partial_ord(&def).unwrap();
    assert_eq!(body.discriminants, vec![0, 1, 2]);
    assert_eq!(body.evaluate(0, 2, &vec![Relation::Greater]), Some(Relation::Less));
    assert_eq!(body.evaluate(0, 2, &vec![Relation::Less]), Some(Relation::Less));
    assert_eq!(body.evaluate(2, 1, &vec![Relation::Less]), Some(Relation::Greater));
    assert_eq!(body.evaluate(1, 0, &vec![]), Some(Relation::Greater));
    assert_eq!(body.evaluate(0, 0, &vec![Relation::Greater]), Some(Relation::Greater));
}

#[test]
fn written_discriminants_decide_between_variants() {
    let def = definition(
        "Numbered",
        Data::Enum(vec![
            numbered("High", "10"),
            variant("Higher", FieldList::Unit),
            numbered("Low", "-4"),
            numbered("Same", "0xA"),
        ]),
    );
    let (_, body) = partial_ord(&def).unwrap();
    assert_eq!(body.discriminants, vec![10, 11, -4, 10]);
    assert_eq!(body.evaluate(0, 1, &vec![]), Some(Relation::Less));
    assert_eq!(body.evaluate(0, 2, &vec![]), Some(Relation::Greater));
    assert_eq!(body.evaluate(2, 1, &vec![]), Some(Relation::Less));
    assert_eq!(body.evaluate(0, 3, &vec![]), Some(Relation::Equal));
    let text = body.render();
    assert!(text.contains("Self::Low { .. } => -4isize,"));
    assert!(text.contains("Self::Higher { .. } => 11isize,"));
}

#[test]
fn discriminant_that_is_no_literal_stops_the_ordering_only() {
    let def = definition("Odd", Data::Enum(vec![numbered("A", "1 + 1")]));
    assert!(matches!(partial_ord(&def), Err(DeriveError::Config(..))));
    assert!(matches!(hash(&def), Err(DeriveError::Config(..))));
    assert!(partial_eq(&def).is_ok());
    assert!(debug(&def).is_ok());
}

#[test]
fn written_discriminant_is_what_a_variant_feeds() {
    let def = definition(
        "Numbered",
        Data::Enum(vec![numbered("High", "10"), variant("Higher", FieldList::Unit), numbered("Low", "-4")]),
    );
    let (_, body) = hash(&def).unwrap();
    assert_eq!(body.evaluate(0, 0), Some(vec![HashWrite::Discriminant(10)]));
    assert_eq!(body.evaluate(1, 0), Some(vec![HashWrite::Discriminant(11)]));
    assert_eq!(body.evaluate(2, 0), Some(vec![HashWrite::Discriminant(-4)]));
    let text = body.render();
    assert!(text.contains("Self::Low => { <isize as ::std::hash::Hash>::hash(&-4isize, __state);  },"));
    assert!(text.contains("Self::Higher => { <isize as ::std::hash::Hash>::hash(&11isize, __state);  },"));
}

#[test]
fn total_ordering_takes_the_partial_answer() {
    let body = build_ord_impl();
    assert_eq!(body.evaluate(Relation::Less), Relation::Less);
    assert_eq!(body.evaluate(Relation::Equal), Relation::Equal);
    assert_eq!(body.evaluate(Relation::Greater), Relation::Greater);
    let (header, _) = ord(&bar()).unwrap();
    assert_eq!(header.name, "Bar");
}

fn hashed(writes: &[HashWrite], feed: &dyn Fn(usize, &mut DefaultHasher)) -> u64 {
    let mut state = DefaultHasher::default();
    for write in writes {
        match write {
            HashWrite::Discriminant(value) => (*value as isize).hash(&mut state),
            HashWrite::Field(slot) => feed(*slot, &mut state),
        }
    }
    state.finish()
}

fn feed_hello(slot: usize, state: &mut DefaultHasher) {
    match slot {
        0 => ().hash(state),
        1 => true.hash(state),
        _ => "Hello, world!".to_string().hash(state),
    }
}

#[test]
fn struct_feeds_its_fields_in_order() {
    let (_, body) = hash(&bar()).unwrap();
    let writes = body.evaluate(0, 3).unwrap();
    assert_eq!(writes, vec![HashWrite::Field(0), HashWrite::Field(1), HashWrite::Field(2)]);
    assert_eq!(hashed(&writes, &feed_hello), hashed(&writes, &feed_hello));
    let mut by_hand = DefaultHasher::default();
    ((), true, "Hello, world!".to_string()).hash(&mut by_hand);
    assert_eq!(hashed(&writes, &feed_hello), by_hand.finish());
    let (_, named) = hash(&baz()).unwrap();
    assert_eq!(hashed(&named.evaluate(0, 3).unwrap(), &feed_hello), by_hand.finish());
}

#[test]
fn unit_struct_feeds_nothing() {
    let (_, body) = hash(&foo()).unwrap();
    let writes = body.evaluate(0, 0).unwrap();
    assert_eq!(writes, vec![]);
    assert_eq!(hashed(&writes, &feed_hello), DefaultHasher::default().finish());
}

#[test]
fn variant_feeds_its_position_first() {
    let (_, body) = hash(&bar_enum()).unwrap();
    let first = body.evaluate(0, 3).unwrap();
    assert_eq!(
        first,
        vec![
            HashWrite::Discriminant(0),
            HashWrite::Field(0),
            HashWrite::Field(1),
            HashWrite::Field(2)
        ]
    );
    assert_eq!(body.evaluate(1, 1), Some(vec![HashWrite::Discriminant(1), HashWrite::Field(0)]));
    let mut by_hand = DefaultHasher::default();
    0isize.hash(&mut by_hand);
    ().hash(&mut by_hand);
    true.hash(&mut by_hand);
    "Hello, world!".to_string().hash(&mut by_hand);
    assert_eq!(hashed(&first, &feed_hello), by_hand.finish());
    let (_, named) = hash(&baz_enum()).unwrap();
    assert_eq!(hashed(&named.evaluate(0, 3).unwrap(), &feed_hello), by_hand.finish());
}

#[test]
fn equal_values_hash_alike_and_skipped_fields_do_not_count() {
    let def = skip_example();
    let (_, comparing) = partial_eq(&def).unwrap();
    let (_, hashing) = hash(&def).unwrap();
    let first = ("Hello, world!".to_string(), 42u32, 420u32);
    let second = ("Hello, world!".to_string(), 43u32, 421u32);
    let field_eq = vec![first.0 == second.0, first.1 == second.1, first.2 == second.2];
    assert_eq!(comparing.evaluate(0, 0, &field_eq), Some(true));
    let writes = hashing.evaluate(0, 3).unwrap();
    assert_eq!(writes, vec![HashWrite::Field(0)]);
    let feed = |value: (String, u32, u32)| {
        move |slot: usize, state: &mut DefaultHasher| match slot {
            0 => value.0.hash(state),
            1 => value.1.hash(state),
            _ => value.2.hash(state),
        }
    };
    assert_eq!(hashed(&writes, &feed(first)), hashed(&writes, &feed(second)));
}

fn encoding(name: &str, variant: Option<(usize, &str)>, form: Form) -> Option<Encoding> {
    Some(Encoding {
        name: name.to_string(),
        variant: variant.map(|(at, name)| (at, name.to_string())),
        form,
    })
}

#[test]
fn structs_are_handed_over_in_the_form_of_their_fields() {
    assert_eq!(serialize(&foo()).unwrap().1.evaluate(0, 0), encoding("Foo", None, Form::Unit));
    assert_eq!(
        serialize(&bar()).unwrap().1.evaluate(0, 3),
        encoding("Bar", None, Form::Tuple(vec![0, 1, 2]))
    );
    assert_eq!(
        serialize(&baz()).unwrap().1.evaluate(0, 3),
        encoding(
            "Baz",
            None,
            Form::Struct(vec![("a".to_string(), 0), ("b".to_string(), 1), ("c".to_string(), 2)])
        )
    );
}

#[test]
fn one_positional_field_stands_for_the_whole() {
    let def = definition("BarNewtype", Data::Struct(FieldList::Unnamed(vec![field("", ident("bool"))])));
    assert_eq!(
        serialize(&def).unwrap().1.evaluate(0, 1),
        encoding("BarNewtype", None, Form::Newtype(0))
    );
    let def = definition(
        "Wrapped",
        Data::Struct(FieldList::Unnamed(vec![
            skipping("", ident("u8"), &["serialize"]),
            field("", ident("bool")),
        ])),
    );
    let (_, body) = serialize(&def).unwrap();
    assert_eq!(body.evaluate(0, 2), encoding("Wrapped", None, Form::Newtype(1)));
    assert!(body.render().contains("serialize_newtype_struct(__serializer, ::std::stringify!(Wrapped), &self.1)"));
}

#[test]
fn no_positional_field_is_a_unit_and_no_named_field_an_empty_structure() {
    let def = definition("Empty", Data::Struct(FieldList::Unnamed(vec![])));
    assert_eq!(serialize(&def).unwrap().1.evaluate(0, 0), encoding("Empty", None, Form::Unit));
    let def = definition("Empty", Data::Struct(FieldList::Named(vec![])));
    assert_eq!(
        serialize(&def).unwrap().1.evaluate(0, 0),
        encoding("Empty", None, Form::Struct(vec![]))
    );
}

#[test]
fn variants_are_handed_over_under_their_position_and_name() {
    let (_, body) = serialize(&bar_enum()).unwrap();
    assert_eq!(
        body.evaluate(0, 3),
        encoding("Bar", Some((0, "Variant1")), Form::Tuple(vec![0, 1, 2]))
    );
    assert_eq!(body.evaluate(1, 1), encoding("Bar", Some((1, "Variant2")), Form::Newtype(0)));
    let text = body.render();
    assert!(text.contains(
        "serialize_newtype_variant(__serializer, ::std::stringify!(Bar), 1u32, ::std::stringify!(Variant2), field0)"
    ));
    assert!(text.contains(
        "serialize_tuple_variant(__serializer, ::std::stringify!(Bar), 0u32, ::std::stringify!(Variant1), 3usize)?;"
    ));
    let (_, body) = serialize(&baz_enum()).unwrap();
    assert_eq!(
        body.evaluate(0, 3),
        encoding(
            "Baz",
            Some((0, "Variant1")),
            Form::Struct(vec![("a".to_string(), 0), ("b".to_string(), 1), ("c".to_string(), 2)])
        )
    );
    let def = definition("Flag", Data::Enum(vec![variant("On", FieldList::Unit)]));
    assert_eq!(
        serialize(&def).unwrap().1.evaluate(0, 0),
        encoding("Flag", Some((0, "On")), Form::Unit)
    );
}

#[test]
fn markers_have_a_head_and_nothing_else() {
    let def = phantom_enum();
    let header = copy(&def).unwrap();
    assert_eq!(header.name, "PhantomEnum");
    assert_eq!(header.where_clause.0.len(), 1);
    assert_eq!(header.where_clause.0[0].subject, "PhantomData < T >");
    assert_eq!(header.where_clause.0[0].bounds, vec![trait_bound("::std::marker::Copy")]);
    assert_eq!(
        better_derive::copy::render_impl(&header),
        "impl<T> ::std::marker::Copy for PhantomEnum<T> where PhantomData < T >: ::std::marker::Copy {  }"
    );
    let header = eq(&def).unwrap();
    assert_eq!(header.where_clause.0[0].bounds, vec![trait_bound("::std::cmp::Eq")]);
}

#[test]
fn untagged_union_is_refused_by_every_derivation() {
    let def = definition("Raw", Data::Union);
    assert_eq!(clone(&def).err(), Some(DeriveError::UnsupportedShape));
    assert_eq!(copy(&def).err(), Some(DeriveError::UnsupportedShape));
    assert_eq!(debug(&def).err(), Some(DeriveError::UnsupportedShape));
    assert_eq!(eq(&def).err(), Some(DeriveError::UnsupportedShape));
    assert_eq!(hash(&def).err(), Some(DeriveError::UnsupportedShape));
    assert_eq!(ord(&def).err(), Some(DeriveError::UnsupportedShape));
    assert_eq!(partial_eq(&def).err(), Some(DeriveError::UnsupportedShape));
    assert_eq!(partial_ord(&def).err(), Some(DeriveError::UnsupportedShape));
    assert_eq!(serialize(&def).err(), Some(DeriveError::UnsupportedShape));
}

#[test]
fn hashes_are_the_known_ones() {
    let (_, body) = hash(&foo()).unwrap();
    assert_eq!(hashed(&body.evaluate(0, 0).unwrap(), &feed_hello), 15130871412783076140);
    let (_, body) = hash(&bar()).unwrap();
    assert_eq!(hashed(&body.evaluate(0, 3).unwrap(), &feed_hello), 13134715174715772495);
    let (_, body) = hash(&baz()).unwrap();
    assert_eq!(hashed(&body.evaluate(0, 3).unwrap(), &feed_hello), 13134715174715772495);
    let (_, body) = hash(&bar_enum()).unwrap();
    assert_eq!(hashed(&body.evaluate(0, 3).unwrap(), &feed_hello), 17152124978856657821);
    let (_, body) = hash(&baz_enum()).unwrap();
    assert_eq!(hashed(&body.evaluate(0, 3).unwrap(), &feed_hello), 17152124978856657821);
    let (_, body) = hash(&phantom_enum()).unwrap();
    let marker = |_: usize, state: &mut DefaultHasher| PhantomData::<DontImplementAnything>.hash(state);
    assert_eq!(hashed(&body.evaluate(0, 1).unwrap(), &marker), 13646096770106105413);
}
