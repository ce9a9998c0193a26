use better_derive::clone::clone;
use better_derive::copy;
use better_derive::debug::debug;
use better_derive::eq;
use better_derive::hash::hash;
use better_derive::model::Attribute;
use better_derive::model::Data;
use better_derive::model::Field;
use better_derive::model::FieldList;
use better_derive::model::GenericParameter;
use better_derive::model::ParamKind;
use better_derive::model::TypeDefinition;
use better_derive::model::TypeExpr;
use better_derive::model::Variant;
use better_derive::ord::ord;
use better_derive::partial_eq::partial_eq;
use better_derive::partial_ord::partial_ord;
use better_derive::serialize::serialize;
use better_derive::token::tokenize;

fn ident(name: &str) -> TypeExpr {
    TypeExpr::Ident(name.to_string())
}

fn path(text: &str, args: Vec<TypeExpr>) -> TypeExpr {
    TypeExpr::Path { text: text.to_string(), args }
}

fn field(name: &str, ty: TypeExpr) -> Field {
    Field { name: name.to_string(), ty, attrs: vec![] }
}

fn skipped(name: &str, ty: TypeExpr, keyword: &str) -> Field {
    Field {
        name: name.to_string(),
        ty,
        attrs: vec![Attribute { name: keyword.to_string(), list: tokenize("skip") }],
    }
}

fn type_param(name: &str) -> GenericParameter {
    GenericParameter { kind: ParamKind::Type, name: name.to_string(), bounds: vec![] }
}

fn variant(name: &str, fields: FieldList) -> Variant {
    Variant { name: name.to_string(), fields, discriminant: None, attrs: vec![] }
}

fn mixed_enum() -> TypeDefinition {
    TypeDefinition {
        name: "Shape".to_string(),
        generics: vec![type_param("T")],
        data: Data::Enum(vec![
            variant("Empty", FieldList::Unit),
            variant(
                "Pair",
                FieldList::Unnamed(vec![
                    field("", ident("T")),
                    skipped("", ident("u32"), "better_derive"),
                    field("", path("Vec < T >", vec![ident("T")])),
                ]),
            ),
            variant(
                "Named",
                FieldList::Named(vec![
                    field("first", ident("bool")),
                    skipped("second", ident("String"), "better_derive"),
                ]),
            ),
        ]),
        attrs: vec![],
    }
}

fn tuple_struct() -> TypeDefinition {
    TypeDefinition {
        name: "Bar".to_string(),
        generics: vec![],
        data: Data::Struct(FieldList::Unnamed(vec![
            field("", path("()", vec![])),
            field("", ident("bool")),
            field("", ident("String")),
        ])),
        attrs: vec![],
    }
}

fn parses_as_impl(text: &str) {
    match syn::parse_str::<syn::ItemImpl>(text) {
        Ok(_) => {}
        Err(error) => panic!("not an impl: {}\n{}", error, text),
    }
}

#[test]
fn clone_of_tuple_struct_is_written_out() {
    let (header, body) = clone(&tuple_struct()).unwrap();
    assert_eq!(
        body.render(),
        "Self(<() as ::std::clone::Clone>::clone(&self.0), <bool as ::std::clone::Clone>::clone(&self.1), <String as ::std::clone::Clone>::clone(&self.2))"
    );
    let text = body.render_impl(&header);
    assert_eq!(
        text,
        format!(
            "impl ::std::clone::Clone for Bar  {{ #[inline] fn clone(&self) -> Self {{ {} }} }}",
            body.render()
        )
    );
    parses_as_impl(&text);
}

#[test]
fn every_implementation_of_a_struct_is_rust() {
    let def = tuple_struct();
    let (header, body) = clone(&def).unwrap();
    parses_as_impl(&body.render_impl(&header));
    let (header, body) = debug(&def).unwrap();
    parses_as_impl(&body.render_impl(&header));
    let (header, body) = hash(&def).unwrap();
    parses_as_impl(&body.render_impl(&header));
    let (header, body) = partial_eq(&def).unwrap();
    parses_as_impl(&body.render_impl(&header));
    let (header, body) = partial_ord(&def).unwrap();
    parses_as_impl(&body.render_impl(&header));
    let (header, body) = serialize(&def).unwrap();
    parses_as_impl(&body.render_impl(&header));
    let (header, body) = ord(&def).unwrap();
    parses_as_impl(&body.render_impl(&header));
    parses_as_impl(&eq::render_impl(&eq::eq(&def).unwrap()));
    parses_as_impl(&copy::render_impl(&copy::copy(&def).unwrap()));
}

#[test]
fn every_implementation_of_an_enum_is_rust() {
    let def = mixed_enum();
    let (header, body) = clone(&def).unwrap();
    parses_as_impl(&body.render_impl(&header));
    let (header, body) = debug(&def).unwrap();
    parses_as_impl(&body.render_impl(&header));
    let (header, body) = hash(&def).unwrap();
    parses_as_impl(&body.render_impl(&header));
    let (header, body) = partial_eq(&def).unwrap();
    parses_as_impl(&body.render_impl(&header));
    let (header, body) = partial_ord(&def).unwrap();
    parses_as_impl(&body.render_impl(&header));
    let (header, body) = serialize(&def).unwrap();
    parses_as_impl(&body.render_impl(&header));
    let (header, body) = ord(&def).unwrap();
    parses_as_impl(&body.render_impl(&header));
    parses_as_impl(&eq::render_impl(&eq::eq(&def).unwrap()));
    parses_as_impl(&copy::render_impl(&copy::copy(&def).unwrap()));
}

#[test]
fn skipped_positional_field_is_passed_over_in_patterns() {
    let (_, body) = partial_eq(&mixed_enum()).unwrap();
    let text = body.render();
    assert!(text.contains("(Self::Pair(lfield0, _, lfield2), Self::Pair(rfield0, _, rfield2))"));
    assert!(text.contains("(Self::Named { first: lfirst, .. }, Self::Named { first: rfirst, .. })"));
    assert!(text.contains("(Self::Empty, Self::Empty) => { true },"));
    assert!(text.ends_with(" _ => false, }"));
}

#[test]
fn enum_without_variants_cannot_be_reached() {
    let def = TypeDefinition {
        name: "Never".to_string(),
        generics: vec![],
        data: Data::Enum(vec![]),
        attrs: vec![],
    };
    assert_eq!(clone(&def).unwrap().1.render(), "::std::unreachable!()");
    assert_eq!(debug(&def).unwrap().1.render(), "::std::unreachable!()");
    assert_eq!(hash(&def).unwrap().1.render(), "::std::unreachable!()");
    assert_eq!(partial_eq(&def).unwrap().1.render(), "::std::unreachable!()");
    assert_eq!(partial_ord(&def).unwrap().1.render(), "::std::unreachable!()");
    assert_eq!(serialize(&def).unwrap().1.render(), "::std::unreachable!()");
}
