//! The description of a data type: what every derivation starts from.

use vstd::prelude::*;
use vstd::string::*;
use crate::token::Token;
use crate::token::TokenView;

verus! {

/// A reference to a type: a bare identifier, or any other type together with the types
/// written directly inside it.
#[derive(Debug, PartialEq, Eq)]
pub enum TypeExpr {
    /// A single identifier, such as `T` or `u32`.
    Ident(String),
    /// Any other type, as written, and the types nested directly in it.
    Path { text: String, args: Vec<TypeExpr> },
}

/// The mathematical value of a [`TypeExpr`].
pub enum TypeExprView {
    Ident(Seq<char>),
    Path { text: Seq<char>, args: Seq<TypeExprView> },
}

impl DeepView for TypeExpr {
    type V = TypeExprView;

    open spec fn deep_view(&self) -> TypeExprView
        decreases self,
    {
        match self {
            TypeExpr::Ident(name) => TypeExprView::Ident(name@),
            TypeExpr::Path { text, args } => TypeExprView::Path {
                text: text@,
                args: Seq::new(
                    args@.len(),
                    |i: int|
                        if 0 <= i < args@.len() {
                            args@[i].deep_view()
                        } else {
                            TypeExprView::Ident(Seq::empty())
                        },
                ),
            },
        }
    }
}

impl TypeExprView {
    /// The type as it is written.
    pub open spec fn text(self) -> Seq<char> {
        match self {
            TypeExprView::Ident(name) => name,
            TypeExprView::Path { text, .. } => text,
        }
    }
}

impl TypeExpr {
    /// The nested types of a path, seen as values.
    pub proof fn lemma_args_view(self)
        requires
            self is Path,
        ensures
            self.deep_view() is Path,
            self.deep_view()->args == self->args.deep_view(),
            self.deep_view()->text == self->text@,
    {
        assert(self.deep_view()->args =~= self->args.deep_view());
    }

    /// The type as it is written.
    pub fn text(&self) -> (r: String)
        ensures
            r@ == self.deep_view().text(),
    {
        match self {
            TypeExpr::Ident(name) => name.clone(),
            TypeExpr::Path { text, .. } => text.clone(),
        }
    }
}

/// What a generic parameter stands for.
#[derive(Clone, Copy, Debug, PartialEq, Eq)]
pub enum ParamKind {
    Type,
    Lifetime,
    Const,
}

/// One bound on a type or a lifetime.
#[derive(Clone, Debug, PartialEq, Eq)]
pub enum Bound {
    /// A trait bound: the trait's path, and apart from it what is written round it.
    Trait {
        /// Whether the bound stands in parentheses.
        parenthesized: bool,
        /// The modifier before the path: `?`, or nothing.
        modifier: String,
        /// The binder before the path, such as `for < 'a >`, or nothing.
        binder: String,
        /// The path of the trait.
        path: String,
    },
    /// Any other bound, as written: a lifetime, or the type of a constant.
    Other(String),
}

/// The mathematical value of a [`Bound`].
pub enum BoundView {
    Trait { parenthesized: bool, modifier: Seq<char>, binder: Seq<char>, path: Seq<char> },
    Other(Seq<char>),
}

impl DeepView for Bound {
    type V = BoundView;

    open spec fn deep_view(&self) -> BoundView {
        match self {
            Bound::Trait { parenthesized, modifier, binder, path } => BoundView::Trait {
                parenthesized: *parenthesized,
                modifier: modifier@,
                binder: binder@,
                path: path@,
            },
            Bound::Other(text) => BoundView::Other(text@),
        }
    }
}

/// A generic parameter with the bounds written on it. A lifetime is named without its
/// quote; a constant carries its type as its one bound.
#[derive(Clone, Debug, PartialEq, Eq)]
pub struct GenericParameter {
    pub kind: ParamKind,
    pub name: String,
    pub bounds: Vec<Bound>,
}

/// The mathematical value of a [`GenericParameter`].
pub struct GenericParameterView {
    pub kind: ParamKind,
    pub name: Seq<char>,
    pub bounds: Seq<BoundView>,
}

impl DeepView for GenericParameter {
    type V = GenericParameterView;

    open spec fn deep_view(&self) -> GenericParameterView {
        GenericParameterView {
            kind: self.kind,
            name: self.name@,
            bounds: self.bounds.deep_view(),
        }
    }
}

/// A requirement that a type or a lifetime satisfies each of some bounds, under the
/// binder written before it, such as `for < 'a >`, if any.
#[derive(Clone, Debug, PartialEq, Eq)]
pub struct Constraint {
    pub binder: String,
    pub subject: String,
    pub bounds: Vec<Bound>,
}

/// The mathematical value of a [`Constraint`].
pub struct ConstraintView {
    pub binder: Seq<char>,
    pub subject: Seq<char>,
    pub bounds: Seq<BoundView>,
}

impl DeepView for Constraint {
    type V = ConstraintView;

    open spec fn deep_view(&self) -> ConstraintView {
        ConstraintView {
            binder: self.binder@,
            subject: self.subject@,
            bounds: self.bounds.deep_view(),
        }
    }
}

/// An attribute: its name and, where it has the form `name(...)`, the tokens in the
/// brackets.
#[derive(Clone, Debug, PartialEq, Eq)]
pub struct Attribute {
    pub name: String,
    pub list: Option<Vec<Token>>,
}

/// The mathematical value of an [`Attribute`].
pub struct AttributeView {
    pub name: Seq<char>,
    pub list: Option<Seq<TokenView>>,
}

impl DeepView for Attribute {
    type V = AttributeView;

    open spec fn deep_view(&self) -> AttributeView {
        AttributeView { name: self.name@, list: self.list.deep_view() }
    }
}

/// One field. A positional field has an empty name.
#[derive(Debug, PartialEq, Eq)]
pub struct Field {
    pub name: String,
    pub ty: TypeExpr,
    pub attrs: Vec<Attribute>,
}

/// The mathematical value of a [`Field`].
pub struct FieldView {
    pub name: Seq<char>,
    pub ty: TypeExprView,
    pub attrs: Seq<AttributeView>,
}

impl DeepView for Field {
    type V = FieldView;

    open spec fn deep_view(&self) -> FieldView {
        FieldView { name: self.name@, ty: self.ty.deep_view(), attrs: self.attrs.deep_view() }
    }
}

/// The fields of a struct or of a variant, in the order of their declaration.
#[derive(Debug, PartialEq, Eq)]
pub enum FieldList {
    Named(Vec<Field>),
    Unnamed(Vec<Field>),
    Unit,
}

/// The mathematical value of a [`FieldList`].
pub enum FieldListView {
    Named(Seq<FieldView>),
    Unnamed(Seq<FieldView>),
    Unit,
}

impl DeepView for FieldList {
    type V = FieldListView;

    open spec fn deep_view(&self) -> FieldListView {
        match self {
            FieldList::Named(fields) => FieldListView::Named(fields.deep_view()),
            FieldList::Unnamed(fields) => FieldListView::Unnamed(fields.deep_view()),
            FieldList::Unit => FieldListView::Unit,
        }
    }
}

impl FieldListView {
    /// The fields, none for a unit.
    pub open spec fn items(self) -> Seq<FieldView> {
        match self {
            FieldListView::Named(fields) => fields,
            FieldListView::Unnamed(fields) => fields,
            FieldListView::Unit => Seq::empty(),
        }
    }
}

/// One variant of an enum. The discriminant, where one is written, is kept as its text.
#[derive(Debug, PartialEq, Eq)]
pub struct Variant {
    pub name: String,
    pub fields: FieldList,
    pub discriminant: Option<String>,
    pub attrs: Vec<Attribute>,
}

/// The mathematical value of a [`Variant`].
pub struct VariantView {
    pub name: Seq<char>,
    pub fields: FieldListView,
    pub discriminant: Option<Seq<char>>,
    pub attrs: Seq<AttributeView>,
}

impl DeepView for Variant {
    type V = VariantView;

    open spec fn deep_view(&self) -> VariantView {
        VariantView {
            name: self.name@,
            fields: self.fields.deep_view(),
            discriminant: self.discriminant.deep_view(),
            attrs: self.attrs.deep_view(),
        }
    }
}

/// What kind of type is described, with its contents.
#[derive(Debug, PartialEq, Eq)]
pub enum Data {
    Struct(FieldList),
    Enum(Vec<Variant>),
    /// An untagged union: no derivation supports it.
    Union,
}

/// The mathematical value of a [`Data`].
pub enum DataView {
    Struct(FieldListView),
    Enum(Seq<VariantView>),
    Union,
}

impl DeepView for Data {
    type V = DataView;

    open spec fn deep_view(&self) -> DataView {
        match self {
            Data::Struct(fields) => DataView::Struct(fields.deep_view()),
            Data::Enum(variants) => DataView::Enum(variants.deep_view()),
            Data::Union => DataView::Union,
        }
    }
}

/// A data type as declared: its name, its generic parameters, its contents and the
/// attributes written on it.
#[derive(Debug, PartialEq, Eq)]
pub struct TypeDefinition {
    pub name: String,
    pub generics: Vec<GenericParameter>,
    pub data: Data,
    pub attrs: Vec<Attribute>,
}

/// The mathematical value of a [`TypeDefinition`].
pub struct TypeDefinitionView {
    pub name: Seq<char>,
    pub generics: Seq<GenericParameterView>,
    pub data: DataView,
    pub attrs: Seq<AttributeView>,
}

impl DeepView for TypeDefinition {
    type V = TypeDefinitionView;

    open spec fn deep_view(&self) -> TypeDefinitionView {
        TypeDefinitionView {
            name: self.name@,
            generics: self.generics.deep_view(),
            data: self.data.deep_view(),
            attrs: self.attrs.deep_view(),
        }
    }
}

} // verus!
