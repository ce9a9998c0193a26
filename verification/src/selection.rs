//! What is left of a type's contents once the skipped fields and variants are gone.

use vstd::prelude::*;
use vstd::string::*;

verus! {

/// How the fields of a struct or variant are written.
#[derive(Clone, Copy, Debug, PartialEq, Eq, Structural)]
pub enum Shape {
    /// `{ a: A, b: B }`
    Named,
    /// `(A, B)`
    Unnamed,
    /// No fields and no brackets.
    Unit,
}

/// A field that takes part in a derivation: its position among the declared fields, its
/// name (empty where it has none) and its type as written.
#[derive(Clone, Debug, PartialEq, Eq)]
pub struct SelectedField {
    pub slot: usize,
    pub name: String,
    pub ty: String,
}

/// The mathematical value of a [`SelectedField`].
pub struct SelectedFieldView {
    pub slot: usize,
    pub name: Seq<char>,
    pub ty: Seq<char>,
}

impl DeepView for SelectedField {
    type V = SelectedFieldView;

    open spec fn deep_view(&self) -> SelectedFieldView {
        SelectedFieldView { slot: self.slot, name: self.name@, ty: self.ty@ }
    }
}

/// The fields of a struct, or of one variant, that take part in a derivation.
///
/// `variant` is the variant's name (empty for a struct), `ordinal` its position among the
/// declared variants, `arity` the number of fields it declares, skipped ones included.
#[derive(Clone, Debug, PartialEq, Eq)]
pub struct FieldSelection {
    pub variant: String,
    pub ordinal: usize,
    pub shape: Shape,
    pub arity: usize,
    pub fields: Vec<SelectedField>,
}

/// The mathematical value of a [`FieldSelection`].
pub struct FieldSelectionView {
    pub variant: Seq<char>,
    pub ordinal: usize,
    pub shape: Shape,
    pub arity: usize,
    pub fields: Seq<SelectedFieldView>,
}

impl DeepView for FieldSelection {
    type V = FieldSelectionView;

    open spec fn deep_view(&self) -> FieldSelectionView {
        FieldSelectionView {
            variant: self.variant@,
            ordinal: self.ordinal,
            shape: self.shape,
            arity: self.arity,
            fields: self.fields.deep_view(),
        }
    }
}

/// The contents of a type as one derivation sees them.
#[derive(Clone, Debug, PartialEq, Eq)]
pub enum Selection {
    Struct(FieldSelection),
    Enum(Vec<FieldSelection>),
}

/// The mathematical value of a [`Selection`].
pub enum SelectionView {
    Struct(FieldSelectionView),
    Enum(Seq<FieldSelectionView>),
}

impl DeepView for Selection {
    type V = SelectionView;

    open spec fn deep_view(&self) -> SelectionView {
        match self {
            Selection::Struct(fields) => SelectionView::Struct(fields.deep_view()),
            Selection::Enum(variants) => SelectionView::Enum(variants.deep_view()),
        }
    }
}

} // verus!
