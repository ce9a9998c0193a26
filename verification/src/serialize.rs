//! Deriving serialization: a value is handed to the serializer as a unit, as the one
//! field it wraps, as a sequence or as a keyed structure, an enum's value under the
//! position and the name of its variant.

use vstd::prelude::*;
use vstd::string::*;
use crate::capability::SERIALIZE_ATTR_NAME;
use crate::capability::SERIALIZE_TARGET;
use crate::common::derivation;
use crate::common::derive_plan;
use crate::common::Header;
use crate::common::HeaderView;
use crate::emit::fill_all;
use crate::emit::filled_all;
use crate::emit::fixed;
use crate::emit::impl_text;
use crate::emit::match_text;
use crate::emit::Part;
use crate::emit::PartView;
use crate::emit::pattern;
use crate::emit::Side;
use crate::emit::write_impl;
use crate::emit::write_match;
use crate::emit::write_pattern;
use crate::error::DeriveError;
use crate::error::result_view;
use crate::model::TypeDefinition;
use crate::model::TypeDefinitionView;
use crate::plan::Arm;
use crate::plan::arm_for;
use crate::plan::ArmView;
use crate::plan::build_plan;
use crate::plan::FieldBindingView;
use crate::plan::Plan;
use crate::plan::plan_of;
use crate::plan::PlanView;
use crate::plan::slots_of;
use crate::selection::Selection;
use crate::selection::Shape;
use crate::text::decimal;
use crate::text::join;
use crate::text::joined;
use crate::text::render_decimal;

verus! {

/// The form in which the fields of a value are handed to the serializer.
#[derive(Clone, Debug, PartialEq, Eq)]
pub enum Form {
    /// Nothing but a marker.
    Unit,
    /// The field at this slot, in the place of the value that wraps it.
    Newtype(usize),
    /// A sequence of fixed length: the fields at these slots, in this order.
    Tuple(Vec<usize>),
    /// A keyed structure: each key with the slot of the field under it, in this order.
    Struct(Vec<(String, usize)>),
}

/// The mathematical value of a [`Form`].
pub enum FormView {
    Unit,
    Newtype(usize),
    Tuple(Seq<usize>),
    Struct(Seq<(Seq<char>, usize)>),
}

impl DeepView for Form {
    type V = FormView;

    open spec fn deep_view(&self) -> FormView {
        match self {
            Form::Unit => FormView::Unit,
            Form::Newtype(slot) => FormView::Newtype(*slot),
            Form::Tuple(slots) => FormView::Tuple(slots@),
            Form::Struct(fields) => FormView::Struct(fields.deep_view()),
        }
    }
}

/// What is handed to the serializer for one value: the name of the type; for an enum the
/// position and the name of the variant; and the fields in their form.
#[derive(Clone, Debug, PartialEq, Eq)]
pub struct Encoding {
    pub name: String,
    pub variant: Option<(usize, String)>,
    pub form: Form,
}

/// The mathematical value of an [`Encoding`].
pub struct EncodingView {
    pub name: Seq<char>,
    pub variant: Option<(usize, Seq<char>)>,
    pub form: FormView,
}

impl DeepView for Encoding {
    type V = EncodingView;

    open spec fn deep_view(&self) -> EncodingView {
        EncodingView {
            name: self.name@,
            variant: self.variant.deep_view(),
            form: self.form.deep_view(),
        }
    }
}

/// The body of `serialize`: the name of the type and, for each arm, the fields to hand
/// over.
#[derive(Clone, Debug, PartialEq, Eq)]
pub struct SerializeBody {
    pub name: String,
    pub plan: Plan,
}

/// The mathematical value of a [`SerializeBody`].
pub struct SerializeBodyView {
    pub name: Seq<char>,
    pub plan: PlanView,
}

impl DeepView for SerializeBody {
    type V = SerializeBodyView;

    open spec fn deep_view(&self) -> SerializeBodyView {
        SerializeBodyView { name: self.name@, plan: self.plan.deep_view() }
    }
}

/// The keys of named fields with the slots of the fields, in their order.
pub open spec fn keyed(fields: Seq<FieldBindingView>) -> Seq<(Seq<char>, usize)> {
    Seq::new(fields.len(), |i: int| (fields[i].name, fields[i].slot))
}

/// The form of an arm's fields: named fields are a keyed structure, however many take
/// part; of positional fields, none is a unit, one stands for the whole, more are a
/// sequence; a unit is a unit.
pub open spec fn form_of(arm: ArmView) -> FormView {
    match arm.shape {
        Shape::Named => FormView::Struct(keyed(arm.fields)),
        Shape::Unnamed => if arm.fields.len() == 0 {
            FormView::Unit
        } else if arm.fields.len() == 1 {
            FormView::Newtype(arm.fields[0].slot)
        } else {
            FormView::Tuple(slots_of(arm.fields))
        },
        Shape::Unit => FormView::Unit,
    }
}

/// What `serialize` hands over for a value of the variant declared at `ordinal` that has
/// `count` fields. `None` where the body cannot run on such a value: no arm is for its
/// variant, or the arm expects another number of fields.
pub open spec fn encoding(body: SerializeBodyView, ordinal: usize, count: nat) -> Option<
    EncodingView,
> {
    match arm_for(body.plan, ordinal) {
        Some(arm) => if arm.fits(count) {
            Some(
                EncodingView {
                    name: body.name,
                    variant: if body.plan is Enum {
                        Some((arm.ordinal, arm.variant))
                    } else {
                        None
                    },
                    form: form_of(arm),
                },
            )
        } else {
            None
        },
        None => None,
    }
}

/// Builds the body of `serialize` for the type called `name`, over what the filter kept.
pub fn build_serde_impl(name: &str, selection: &Selection) -> (r: SerializeBody)
    ensures
        r.deep_view() == (SerializeBodyView {
            name: name@,
            plan: plan_of(selection.deep_view()),
        }),
{
    SerializeBody { name: String::from_str(name), plan: build_plan(selection) }
}

fn keys_of(arm: &Arm) -> (r: Vec<(String, usize)>)
    ensures
        r.deep_view() == keyed(arm.deep_view().fields),
{
    let ghost all = arm.deep_view().fields;
    let mut out: Vec<(String, usize)> = Vec::new();
    let mut i: usize = 0;
    while i < arm.fields.len()
        invariant
            i <= arm.fields.len(),
            out.len() == i,
            all == arm.fields.deep_view(),
            all.len() == arm.fields.len(),
            forall|j: int| 0 <= j < i ==> out.deep_view()[j] == (all[j].name, all[j].slot),
        decreases arm.fields.len() - i,
    {
        let ghost before = out.deep_view();
        assert(all[i as int] == arm.fields[i as int].deep_view());
        let next = (arm.fields[i].name.clone(), arm.fields[i].slot);
        out.push(next);
        assert(out.deep_view() =~= before.push((all[i as int].name, all[i as int].slot)));
        i = i + 1;
    }
    assert(out.deep_view() =~= keyed(all));
    out
}

fn form(arm: &Arm) -> (r: Form)
    ensures
        r.deep_view() == form_of(arm.deep_view()),
{
    assert(arm.deep_view().fields.len() == arm.fields.len());
    match arm.shape {
        Shape::Named => Form::Struct(keys_of(arm)),
        Shape::Unnamed => {
            if arm.fields.len() == 0 {
                Form::Unit
            } else if arm.fields.len() == 1 {
                assert(arm.deep_view().fields[0] == arm.fields[0].deep_view());
                Form::Newtype(arm.fields[0].slot)
            } else {
                Form::Tuple(arm.slots())
            }
        },
        Shape::Unit => Form::Unit,
    }
}

impl SerializeBody {
    /// Runs the body on a value of the variant declared at `ordinal` that has `count`
    /// fields: what is handed to the serializer.
    pub fn evaluate(&self, ordinal: usize, count: usize) -> (r: Option<Encoding>)
        ensures
            r.deep_view() == encoding(self.deep_view(), ordinal, count as nat),
    {
        let tagged = match &self.plan {
            Plan::Enum(_) => true,
            Plan::Struct(_) => false,
        };
        match self.plan.find_arm(ordinal) {
            Some(arm) => {
                if arm.fits(count) {
                    let variant = if tagged {
                        Some((arm.ordinal, arm.variant.clone()))
                    } else {
                        None
                    };
                    Some(Encoding { name: self.name.clone(), variant, form: form(arm) })
                } else {
                    None
                }
            },
            None => None,
        }
    }
}

/// What [`serialize`] returns.
pub open spec fn serialize_derivation(input: TypeDefinitionView) -> Result<
    (HeaderView, SerializeBodyView),
    DeriveError,
> {
    match derivation(SERIALIZE_ATTR_NAME@, SERIALIZE_TARGET@, input) {
        Err(fault) => Err(fault),
        Ok((header, plan)) => Ok((header, SerializeBodyView { name: input.name, plan })),
    }
}

/// Derives `Serialize` for `input`: the head of the implementation and the body of
/// `serialize`.
pub fn serialize(input: &TypeDefinition) -> (r: Result<(Header, SerializeBody), DeriveError>)
    ensures
        result_view(r) == serialize_derivation(input.deep_view()),
{
    match derive_plan(SERIALIZE_ATTR_NAME, SERIALIZE_TARGET, input) {
        Err(fault) => Err(fault),
        Ok((header, plan)) => Ok((header, SerializeBody { name: input.name.clone(), plan })),
    }
}

/// What a value is named by towards the serializer: the type's name, and for a variant
/// its position and its name.
pub open spec fn naming(name: Seq<char>, arm: ArmView, tagged: bool) -> Seq<char> {
    let own = "::std::stringify!("@ + name + ")"@;
    if tagged {
        own + ", "@ + decimal(arm.ordinal as nat) + "u32, ::std::stringify!("@ + arm.variant
            + ")"@
    } else {
        own
    }
}

/// The ending of the serializer's method for a struct or for a variant.
pub open spec fn method_ending(tagged: bool) -> Seq<char> {
    if tagged {
        "_variant"@
    } else {
        "_struct"@
    }
}

/// The serializer's method that opens a keyed structure or a sequence.
pub open spec fn opening_method(named: bool, tagged: bool) -> Seq<char> {
    if named {
        if tagged {
            "serialize_struct_variant"@
        } else {
            "serialize_struct"@
        }
    } else {
        "serialize_tuple"@ + method_ending(tagged)
    }
}

/// The path of the type that collects the fields of a keyed structure or a sequence,
/// seen as the trait that it implements.
pub open spec fn collector(named: bool, tagged: bool) -> Seq<char> {
    let word = if named {
        if tagged {
            "SerializeStructVariant"@
        } else {
            "SerializeStruct"@
        }
    } else {
        if tagged {
            "SerializeTupleVariant"@
        } else {
            "SerializeTupleStruct"@
        }
    };
    "<<SE as ::serde::Serializer>::"@ + word + " as ::serde::ser::"@ + word + ">"@
}

/// The template of handing one field to the collector: under its name where it has
/// one; the field of `self`, or the variable that a pattern bound.
pub open spec fn collect_parts(named: bool, tagged: bool, on_self: bool) -> Seq<PartView> {
    let start = seq![
        PartView::Text(collector(named, tagged)),
        PartView::Text("::serialize_field(&mut __ser, "@),
    ];
    let key = if named {
        seq![PartView::Text("::std::stringify!("@), PartView::Name, PartView::Text("), "@)]
    } else {
        Seq::empty()
    };
    let value = if on_self {
        seq![PartView::Text("&self."@), PartView::Member]
    } else {
        seq![PartView::Local]
    };
    start + key + value + seq![PartView::Text(")?;"@)]
}

/// The statements that hand a keyed structure or a sequence to the serializer: it is
/// opened with the number of fields that take part, each field is handed over, and it
/// is ended.
pub open spec fn compound_text(name: Seq<char>, arm: ArmView, tagged: bool, on_self: bool) -> Seq<
    char,
> {
    let named = arm.shape is Named;
    "let mut __ser = <SE as ::serde::Serializer>::"@ + opening_method(named, tagged)
        + "(__serializer, "@ + naming(name, arm, tagged) + ", "@ + decimal(arm.fields.len())
        + "usize)?; "@ + joined(
        filled_all(collect_parts(named, tagged, on_self), arm.fields),
        " "@,
    ) + " "@ + collector(named, tagged) + "::end(__ser)"@
}

/// The template of the one field that stands for the whole value.
pub open spec fn inner_parts(on_self: bool) -> Seq<PartView> {
    if on_self {
        seq![PartView::Text("&self."@), PartView::Member]
    } else {
        seq![PartView::Local]
    }
}

/// The expression that hands a value over as the one field it wraps.
pub open spec fn newtype_text(name: Seq<char>, arm: ArmView, tagged: bool, on_self: bool) -> Seq<
    char,
> {
    "<SE as ::serde::Serializer>::serialize_newtype"@ + method_ending(tagged)
        + "(__serializer, "@ + naming(name, arm, tagged) + ", "@ + joined(
        filled_all(inner_parts(on_self), arm.fields),
        ""@,
    ) + ")"@
}

/// The expression that hands a value over as a unit.
pub open spec fn unit_text(name: Seq<char>, arm: ArmView, tagged: bool) -> Seq<char> {
    "<SE as ::serde::Serializer>::serialize_unit"@ + method_ending(tagged) + "(__serializer, "@
        + naming(name, arm, tagged) + ")"@
}

/// The code that hands a value of an arm to the serializer, in the form of the arm's
/// fields.
pub open spec fn handing_text(name: Seq<char>, arm: ArmView, tagged: bool, on_self: bool) -> Seq<
    char,
> {
    match arm.shape {
        Shape::Named => compound_text(name, arm, tagged, on_self),
        Shape::Unnamed => if arm.fields.len() == 0 {
            unit_text(name, arm, tagged)
        } else if arm.fields.len() == 1 {
            newtype_text(name, arm, tagged, on_self)
        } else {
            compound_text(name, arm, tagged, on_self)
        },
        Shape::Unit => unit_text(name, arm, tagged),
    }
}

/// One arm of the `match` in `serialize`.
pub open spec fn serialize_arm_text(name: Seq<char>, arm: ArmView) -> Seq<char> {
    pattern(arm, Side::Single) + " => { "@ + handing_text(name, arm, true, false) + " },"@
}

/// The body of `serialize` as it is written.
pub open spec fn serialize_body_text(body: SerializeBodyView) -> Seq<char> {
    match body.plan {
        PlanView::Struct(arm) => handing_text(body.name, arm, false, true),
        PlanView::Enum(arms) => match_text(
            "self"@,
            Seq::new(arms.len(), |i: int| serialize_arm_text(body.name, arms[i])),
            ""@,
        ),
    }
}

/// The implementation of `Serialize` as it is written.
pub open spec fn serialize_impl_text(header: HeaderView, body: SerializeBodyView) -> Seq<char> {
    impl_text(
        header,
        SERIALIZE_TARGET@,
        "fn serialize<SE>(&self, __serializer: SE) -> ::std::result::Result<SE::Ok, SE::Error> where SE: ::serde::Serializer, { "@
            + serialize_body_text(body) + " }"@,
    )
}

fn write_naming(name: &str, arm: &Arm, tagged: bool) -> (r: String)
    ensures
        r@ == naming(name@, arm.deep_view(), tagged),
{
    let mut out = String::from_str("::std::stringify!(");
    out.append(name);
    out.append(")");
    if tagged {
        out.append(", ");
        out.append(render_decimal(arm.ordinal).as_str());
        out.append("u32, ::std::stringify!(");
        out.append(arm.variant.as_str());
        out.append(")");
    }
    out
}

fn ending(tagged: bool) -> (r: &'static str)
    ensures
        r@ == method_ending(tagged),
{
    if tagged {
        "_variant"
    } else {
        "_struct"
    }
}

fn write_opening_method(named: bool, tagged: bool) -> (r: String)
    ensures
        r@ == opening_method(named, tagged),
{
    if named {
        if tagged {
            String::from_str("serialize_struct_variant")
        } else {
            String::from_str("serialize_struct")
        }
    } else {
        let mut out = String::from_str("serialize_tuple");
        out.append(ending(tagged));
        out
    }
}

fn write_collector(named: bool, tagged: bool) -> (r: String)
    ensures
        r@ == collector(named, tagged),
{
    let word = if named {
        if tagged {
            "SerializeStructVariant"
        } else {
            "SerializeStruct"
        }
    } else {
        if tagged {
            "SerializeTupleVariant"
        } else {
            "SerializeTupleStruct"
        }
    };
    let mut out = String::from_str("<<SE as ::serde::Serializer>::");
    out.append(word);
    out.append(" as ::serde::ser::");
    out.append(word);
    out.append(">");
    out
}

fn collect_template(named: bool, tagged: bool, on_self: bool) -> (r: Vec<Part>)
    ensures
        r.deep_view() == collect_parts(named, tagged, on_self),
{
    let mut parts: Vec<Part> = Vec::new();
    parts.push(Part::Text(write_collector(named, tagged)));
    parts.push(fixed("::serialize_field(&mut __ser, "));
    if named {
        parts.push(fixed("::std::stringify!("));
        parts.push(Part::Name);
        parts.push(fixed("), "));
    }
    if on_self {
        parts.push(fixed("&self."));
        parts.push(Part::Member);
    } else {
        parts.push(Part::Local);
    }
    parts.push(fixed(")?;"));
    assert(parts.deep_view() =~= collect_parts(named, tagged, on_self));
    parts
}

fn inner_template(on_self: bool) -> (r: Vec<Part>)
    ensures
        r.deep_view() == inner_parts(on_self),
{
    let mut parts: Vec<Part> = Vec::new();
    if on_self {
        parts.push(fixed("&self."));
        parts.push(Part::Member);
    } else {
        parts.push(Part::Local);
    }
    assert(parts.deep_view() =~= inner_parts(on_self));
    parts
}

fn write_compound(name: &str, arm: &Arm, tagged: bool, on_self: bool) -> (r: String)
    ensures
        r@ == compound_text(name@, arm.deep_view(), tagged, on_self),
{
    let named = match arm.shape {
        Shape::Named => true,
        _ => false,
    };
    assert(arm.deep_view().fields.len() == arm.fields.len());
    let mut out = String::from_str("let mut __ser = <SE as ::serde::Serializer>::");
    out.append(write_opening_method(named, tagged).as_str());
    out.append("(__serializer, ");
    out.append(write_naming(name, arm, tagged).as_str());
    out.append(", ");
    out.append(render_decimal(arm.fields.len()).as_str());
    out.append("usize)?; ");
    out.append(
        join(&fill_all(&collect_template(named, tagged, on_self), &arm.fields), " ").as_str(),
    );
    out.append(" ");
    out.append(write_collector(named, tagged).as_str());
    out.append("::end(__ser)");
    out
}

fn write_newtype(name: &str, arm: &Arm, tagged: bool, on_self: bool) -> (r: String)
    ensures
        r@ == newtype_text(name@, arm.deep_view(), tagged, on_self),
{
    let mut out = String::from_str("<SE as ::serde::Serializer>::serialize_newtype");
    out.append(ending(tagged));
    out.append("(__serializer, ");
    out.append(write_naming(name, arm, tagged).as_str());
    out.append(", ");
    out.append(join(&fill_all(&inner_template(on_self), &arm.fields), "").as_str());
    out.append(")");
    out
}

fn write_unit(name: &str, arm: &Arm, tagged: bool) -> (r: String)
    ensures
        r@ == unit_text(name@, arm.deep_view(), tagged),
{
    let mut out = String::from_str("<SE as ::serde::Serializer>::serialize_unit");
    out.append(ending(tagged));
    out.append("(__serializer, ");
    out.append(write_naming(name, arm, tagged).as_str());
    out.append(")");
    out
}

fn write_handing(name: &str, arm: &Arm, tagged: bool, on_self: bool) -> (r: String)
    ensures
        r@ == handing_text(name@, arm.deep_view(), tagged, on_self),
{
    assert(arm.deep_view().fields.len() == arm.fields.len());
    match arm.shape {
        Shape::Named => write_compound(name, arm, tagged, on_self),
        Shape::Unnamed => {
            if arm.fields.len() == 0 {
                write_unit(name, arm, tagged)
            } else if arm.fields.len() == 1 {
                write_newtype(name, arm, tagged, on_self)
            } else {
                write_compound(name, arm, tagged, on_self)
            }
        },
        Shape::Unit => write_unit(name, arm, tagged),
    }
}

fn write_serialize_arm(name: &str, arm: &Arm) -> (r: String)
    ensures
        r@ == serialize_arm_text(name@, arm.deep_view()),
{
    let mut out = write_pattern(arm, Side::Single);
    out.append(" => { ");
    out.append(write_handing(name, arm, true, false).as_str());
    out.append(" },");
    out
}

impl SerializeBody {
    /// Writes the body of `serialize`.
    pub fn render(&self) -> (r: String)
        ensures
            r@ == serialize_body_text(self.deep_view()),
    {
        match &self.plan {
            Plan::Struct(arm) => write_handing(self.name.as_str(), arm, false, true),
            Plan::Enum(arms) => {
                let mut texts: Vec<String> = Vec::new();
                let mut i: usize = 0;
                while i < arms.len()
                    invariant
                        i <= arms.len(),
                        texts.len() == i,
                        arms.deep_view().len() == arms.len(),
                        forall|j: int|
                            0 <= j < i ==> texts.deep_view()[j] == serialize_arm_text(
                                self.name@,
                                arms.deep_view()[j],
                            ),
                    decreases arms.len() - i,
                {
                    let ghost before = texts.deep_view();
                    assert(arms.deep_view()[i as int] == arms[i as int].deep_view());
                    let next = write_serialize_arm(self.name.as_str(), &arms[i]);
                    texts.push(next);
                    assert(texts.deep_view() =~= before.push(next@));
                    i = i + 1;
                }
                assert(texts.deep_view() =~= Seq::new(
                    arms.deep_view().len(),
                    |i: int| serialize_arm_text(self.name@, arms.deep_view()[i]),
                ));
                write_match("self", &texts, "")
            },
        }
    }

    /// Writes the implementation of `Serialize` under `header`.
    pub fn render_impl(&self, header: &Header) -> (r: String)
        ensures
            r@ == serialize_impl_text(header.deep_view(), self.deep_view()),
    {
        let mut items = String::from_str(
            "fn serialize<SE>(&self, __serializer: SE) -> ::std::result::Result<SE::Ok, SE::Error> where SE: ::serde::Serializer, { ",
        );
        items.append(self.render().as_str());
        items.append(" }");
        write_impl(header, SERIALIZE_TARGET, items.as_str())
    }
}

} // verus!
