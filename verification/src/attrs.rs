//! Reading attributes: which fields and variants a derivation leaves out, and what a
//! type says about the signature of its implementations.

use vstd::prelude::*;
use vstd::string::*;
use crate::error::ConfigError;
use crate::error::ConfigErrorKind;
use crate::error::result_view;
use crate::grammar::generic_arguments;
use crate::grammar::constraints_in;
use crate::grammar::parameters_in;
use crate::grammar::parse_generic_arguments;
use crate::grammar::parse_generic_parameters;
use crate::grammar::parse_where_predicates;
use crate::model::Attribute;
use crate::model::AttributeView;
use crate::model::Constraint;
use crate::model::ConstraintView;
use crate::model::GenericParameter;
use crate::model::GenericParameterView;
use crate::text::same_text;
use crate::token::Delimiter;
use crate::token::find_item_end;
use crate::token::ident_is;
use crate::token::is_ident;
use crate::token::is_punct;
use crate::token::item_end;
use crate::token::punct_is;
use crate::token::render_tokens;
use crate::token::Token;
use crate::token::tokens_text;
use crate::token::TokenView;

verus! {

/// The name of the attribute that every derivation listens to.
pub const COMMON_ATTR_NAME: &'static str = "better_derive";

/// Whether a derivation that listens to `base` reads `attr`: it is a list, under the
/// common name or under `base`.
pub open spec fn applies(attr: AttributeView, base: Seq<char>) -> bool {
    attr.list is Some && (attr.name == COMMON_ATTR_NAME@ || attr.name == base)
}

/// Why the item at `from..end` is refused where only known keys may stand.
pub open spec fn item_fault(tokens: Seq<TokenView>, from: int, end: int) -> ConfigErrorKind {
    if from < end && tokens[from] is Ident {
        ConfigErrorKind::UnknownKey
    } else {
        ConfigErrorKind::MalformedOption
    }
}

/// Reads the items of a field's list from position `from` on, the first of them being
/// item number `index`: whether `skip` is among them, or the first item that is
/// anything else.
pub open spec fn skip_items(tokens: Seq<TokenView>, from: int, index: nat) -> Result<
    bool,
    (ConfigErrorKind, nat),
>
    decreases tokens.len() + 2 - from,
{
    if from < 0 || from >= tokens.len() {
        Ok(false)
    } else {
        let end = item_end(tokens, from, 0);
        if end == from + 1 && is_ident(tokens[from], "skip"@) {
            match skip_items(tokens, from + 2, index + 1) {
                Ok(_) => Ok(true),
                Err(fault) => Err(fault),
            }
        } else {
            Err((item_fault(tokens, from, end), index))
        }
    }
}

/// Reads the attributes of a field or variant from position `from` on: whether one that
/// applies says `skip`, or the first fault in one that applies.
pub open spec fn skip_marked(attrs: Seq<AttributeView>, base: Seq<char>, from: int) -> Result<
    bool,
    ConfigError,
>
    decreases attrs.len() - from,
{
    if from < 0 || from >= attrs.len() {
        Ok(false)
    } else if !applies(attrs[from], base) {
        skip_marked(attrs, base, from + 1)
    } else {
        match skip_items(attrs[from].list->0, 0, 0) {
            Err((kind, item)) => Err(
                ConfigError { kind, attribute: from as usize, item: item as usize },
            ),
            Ok(here) => match skip_marked(attrs, base, from + 1) {
                Ok(later) => Ok(here || later),
                Err(fault) => Err(fault),
            },
        }
    }
}

/// Tells whether a derivation that listens to `base_ident` reads `attr`.
pub fn attribute_applies(base_ident: &str, attr: &Attribute) -> (r: bool)
    ensures
        r == applies(attr.deep_view(), base_ident@),
{
    match &attr.list {
        Some(_) => same_text(attr.name.as_str(), COMMON_ATTR_NAME) || same_text(
            attr.name.as_str(),
            base_ident,
        ),
        None => false,
    }
}

fn item_fault_of(tokens: &Vec<Token>, from: usize, end: usize) -> (r: ConfigErrorKind)
    requires
        from <= end <= tokens.len(),
    ensures
        r == item_fault(tokens.deep_view(), from as int, end as int),
{
    if from < end {
        match &tokens[from] {
            Token::Ident(_) => ConfigErrorKind::UnknownKey,
            _ => ConfigErrorKind::MalformedOption,
        }
    } else {
        ConfigErrorKind::MalformedOption
    }
}

/// Reads one list of a field or variant: `Ok(true)` where it says `skip`, `Ok(false)`
/// where it is empty, and the first item that is anything but `skip` as a fault.
pub fn parse_skip_list(tokens: &Vec<Token>) -> (r: Result<bool, (ConfigErrorKind, usize)>)
    ensures
        match r {
            Ok(found) => skip_items(tokens.deep_view(), 0, 0) == Ok::<bool, (ConfigErrorKind, nat)>(found),
            Err((kind, item)) => skip_items(tokens.deep_view(), 0, 0) == Err::<bool, (ConfigErrorKind, nat)>((kind, item as nat)),
        },
{
    let ghost all = tokens.deep_view();
    let mut found = false;
    let mut from: usize = 0;
    let mut index: usize = 0;
    while from < tokens.len()
        invariant
            from <= tokens.len(),
            index <= from,
            all == tokens.deep_view(),
            skip_items(all, 0, 0) == match skip_items(all, from as int, index as nat) {
                Ok(later) => Ok::<bool, (ConfigErrorKind, nat)>(found || later),
                Err(fault) => Err(fault),
            },
        decreases tokens.len() - from,
    {
        let end = find_item_end(tokens, from);
        if end == from + 1 && ident_is(&tokens[from], "skip") {
            proof {
                assert(skip_items(all, from as int, index as nat) == match skip_items(
                    all,
                    from + 2,
                    index as nat + 1,
                ) {
                    Ok(_) => Ok::<bool, (ConfigErrorKind, nat)>(true),
                    Err(fault) => Err(fault),
                });
                if end == tokens.len() {
                    assert(skip_items(all, from + 2, index as nat + 1) == skip_items(
                        all,
                        end as int,
                        index as nat + 1,
                    ));
                }
            }
            found = true;
            from = if end < tokens.len() {
                end + 1
            } else {
                end
            };
            index = index + 1;
        } else {
            return Err((item_fault_of(tokens, from, end), index));
        }
    }
    Ok(found)
}

/// Parses `#[name(skip)]` on a field or variant, for `name` the common attribute or
/// `base_ident`: whether the field or variant is to be left out.
pub fn parse_field_attrs(base_ident: &str, attrs: &Vec<Attribute>) -> (r: Result<bool, ConfigError>)
    ensures
        r == skip_marked(attrs.deep_view(), base_ident@, 0),
{
    let ghost all = attrs.deep_view();
    let mut found = false;
    let mut i: usize = 0;
    while i < attrs.len()
        invariant
            i <= attrs.len(),
            all == attrs.deep_view(),
            skip_marked(all, base_ident@, 0) == match skip_marked(all, base_ident@, i as int) {
                Ok(later) => Ok::<bool, ConfigError>(found || later),
                Err(fault) => Err(fault),
            },
        decreases attrs.len() - i,
    {
        if attribute_applies(base_ident, &attrs[i]) {
            match &attrs[i].list {
                Some(tokens) => {
                    match parse_skip_list(tokens) {
                        Ok(here) => {
                            found = found || here;
                        },
                        Err((kind, item)) => {
                            return Err(ConfigError { kind, attribute: i, item });
                        },
                    }
                },
                None => {},
            }
        }
        i = i + 1;
    }
    Ok(found)
}

/// What the attributes on a type say about the implementation's signature. What is
/// `None` is left to inference.
#[derive(Clone, Debug, PartialEq, Eq)]
pub struct AttributeConfig {
    /// The generic parameters of the implementation.
    pub impl_generics: Option<Vec<GenericParameter>>,
    /// The generic arguments that the type is named with.
    pub type_generics: Option<Vec<String>>,
    /// The constraints of the implementation, all of them.
    pub constraints: Option<Vec<Constraint>>,
}

/// The mathematical value of an [`AttributeConfig`].
pub struct AttributeConfigView {
    pub impl_generics: Option<Seq<GenericParameterView>>,
    pub type_generics: Option<Seq<Seq<char>>>,
    pub constraints: Option<Seq<ConstraintView>>,
}

impl DeepView for AttributeConfig {
    type V = AttributeConfigView;

    open spec fn deep_view(&self) -> AttributeConfigView {
        AttributeConfigView {
            impl_generics: self.impl_generics.deep_view(),
            type_generics: self.type_generics.deep_view(),
            constraints: self.constraints.deep_view(),
        }
    }
}

/// One option of a type's attribute.
#[derive(Clone, Debug, PartialEq, Eq)]
pub enum ToplevelAttr {
    /// `impl_gen = <...>`
    ImplGen(Vec<GenericParameter>),
    /// `type_gen = <...>`
    TypeGen(Vec<String>),
    /// `bound = (...)` or `bounds = (...)`
    WhereClause(Vec<Constraint>),
}

/// The mathematical value of a [`ToplevelAttr`].
pub enum ToplevelAttrView {
    ImplGen(Seq<GenericParameterView>),
    TypeGen(Seq<Seq<char>>),
    WhereClause(Seq<ConstraintView>),
}

impl DeepView for ToplevelAttr {
    type V = ToplevelAttrView;

    open spec fn deep_view(&self) -> ToplevelAttrView {
        match self {
            ToplevelAttr::ImplGen(params) => ToplevelAttrView::ImplGen(params.deep_view()),
            ToplevelAttr::TypeGen(args) => ToplevelAttrView::TypeGen(args.deep_view()),
            ToplevelAttr::WhereClause(constraints) => ToplevelAttrView::WhereClause(
                constraints.deep_view(),
            ),
        }
    }
}

/// The configuration that says nothing.
pub open spec fn no_config() -> AttributeConfigView {
    AttributeConfigView { impl_generics: None, type_generics: None, constraints: None }
}

/// `config` after `option` was read: the option takes the place of an earlier one of
/// its kind.
pub open spec fn with_option(
    config: AttributeConfigView,
    option: ToplevelAttrView,
) -> AttributeConfigView {
    match option {
        ToplevelAttrView::ImplGen(params) => AttributeConfigView {
            impl_generics: Some(params),
            ..config
        },
        ToplevelAttrView::TypeGen(args) => AttributeConfigView { type_generics: Some(args), ..config },
        ToplevelAttrView::WhereClause(constraints) => AttributeConfigView {
            constraints: Some(constraints),
            ..config
        },
    }
}

/// Whether `key` names the option that overrides the constraints.
pub open spec fn is_bound_key(key: Seq<char>) -> bool {
    key == "bound"@ || key == "bounds"@
}

/// The option written at `from..end`: a key, `=`, and a value in the grammar that the
/// key asks for.
pub open spec fn toplevel_option(tokens: Seq<TokenView>, from: int, end: int) -> Result<
    ToplevelAttrView,
    ConfigErrorKind,
> {
    if !(0 <= from < end <= tokens.len()) {
        Err(ConfigErrorKind::MalformedOption)
    } else {
        match tokens[from] {
            TokenView::Ident(key) => {
                if !(key == "impl_gen"@ || key == "type_gen"@ || is_bound_key(key)) {
                    Err(ConfigErrorKind::UnknownKey)
                } else if !(from + 1 < end && is_punct(tokens[from + 1], "="@)) {
                    Err(ConfigErrorKind::MalformedOption)
                } else if key == "impl_gen"@ {
                    match parameters_in(tokens_text(tokens.subrange(from + 2, end))) {
                        Some(params) => Ok(ToplevelAttrView::ImplGen(params)),
                        None => Err(ConfigErrorKind::MalformedGenerics),
                    }
                } else if key == "type_gen"@ {
                    match generic_arguments(tokens_text(tokens.subrange(from + 2, end))) {
                        Some(args) => Ok(ToplevelAttrView::TypeGen(args)),
                        None => Err(ConfigErrorKind::MalformedArguments),
                    }
                } else if end == from + 3 {
                    match tokens[from + 2] {
                        TokenView::Group(Delimiter::Parenthesis, inner) => match constraints_in(
                            inner,
                        ) {
                            Some(constraints) => Ok(ToplevelAttrView::WhereClause(constraints)),
                            None => Err(ConfigErrorKind::MalformedConstraints),
                        },
                        _ => Err(ConfigErrorKind::MalformedConstraints),
                    }
                } else {
                    Err(ConfigErrorKind::MalformedConstraints)
                }
            },
            _ => Err(ConfigErrorKind::MalformedOption),
        }
    }
}

/// Reads the options of one list from position `from` on, the first of them being
/// option number `index`, into `config`; or the first option that is refused.
pub open spec fn toplevel_options(
    tokens: Seq<TokenView>,
    from: int,
    index: nat,
    config: AttributeConfigView,
) -> Result<AttributeConfigView, (ConfigErrorKind, nat)>
    decreases tokens.len() - from,
{
    if from < 0 || from >= tokens.len() {
        Ok(config)
    } else {
        let end = item_end(tokens, from, 0);
        let next = if from <= end < tokens.len() {
            end + 1
        } else {
            tokens.len() as int
        };
        match toplevel_option(tokens, from, end) {
            Err(kind) => Err((kind, index)),
            Ok(option) => toplevel_options(tokens, next, index + 1, with_option(config, option)),
        }
    }
}

/// Reads the attributes of a type from position `from` on into `config`: every list
/// that applies, in order; or the first fault.
pub open spec fn toplevel_config(
    attrs: Seq<AttributeView>,
    base: Seq<char>,
    from: int,
    config: AttributeConfigView,
) -> Result<AttributeConfigView, ConfigError>
    decreases attrs.len() - from,
{
    if from < 0 || from >= attrs.len() {
        Ok(config)
    } else if !applies(attrs[from], base) {
        toplevel_config(attrs, base, from + 1, config)
    } else {
        match toplevel_options(attrs[from].list->0, 0, 0, config) {
            Err((kind, item)) => Err(
                ConfigError { kind, attribute: from as usize, item: item as usize },
            ),
            Ok(next) => toplevel_config(attrs, base, from + 1, next),
        }
    }
}

impl AttributeConfig {
    /// The configuration that says nothing.
    pub fn new() -> (r: AttributeConfig)
        ensures
            r.deep_view() == no_config(),
    {
        AttributeConfig { impl_generics: None, type_generics: None, constraints: None }
    }

    /// Takes `option` into the configuration, in the place of an earlier one of its kind.
    pub fn apply(self, option: ToplevelAttr) -> (r: AttributeConfig)
        ensures
            r.deep_view() == with_option(self.deep_view(), option.deep_view()),
    {
        match option {
            ToplevelAttr::ImplGen(params) => AttributeConfig {
                impl_generics: Some(params),
                type_generics: self.type_generics,
                constraints: self.constraints,
            },
            ToplevelAttr::TypeGen(args) => AttributeConfig {
                impl_generics: self.impl_generics,
                type_generics: Some(args),
                constraints: self.constraints,
            },
            ToplevelAttr::WhereClause(constraints) => AttributeConfig {
                impl_generics: self.impl_generics,
                type_generics: self.type_generics,
                constraints: Some(constraints),
            },
        }
    }
}

impl ToplevelAttr {
    /// Reads the option written at `from..end` of `tokens`.
    pub fn parse(tokens: &Vec<Token>, from: usize, end: usize) -> (r: Result<
        ToplevelAttr,
        ConfigErrorKind,
    >)
        ensures
            result_view(r) == toplevel_option(tokens.deep_view(), from as int, end as int),
    {
        if !(from < end && end <= tokens.len()) {
            return Err(ConfigErrorKind::MalformedOption);
        }
        match &tokens[from] {
            Token::Ident(key) => {
                let implementation = same_text(key.as_str(), "impl_gen");
                let naming = same_text(key.as_str(), "type_gen");
                let bound = same_text(key.as_str(), "bound") || same_text(key.as_str(), "bounds");
                if !(implementation || naming || bound) {
                    return Err(ConfigErrorKind::UnknownKey);
                }
                if !(from + 1 < end && punct_is(&tokens[from + 1], "=")) {
                    return Err(ConfigErrorKind::MalformedOption);
                }
                if implementation {
                    let value = render_tokens(tokens, from + 2, end);
                    match parse_generic_parameters(value.as_str()) {
                        Some(params) => Ok(ToplevelAttr::ImplGen(params)),
                        None => Err(ConfigErrorKind::MalformedGenerics),
                    }
                } else if naming {
                    let value = render_tokens(tokens, from + 2, end);
                    match parse_generic_arguments(value.as_str()) {
                        Some(args) => Ok(ToplevelAttr::TypeGen(args)),
                        None => Err(ConfigErrorKind::MalformedArguments),
                    }
                } else if end - from == 3 {
                    match &tokens[from + 2] {
                        Token::Group(Delimiter::Parenthesis, inner) => {
                            match parse_where_predicates(inner.as_str()) {
                                Some(constraints) => Ok(ToplevelAttr::WhereClause(constraints)),
                                None => Err(ConfigErrorKind::MalformedConstraints),
                            }
                        },
                        _ => Err(ConfigErrorKind::MalformedConstraints),
                    }
                } else {
                    Err(ConfigErrorKind::MalformedConstraints)
                }
            },
            _ => Err(ConfigErrorKind::MalformedOption),
        }
    }
}

/// Reads the options of one list into `config`.
pub fn parse_option_list(tokens: &Vec<Token>, config: AttributeConfig) -> (r: Result<
    AttributeConfig,
    (ConfigErrorKind, usize),
>)
    ensures
        match r {
            Ok(read) => toplevel_options(tokens.deep_view(), 0, 0, config.deep_view()) == Ok::<
                AttributeConfigView,
                (ConfigErrorKind, nat),
            >(read.deep_view()),
            Err((kind, item)) => toplevel_options(tokens.deep_view(), 0, 0, config.deep_view())
                == Err::<AttributeConfigView, (ConfigErrorKind, nat)>((kind, item as nat)),
        },
{
    let ghost all = tokens.deep_view();
    let ghost start = config.deep_view();
    let mut current = config;
    let mut from: usize = 0;
    let mut index: usize = 0;
    while from < tokens.len()
        invariant
            from <= tokens.len(),
            index <= from,
            all == tokens.deep_view(),
            start == config.deep_view(),
            toplevel_options(all, 0, 0, start) == toplevel_options(
                all,
                from as int,
                index as nat,
                current.deep_view(),
            ),
        decreases tokens.len() - from,
    {
        let end = find_item_end(tokens, from);
        match ToplevelAttr::parse(tokens, from, end) {
            Err(kind) => {
                return Err((kind, index));
            },
            Ok(option) => {
                current = current.apply(option);
            },
        }
        from = if end < tokens.len() {
            end + 1
        } else {
            end
        };
        index = index + 1;
    }
    Ok(current)
}

/// Reads what the attributes on a type say about the implementation's signature: every
/// list under the common name or under `base_ident`, in order, a later option taking the
/// place of an earlier one of its kind.
pub fn parse_toplevel_attrs(base_ident: &str, attrs: &Vec<Attribute>) -> (r: Result<
    AttributeConfig,
    ConfigError,
>)
    ensures
        result_view(r) == toplevel_config(attrs.deep_view(), base_ident@, 0, no_config()),
{
    let ghost all = attrs.deep_view();
    let mut config = AttributeConfig::new();
    let mut i: usize = 0;
    while i < attrs.len()
        invariant
            i <= attrs.len(),
            all == attrs.deep_view(),
            toplevel_config(all, base_ident@, 0, no_config()) == toplevel_config(
                all,
                base_ident@,
                i as int,
                config.deep_view(),
            ),
        decreases attrs.len() - i,
    {
        if attribute_applies(base_ident, &attrs[i]) {
            match &attrs[i].list {
                Some(tokens) => {
                    match parse_option_list(tokens, config) {
                        Ok(read) => {
                            config = read;
                        },
                        Err((kind, item)) => {
                            return Err(ConfigError { kind, attribute: i, item });
                        },
                    }
                },
                None => {},
            }
        }
        i = i + 1;
    }
    Ok(config)
}

} // verus!
