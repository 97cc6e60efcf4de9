//! The item that the generator is applied to: its name, its shape, its
//! fields and its attributes, and how `syn` reads one from a token stream.

use crate::tokens::{stream_tokens, Token};
use proc_macro2::TokenStream;
use quote::ToTokens;
use vstd::prelude::*;

verus! {

/// What kind of definition an item is.
#[derive(Clone, Copy, Debug, PartialEq, Eq, Structural)]
pub enum Shape {
    /// A struct with named fields, `struct S { a: A }`; it may have none.
    NamedStruct,
    /// A struct with unnamed fields, `struct S(A);`.
    TupleStruct,
    /// A struct without fields, `struct S;`.
    UnitStruct,
    /// An enum.
    Enum,
    /// A union.
    Union,
    /// An item of another kind: a function, a module, a trait and the like.
    Other,
}

/// One field of a struct.
#[derive(Clone, Debug)]
pub struct Field {
    /// The field's name: one identifier. A field of a tuple struct has none.
    pub name: Option<TokenStream>,
    /// The tokens of the field's type.
    pub ty: TokenStream,
}

/// A field as the contracts see it.
pub struct FieldView {
    pub name: Option<Seq<Token>>,
    pub ty: Seq<Token>,
}

impl FieldView {
    /// The tokens that stand for the field where its name is asked for: the
    /// name, or nothing for a field without one.
    pub open spec fn name_tokens(self) -> Seq<Token> {
        match self.name {
            Some(name) => name,
            None => Seq::empty(),
        }
    }
}

impl View for Field {
    type V = FieldView;

    open spec fn view(&self) -> FieldView {
        FieldView {
            name: match self.name {
                Some(name) => Some(stream_tokens(name)),
                None => None,
            },
            ty: stream_tokens(self.ty),
        }
    }
}

impl DeepView for Field {
    type V = FieldView;

    open spec fn deep_view(&self) -> FieldView {
        self@
    }
}

/// One outer attribute of an item, such as `#[allow(dead_code)]`.
#[derive(Clone, Debug)]
pub struct Attribute {
    /// The identifiers of the attribute's path, each by its text: `allow`
    /// for `#[allow(dead_code)]`, `rustfmt` and `skip` for `#[rustfmt::skip]`.
    pub path: Vec<String>,
    /// All tokens of the attribute, from `#` to the closing bracket.
    pub tokens: TokenStream,
}

/// An attribute as the contracts see it.
pub struct AttributeView {
    pub path: Seq<Seq<char>>,
    pub tokens: Seq<Token>,
}

impl View for Attribute {
    type V = AttributeView;

    open spec fn view(&self) -> AttributeView {
        AttributeView { path: self.path.deep_view(), tokens: stream_tokens(self.tokens) }
    }
}

impl DeepView for Attribute {
    type V = AttributeView;

    open spec fn deep_view(&self) -> AttributeView {
        self@
    }
}

impl AttributeView {
    /// Whether the attribute sets the level of a lint: its path is the one
    /// identifier `allow`, `warn`, `deny` or `forbid`.
    pub open spec fn sets_lint_level(self) -> bool {
        self.path.len() == 1 && (self.path[0] == "allow"@ || self.path[0] == "warn"@
            || self.path[0] == "deny"@ || self.path[0] == "forbid"@)
    }
}

impl Attribute {
    /// Whether the attribute sets the level of a lint: its path is the one
    /// identifier `allow`, `warn`, `deny` or `forbid`.
    pub fn sets_lint_level(&self) -> (sets: bool)
        ensures
            sets == self@.sets_lint_level(),
    {
        if self.path.len() != 1 {
            return false;
        }
        let name = &self.path[0];
        let allow = "allow".to_owned();
        let warn = "warn".to_owned();
        let deny = "deny".to_owned();
        let forbid = "forbid".to_owned();
        *name == allow || *name == warn || *name == deny || *name == forbid
    }
}

/// A struct, enum or union definition, as far as the generator reads it.
#[derive(Clone, Debug)]
pub struct Item {
    /// The outer attributes, in the order in which they are written.
    pub attrs: Vec<Attribute>,
    /// The item's name: one identifier.
    pub name: TokenStream,
    /// What kind of definition it is.
    pub shape: Shape,
    /// The fields of a struct or a union, in the order in which they are
    /// declared; empty for an enum.
    pub fields: Vec<Field>,
}

/// An item as the contracts see it.
pub struct ItemView {
    pub attrs: Seq<AttributeView>,
    pub name: Seq<Token>,
    pub shape: Shape,
    pub fields: Seq<FieldView>,
}

impl ItemView {
    /// Whether each field has its name. It holds of an item without fields.
    pub open spec fn all_fields_named(self) -> bool {
        forall|i: int| 0 <= i < self.fields.len() ==> (#[trigger] self.fields[i]).name is Some
    }

    /// A struct of any form: with named fields, with unnamed fields, or
    /// without fields.
    pub open spec fn is_struct(self) -> bool {
        self.shape == Shape::NamedStruct || self.shape == Shape::TupleStruct || self.shape
            == Shape::UnitStruct
    }

    /// A record: a struct with named fields, each of which has its name.
    pub open spec fn is_record(self) -> bool {
        self.shape == Shape::NamedStruct && self.all_fields_named()
    }
}

impl View for Item {
    type V = ItemView;

    open spec fn view(&self) -> ItemView {
        ItemView {
            attrs: self.attrs.deep_view(),
            name: stream_tokens(self.name),
            shape: self.shape,
            fields: self.fields.deep_view(),
        }
    }
}

impl Item {
    /// Whether the item is a record: a struct with named fields, each of
    /// which has its name.
    pub fn is_record(&self) -> (record: bool)
        ensures
            record == self@.is_record(),
    {
        match self.shape {
            Shape::NamedStruct => self.all_fields_named(),
            _ => false,
        }
    }

    /// Whether the item is a struct of any form.
    pub fn is_struct(&self) -> (is_struct: bool)
        ensures
            is_struct == self@.is_struct(),
    {
        match self.shape {
            Shape::NamedStruct | Shape::TupleStruct | Shape::UnitStruct => true,
            _ => false,
        }
    }

    /// Whether each field has its name.
    pub fn all_fields_named(&self) -> (named: bool)
        ensures
            named == self@.all_fields_named(),
    {
        let mut i: usize = 0;
        while i < self.fields.len()
            invariant
                i <= self.fields.len(),
                forall|j: int| 0 <= j < i ==> (#[trigger] self.fields.deep_view()[j]).name is Some,
            decreases self.fields.len() - i,
        {
            if self.fields[i].name.is_none() {
                assert(self.fields.deep_view()[i as int].name is None);
                return false;
            }
            i += 1;
        }
        true
    }
}

#[verifier::external_type_specification]
#[verifier::external_body]
pub struct ExDeriveInput(syn::DeriveInput);

#[verifier::external_type_specification]
#[verifier::external_body]
pub struct ExSynError(syn::Error);

/// What `syn::parse2` reads a sequence of tokens as: the item that they
/// define, or nothing where they are no struct, enum or union definition.
pub uninterp spec fn parsed_item(tokens: Seq<Token>) -> Option<ItemView>;

/// What a `syn::DeriveInput` holds of a definition, as far as the generator
/// reads it: its attributes, its name, its shape and its fields.
pub uninterp spec fn described_item(input: syn::DeriveInput) -> ItemView;

/// `syn::parse2` at `syn::DeriveInput`: reads the tokens as a struct, enum
/// or union definition. Whether it succeeds, and what the definition that it
/// returns holds, depends on the tokens alone; nothing is said of the error.
/// The parser answers every stream: what it cannot read it reports as an
/// error, and a literal of a form that it does not know it keeps verbatim.
#[verifier::external_body]
fn parse_derive_input(tokens: TokenStream) -> (r: Result<syn::DeriveInput, syn::Error>)
    ensures
        match r {
            Ok(input) => parsed_item(stream_tokens(tokens)) == Some(described_item(input)),
            Err(_) => parsed_item(stream_tokens(tokens)) is None,
        },
{
    syn::parse2::<syn::DeriveInput>(tokens)
}

/// The `data` of a `syn::DeriveInput`, by the variants of `syn::Data` and
/// `syn::Fields`: the shape that the input holds.
#[verifier::external_body]
fn input_shape(input: &syn::DeriveInput) -> (shape: Shape)
    ensures
        shape == described_item(*input).shape,
{
    match &input.data {
        syn::Data::Struct(data) => match &data.fields {
            syn::Fields::Named(_) => Shape::NamedStruct,
            syn::Fields::Unnamed(_) => Shape::TupleStruct,
            syn::Fields::Unit => Shape::UnitStruct,
        },
        syn::Data::Enum(_) => Shape::Enum,
        syn::Data::Union(_) => Shape::Union,
    }
}

/// The `ident` of a `syn::DeriveInput`, made into tokens by
/// `quote::ToTokens::to_token_stream`: the name that the input holds.
#[verifier::external_body]
fn input_name(input: &syn::DeriveInput) -> (name: TokenStream)
    ensures
        stream_tokens(name) == described_item(*input).name,
{
    input.ident.to_token_stream()
}

/// The fields of a `syn::DeriveInput` that is a struct or a union, in their
/// order, each with its `ident` and its `ty` made into tokens by
/// `quote::ToTokens::to_token_stream`; none for an enum. These are the fields
/// that the input holds.
#[verifier::external_body]
fn input_fields(input: &syn::DeriveInput) -> (fields: Vec<Field>)
    ensures
        fields.deep_view() == described_item(*input).fields,
{
    let field = |f: &syn::Field| Field {
        name: f.ident.as_ref().map(ToTokens::to_token_stream),
        ty: f.ty.to_token_stream(),
    };
    match &input.data {
        syn::Data::Struct(data) => data.fields.iter().map(field).collect(),
        syn::Data::Enum(_) => Vec::new(),
        syn::Data::Union(data) => data.fields.named.iter().map(field).collect(),
    }
}

/// The `attrs` of a `syn::DeriveInput` in their order, each made into tokens
/// by `quote::ToTokens::to_token_stream`, with the identifiers of the
/// segments of its `path()`, each by the text that `Ident::to_string` gives.
/// These are the attributes that the input holds.
#[verifier::external_body]
fn input_attrs(input: &syn::DeriveInput) -> (attrs: Vec<Attribute>)
    ensures
        attrs.deep_view() == described_item(*input).attrs,
{
    input.attrs.iter().map(
        |a| Attribute {
            path: a.path().segments.iter().map(|s| s.ident.to_string()).collect(),
            tokens: a.to_token_stream(),
        },
    ).collect()
}

/// The text by which a `syn::Error` reports itself: that of its first
/// message.
pub uninterp spec fn error_message(error: syn::Error) -> Seq<char>;

/// `to_string` of a `syn::Error`, which writes the text of the error's first
/// message.
#[verifier::external_body]
fn error_text(error: &syn::Error) -> (text: String)
    ensures
        text@ == error_message(*error),
{
    error.to_string()
}

/// What an attribute of the compiler can stand on: an item, or the member
/// of a trait or of an impl.
#[derive(Clone, Debug)]
pub enum Annotatable {
    /// An item.
    Item(Item),
    /// A member of a trait.
    TraitItem,
    /// A member of an impl.
    ImplItem,
}

/// What an attribute stands on, as the contracts see it.
pub enum AnnotatableView {
    Item(ItemView),
    TraitItem,
    ImplItem,
}

impl View for Annotatable {
    type V = AnnotatableView;

    open spec fn view(&self) -> AnnotatableView {
        match self {
            Annotatable::Item(item) => AnnotatableView::Item(item@),
            Annotatable::TraitItem => AnnotatableView::TraitItem,
            Annotatable::ImplItem => AnnotatableView::ImplItem,
        }
    }
}

/// Why the derive generates no conversions for an input.
#[derive(Debug)]
pub enum DeriveError {
    /// The tokens are no struct, enum or union definition; `syn` says why.
    Syntax(syn::Error),
    /// The item is no struct.
    NotAStruct,
    /// The item is a struct whose fields have no names.
    UnnamedFields,
}

impl DeriveError {
    /// The text by which the error is reported: the parser's own for
    /// `Syntax`.
    pub open spec fn message_text(self) -> Seq<char> {
        match self {
            DeriveError::Syntax(error) => error_message(error),
            DeriveError::NotAStruct => "`HListSupport` may only be applied to structs"@,
            DeriveError::UnnamedFields => {
                "`HListSupport` may only be applied to structs with named fields"@
            },
        }
    }

    /// The text by which the error is reported.
    pub fn message(&self) -> (text: String)
        ensures
            text@ == self.message_text(),
    {
        match self {
            DeriveError::Syntax(error) => error_text(error),
            DeriveError::NotAStruct => "`HListSupport` may only be applied to structs".to_owned(),
            DeriveError::UnnamedFields => {
                "`HListSupport` may only be applied to structs with named fields".to_owned()
            },
        }
    }
}

/// Collects what the generator reads of a definition.
fn describe(input: &syn::DeriveInput) -> (item: Item)
    ensures
        item@ == described_item(*input),
{
    Item {
        attrs: input_attrs(input),
        name: input_name(input),
        shape: input_shape(input),
        fields: input_fields(input),
    }
}

/// Reads a token stream as the definition of a struct, an enum or a union.
///
/// The result is the item that `syn` reads from the tokens, or
/// `DeriveError::Syntax` where `syn` reads none.
pub fn parse_item(tokens: TokenStream) -> (r: Result<Item, DeriveError>)
    ensures
        match r {
            Ok(item) => parsed_item(stream_tokens(tokens)) == Some(item@),
            Err(error) => error is Syntax && parsed_item(stream_tokens(tokens)) is None,
        },
{
    match parse_derive_input(tokens) {
        Ok(input) => Ok(describe(&input)),
        Err(error) => Err(DeriveError::Syntax(error)),
    }
}

} // verus!
