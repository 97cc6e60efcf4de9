//! The attribute form of the generator: `HListSupport` put on an item.
//!
//! Where the derive gives one stream, the attribute hands each conversion on
//! as an item of its own, and each inherits the lint attributes of the item
//! that it was made for. The struct is built by naming each field,
//! `S { a: a, b: b }`.

use crate::derive::{allow_dead_code, allow_dead_code_tokens, conversions, conversions_of, field_name};
use crate::item::{
    Annotatable, AnnotatableView, Attribute, AttributeView, Field, FieldView, Item, ItemView,
    Shape,
};
use crate::tokens::{
    append, empty_stream, punct, push_punct, stream_tokens, tokens_of_each, Spacing, Token,
};
use proc_macro2::TokenStream;
use vstd::prelude::*;

verus! {

/// What initialises one field from the variable of its name: `a: a`.
pub open spec fn field_init_tokens(field: FieldView) -> Seq<Token> {
    field.name_tokens() + seq![punct(':')] + field.name_tokens()
}

/// What stands between the braces of the expression that builds the struct
/// from variables named as its fields are: `a: a` for each field, with a
/// comma between each two.
pub open spec fn struct_field_init_tokens(fields: Seq<FieldView>) -> Seq<Token>
    decreases fields.len(),
{
    if fields.len() == 0 {
        Seq::empty()
    } else if fields.len() == 1 {
        field_init_tokens(fields[0])
    } else {
        struct_field_init_tokens(fields.drop_last()) + seq![punct(',')] + field_init_tokens(
            fields.last(),
        )
    }
}

/// The tokens of those attributes among `attrs` that set the level of a
/// lint, in their order.
pub open spec fn lint_attrs_tokens(attrs: Seq<AttributeView>) -> Seq<Token>
    decreases attrs.len(),
{
    if attrs.len() == 0 {
        Seq::empty()
    } else if attrs.last().sets_lint_level() {
        lint_attrs_tokens(attrs.drop_last()) + attrs.last().tokens
    } else {
        lint_attrs_tokens(attrs.drop_last())
    }
}

/// An item that the generator has made: its own outer attributes, and the
/// tokens that follow them.
#[derive(Clone, Debug)]
pub struct NewItem {
    pub attrs: TokenStream,
    pub body: TokenStream,
}

/// A generated item as the contracts see it.
pub struct NewItemView {
    pub attrs: Seq<Token>,
    pub body: Seq<Token>,
}

impl View for NewItem {
    type V = NewItemView;

    open spec fn view(&self) -> NewItemView {
        NewItemView { attrs: stream_tokens(self.attrs), body: stream_tokens(self.body) }
    }
}

/// A generated item as it is handed on: behind its own attributes stand the
/// attributes of the item it was made for that set the level of a lint, so
/// that the generated code is linted as that item is.
pub open spec fn pushed_item_tokens(existing: ItemView, new_item: NewItemView) -> Seq<Token> {
    new_item.attrs + lint_attrs_tokens(existing.attrs) + new_item.body
}

/// What the attribute hands on for an item: the three conversions, each with
/// `#[allow(dead_code)]` and the lint attributes of the item.
pub open spec fn derived_items_tokens(item: ItemView) -> Seq<Seq<Token>> {
    let made = conversions_of(item, struct_field_init_tokens(item.fields));
    seq![
        pushed_item_tokens(
            item,
            NewItemView { attrs: allow_dead_code_tokens(), body: made.from_hlist },
        ),
        pushed_item_tokens(
            item,
            NewItemView { attrs: allow_dead_code_tokens(), body: made.to_hlist },
        ),
        pushed_item_tokens(
            item,
            NewItemView { attrs: allow_dead_code_tokens(), body: made.into_hlist },
        ),
    ]
}

/// Why the attribute generates nothing.
#[derive(Clone, Copy, Debug, PartialEq, Eq, Structural)]
pub enum ExpandError {
    /// The attribute stands on what is no item: a member of a trait or of an
    /// impl.
    NotAStructItem,
    /// The item is no struct with fields in braces.
    NotAStruct,
    /// A field of the struct has no name.
    UnnamedFields,
}

impl ExpandError {
    /// The text by which the error is reported.
    pub open spec fn message_text(self) -> Seq<char> {
        match self {
            ExpandError::NotAStructItem => "`HListSupport` may only be applied to struct items"@,
            ExpandError::NotAStruct => "`HListSupport` may only be applied to structs"@,
            ExpandError::UnnamedFields => {
                "`HListSupport` may only be applied to structs with named fields"@
            },
        }
    }

    /// The text by which the error is reported.
    pub fn message(&self) -> (text: String)
        ensures
            text@ == self.message_text(),
    {
        match self {
            ExpandError::NotAStructItem => {
                "`HListSupport` may only be applied to struct items".to_owned()
            },
            ExpandError::NotAStruct => "`HListSupport` may only be applied to structs".to_owned(),
            ExpandError::UnnamedFields => {
                "`HListSupport` may only be applied to structs with named fields".to_owned()
            },
        }
    }
}

/// Why the attribute generates nothing for what it stands on, if anything
/// stands against it. Only a struct with fields in braces, each with its
/// name, is taken.
pub open spec fn expand_refusal(annotated: AnnotatableView) -> Option<ExpandError> {
    match annotated {
        AnnotatableView::Item(item) => if item.shape != Shape::NamedStruct {
            Some(ExpandError::NotAStruct)
        } else if !item.all_fields_named() {
            Some(ExpandError::UnnamedFields)
        } else {
            None
        },
        _ => Some(ExpandError::NotAStructItem),
    }
}

/// What the attribute hands on for what it stands on: the three conversions
/// of an item, and nothing for what is no item.
pub open spec fn expanded_items_tokens(annotated: AnnotatableView) -> Seq<Seq<Token>> {
    match annotated {
        AnnotatableView::Item(item) => derived_items_tokens(item),
        _ => Seq::empty(),
    }
}

/// Builds what stands between the braces of the expression that builds the
/// struct: `a: a` for each field.
pub fn struct_field_init(fields: &[Field]) -> (out: TokenStream)
    ensures
        stream_tokens(out) == struct_field_init_tokens(fields.deep_view()),
{
    let mut out = empty_stream();
    let mut i: usize = 0;
    while i < fields.len()
        invariant
            i <= fields.len(),
            stream_tokens(out) == struct_field_init_tokens(fields.deep_view().take(i as int)),
        decreases fields.len() - i,
    {
        if i > 0 {
            push_punct(&mut out, ',', Spacing::Alone);
        }
        append(&mut out, field_name(&fields[i]));
        push_punct(&mut out, ':', Spacing::Alone);
        append(&mut out, field_name(&fields[i]));
        proof {
            let before = fields.deep_view().take(i as int);
            let now = fields.deep_view().take(i + 1);
            assert(now.drop_last() =~= before);
        }
        i += 1;
    }
    proof {
        assert(fields.deep_view().take(i as int) =~= fields.deep_view());
    }
    out
}

/// Collects the attributes among `attrs` that set the level of a lint.
fn lint_attrs(attrs: &Vec<Attribute>) -> (out: TokenStream)
    ensures
        stream_tokens(out) == lint_attrs_tokens(attrs.deep_view()),
{
    let mut out = empty_stream();
    let mut i: usize = 0;
    while i < attrs.len()
        invariant
            i <= attrs.len(),
            stream_tokens(out) == lint_attrs_tokens(attrs.deep_view().take(i as int)),
        decreases attrs.len() - i,
    {
        proof {
            let before = attrs.deep_view().take(i as int);
            let now = attrs.deep_view().take(i + 1);
            assert(now.drop_last() =~= before);
        }
        if attrs[i].sets_lint_level() {
            append(&mut out, attrs[i].tokens.clone());
        }
        i += 1;
    }
    proof {
        assert(attrs.deep_view().take(i as int) =~= attrs.deep_view());
    }
    out
}

/// Hands a generated item on. The new item inherits the lint attributes of
/// the existing item from which it was derived: they stand behind its own
/// attributes, so that they control how the generated code is linted.
pub fn push_new_item(push: &mut Vec<TokenStream>, existing_item: &Item, new_item: NewItem)
    ensures
        tokens_of_each(final(push)@) == tokens_of_each(old(push)@).push(
            pushed_item_tokens(existing_item@, new_item@),
        ),
{
    let mut tokens = new_item.attrs;
    append(&mut tokens, lint_attrs(&existing_item.attrs));
    append(&mut tokens, new_item.body);
    push.push(tokens);
}

/// Generates the conversions `FromHList`, `ToHList` and `IntoHList` of an
/// item whose fields all have names and hands them on, in this order, each
/// with `#[allow(dead_code)]` and the lint attributes of the item.
pub fn derive_as_hlist(push: &mut Vec<TokenStream>, item: &Item)
    requires
        item@.all_fields_named(),
    ensures
        tokens_of_each(final(push)@) == tokens_of_each(old(push)@) + derived_items_tokens(item@),
{
    let names = struct_field_init(item.fields.as_slice());
    let (from_hlist, to_hlist, into_hlist) = conversions(item, names);
    push_new_item(push, item, NewItem { attrs: allow_dead_code(), body: from_hlist });
    push_new_item(push, item, NewItem { attrs: allow_dead_code(), body: to_hlist });
    push_new_item(push, item, NewItem { attrs: allow_dead_code(), body: into_hlist });
}

/// Handles the attribute `HListSupport` by generating the conversions
/// `FromHList`, `ToHList` and `IntoHList` of the struct that it stands on.
#[derive(Clone, Copy, Debug)]
pub struct HListSupportDecorator;

impl HListSupportDecorator {
    /// Applies the attribute to what it stands on. For a struct with fields
    /// in braces, each with its name, it hands on the three conversions as
    /// `derive_as_hlist` makes them. For anything else it hands on nothing
    /// and says what stands against it.
    pub fn expand(&self, push: &mut Vec<TokenStream>, item: &Annotatable) -> (r: Result<
        (),
        ExpandError,
    >)
        ensures
            match expand_refusal(item@) {
                Some(error) => r == Err::<(), ExpandError>(error) && final(push)@ == old(push)@,
                None => r is Ok && tokens_of_each(final(push)@) == tokens_of_each(old(push)@)
                    + expanded_items_tokens(item@),
            },
    {
        match item {
            Annotatable::Item(struct_item) => match struct_item.shape {
                Shape::NamedStruct => {
                    if !struct_item.all_fields_named() {
                        return Err(ExpandError::UnnamedFields);
                    }
                    derive_as_hlist(push, struct_item);
                    Ok(())
                },
                _ => Err(ExpandError::NotAStruct),
            },
            _ => Err(ExpandError::NotAStructItem),
        }
    }
}

} // verus!
