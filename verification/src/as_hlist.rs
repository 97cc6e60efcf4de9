//! The attribute `AsHList`: one conversion in both directions.
//!
//! Put on a struct whose fields all have names, it hands on a single item,
//! `impl AsHList<L> for S`, that holds the method `from_hlist` and a
//! `to_hlist` that copies the fields.

use crate::decorator::{
    push_new_item, pushed_item_tokens, struct_field_init, struct_field_init_tokens, NewItem,
    NewItemView,
};
use crate::derive::{
    allow_dead_code, allow_dead_code_tokens, from_hlist_method, from_hlist_method_tokens,
    hlist_cloned_init, hlist_cloned_init_tokens, hlist_pattern, hlist_pattern_tokens, hlist_type,
    hlist_type_tokens, impl_header, impl_header_tokens, to_hlist_method, to_hlist_method_tokens,
};
use crate::item::{Item, ItemView};
use crate::tokens::{append, braces, push_group, stream_tokens, tokens_of_each, Delimiter, Token};
use proc_macro2::TokenStream;
use vstd::prelude::*;

verus! {

/// The conversion in both directions:
///
/// ```text
/// impl AsHList<L> for S {
///     fn from_hlist(hlist: L) -> Self {
///         match hlist { P => S { N } }
///     }
///     fn to_hlist(&self) -> L { C }
/// }
/// ```
///
/// with the name `S` of the item, the list type `L` of its fields, the
/// pattern `P`, the list `N` that names each field, `a: a`, and the copying
/// expression `C`.
pub open spec fn as_hlist_impl_tokens(item: ItemView) -> Seq<Token> {
    let list = hlist_type_tokens(item.fields);
    impl_header_tokens("AsHList", list, item.name) + seq![
        braces(
            from_hlist_method_tokens(
                item.name,
                list,
                hlist_pattern_tokens(item.fields),
                struct_field_init_tokens(item.fields),
            ) + to_hlist_method_tokens(list, hlist_cloned_init_tokens(item.fields)),
        ),
    ]
}

/// What the attribute hands on for an item: the one conversion, with
/// `#[allow(dead_code)]` and the lint attributes of the item.
pub open spec fn as_hlist_item_tokens(item: ItemView) -> Seq<Token> {
    pushed_item_tokens(
        item,
        NewItemView { attrs: allow_dead_code_tokens(), body: as_hlist_impl_tokens(item) },
    )
}

/// Why the attribute `AsHList` generates nothing.
#[derive(Clone, Copy, Debug, PartialEq, Eq, Structural)]
pub enum AsHListError {
    /// The item is no struct.
    NotAStruct,
    /// A field of the struct has no name.
    UnnamedFields,
}

impl AsHListError {
    /// The text by which the error is reported.
    pub open spec fn message_text(self) -> Seq<char> {
        match self {
            AsHListError::NotAStruct => "`AsHList` may only be applied to structs"@,
            AsHListError::UnnamedFields => {
                "`Lensed` may only be applied to structs with named fields"@
            },
        }
    }

    /// The text by which the error is reported.
    pub fn message(&self) -> (text: String)
        ensures
            text@ == self.message_text(),
    {
        match self {
            AsHListError::NotAStruct => "`AsHList` may only be applied to structs".to_owned(),
            AsHListError::UnnamedFields => {
                "`Lensed` may only be applied to structs with named fields".to_owned()
            },
        }
    }
}

/// Why the attribute `AsHList` generates nothing for an item, if anything
/// stands against it. A struct of any form is taken if each of its fields
/// has its name; a struct without fields is among them.
pub open spec fn as_hlist_refusal(item: ItemView) -> Option<AsHListError> {
    if !item.is_struct() {
        Some(AsHListError::NotAStruct)
    } else if !item.all_fields_named() {
        Some(AsHListError::UnnamedFields)
    } else {
        None
    }
}

/// Generates the conversion `AsHList` of an item whose fields all have names
/// and hands it on, with `#[allow(dead_code)]` and the lint attributes of
/// the item.
pub fn derive_as_hlist(push: &mut Vec<TokenStream>, item: &Item)
    requires
        item@.all_fields_named(),
    ensures
        tokens_of_each(final(push)@) == tokens_of_each(old(push)@).push(
            as_hlist_item_tokens(item@),
        ),
{
    let fields = item.fields.as_slice();
    proof {
        reveal_strlit("AsHList");
    }
    let list = hlist_type(fields);
    let mut methods = from_hlist_method(
        &item.name,
        &list,
        hlist_pattern(fields),
        struct_field_init(fields),
    );
    append(&mut methods, to_hlist_method(&list, hlist_cloned_init(fields)));
    let mut body = impl_header("AsHList", &list, &item.name);
    push_group(&mut body, Delimiter::Brace, methods);
    assert(stream_tokens(body) =~= as_hlist_impl_tokens(item@));
    let new_item = NewItem { attrs: allow_dead_code(), body };
    push_new_item(push, item, new_item);
}

/// Handles the attribute `AsHList` applied to an item: for a struct whose
/// fields all have names it hands on the one conversion as `derive_as_hlist`
/// makes it; for any other item it hands on nothing and says what stands
/// against it.
pub fn expand_hlist_support(push: &mut Vec<TokenStream>, item: &Item) -> (r: Result<
    (),
    AsHListError,
>)
    ensures
        match as_hlist_refusal(item@) {
            Some(error) => r == Err::<(), AsHListError>(error) && final(push)@ == old(push)@,
            None => r is Ok && tokens_of_each(final(push)@) == tokens_of_each(old(push)@).push(
                as_hlist_item_tokens(item@),
            ),
        },
{
    if !item.is_struct() {
        Err(AsHListError::NotAStruct)
    } else if !item.all_fields_named() {
        Err(AsHListError::UnnamedFields)
    } else {
        derive_as_hlist(push, item);
        Ok(())
    }
}

} // verus!
