//! The generator of the conversions between a record struct and its list
//! form, and its derive form.
//!
//! From the fields of the struct the generator builds its pieces: the list
//! type, the pattern that takes a list apart, the list of the fields' names,
//! and the two expressions that build a list from `self`. The pieces are set
//! into the conversions `FromHList`, `ToHList` and `IntoHList`.
//!
//! The derive (`hlist_support_derive`) reads the tokens of a definition and
//! gives the three conversions in one stream. The attribute forms, which
//! hand generated items on one by one, stand in `decorator` and `as_hlist`.

use crate::item::{parse_item, parsed_item, DeriveError, Field, FieldView, Item, ItemView};
use crate::tokens::{
    append, braces, brackets, empty_stream, is_word, joint, parens, punct, push_group, push_punct,
    push_word, stream_tokens, word, Delimiter, Spacing, Token,
};
use proc_macro2::TokenStream;
use vstd::prelude::*;
use vstd::slice::slice_subrange;

verus! {

/// The list type of a sequence of fields: `HNil` for none, else
/// `HCons<T, R>` with the type `T` of the first field and the list type `R`
/// of the others.
pub open spec fn hlist_type_tokens(fields: Seq<FieldView>) -> Seq<Token>
    decreases fields.len(),
{
    if fields.len() == 0 {
        seq![word("HNil")]
    } else {
        seq![word("HCons"), punct('<')] + fields[0].ty + seq![punct(',')] + hlist_type_tokens(
            fields.drop_first(),
        ) + seq![punct('>')]
    }
}

/// The pattern that takes a list apart into the fields' names: `HNil` for no
/// field, else `HCons(a, R)` with the name `a` of the first field and the
/// pattern `R` of the others.
pub open spec fn hlist_pattern_tokens(fields: Seq<FieldView>) -> Seq<Token>
    decreases fields.len(),
{
    if fields.len() == 0 {
        seq![word("HNil")]
    } else {
        seq![
            word("HCons"),
            parens(
                fields[0].name_tokens() + seq![punct(',')] + hlist_pattern_tokens(
                    fields.drop_first(),
                ),
            ),
        ]
    }
}

/// The expression that moves the fields of `self` into a list: `HNil` for no
/// field, else `HCons(self.a, R)` with the name `a` of the first field and
/// the expression `R` of the others.
pub open spec fn hlist_init_tokens(fields: Seq<FieldView>) -> Seq<Token>
    decreases fields.len(),
{
    if fields.len() == 0 {
        seq![word("HNil")]
    } else {
        seq![
            word("HCons"),
            parens(
                seq![word("self"), punct('.')] + fields[0].name_tokens() + seq![punct(',')]
                    + hlist_init_tokens(fields.drop_first()),
            ),
        ]
    }
}

/// The expression that copies the fields of `self` into a list: `HNil` for
/// no field, else `HCons(self.a.clone(), R)` with the name `a` of the first
/// field and the expression `R` of the others.
pub open spec fn hlist_cloned_init_tokens(fields: Seq<FieldView>) -> Seq<Token>
    decreases fields.len(),
{
    if fields.len() == 0 {
        seq![word("HNil")]
    } else {
        seq![
            word("HCons"),
            parens(
                seq![word("self"), punct('.')] + fields[0].name_tokens() + seq![
                    punct('.'),
                    word("clone"),
                    parens(Seq::empty()),
                    punct(','),
                ] + hlist_cloned_init_tokens(fields.drop_first()),
            ),
        ]
    }
}

/// The fields' names, with a comma between each two: what stands between the
/// braces of the expression that builds the struct from variables named as
/// its fields are.
pub open spec fn struct_field_init_tokens(fields: Seq<FieldView>) -> Seq<Token>
    decreases fields.len(),
{
    if fields.len() == 0 {
        Seq::empty()
    } else if fields.len() == 1 {
        fields[0].name_tokens()
    } else {
        struct_field_init_tokens(fields.drop_last()) + seq![punct(',')]
            + fields.last().name_tokens()
    }
}

/// The attribute `#[allow(dead_code)]`, which every generated conversion
/// carries.
pub open spec fn allow_dead_code_tokens() -> Seq<Token> {
    seq![punct('#'), brackets(seq![word("allow"), parens(seq![word("dead_code")])])]
}

/// The head of a conversion: `impl Trait<L> for S`, with the list type `L`
/// and the name `S` of the struct.
pub open spec fn impl_header_tokens(trait_name: &str, list: Seq<Token>, name: Seq<Token>) -> Seq<
    Token,
> {
    seq![word("impl"), word(trait_name), punct('<')] + list + seq![punct('>'), word("for")] + name
}

/// The method that builds the struct from a list:
///
/// ```text
/// fn from_hlist(hlist: L) -> Self {
///     match hlist { P => S { N } }
/// }
/// ```
///
/// with the name `S` of the struct, the list type `L`, the pattern `P` and
/// the list `N` that initialises the fields.
pub open spec fn from_hlist_method_tokens(
    name: Seq<Token>,
    list: Seq<Token>,
    pattern: Seq<Token>,
    names: Seq<Token>,
) -> Seq<Token> {
    let arm = pattern + seq![joint('='), punct('>')] + name + seq![braces(names)];
    let body = seq![word("match"), word("hlist"), braces(arm)];
    seq![
        word("fn"),
        word("from_hlist"),
        parens(seq![word("hlist"), punct(':')] + list),
        joint('-'),
        punct('>'),
        word("Self"),
        braces(body),
    ]
}

/// The method that copies the struct into a list,
/// `fn to_hlist(&self) -> L { C }`, with the list type `L` and the copying
/// expression `C`.
pub open spec fn to_hlist_method_tokens(list: Seq<Token>, cloned: Seq<Token>) -> Seq<Token> {
    seq![
        word("fn"),
        word("to_hlist"),
        parens(seq![punct('&'), word("self")]),
        joint('-'),
        punct('>'),
    ] + list + seq![braces(cloned)]
}

/// The method that turns the struct into a list,
/// `fn into_hlist(self) -> L { M }`, with the list type `L` and the moving
/// expression `M`.
pub open spec fn into_hlist_method_tokens(list: Seq<Token>, init: Seq<Token>) -> Seq<Token> {
    seq![word("fn"), word("into_hlist"), parens(seq![word("self")]), joint('-'), punct('>')]
        + list + seq![braces(init)]
}

/// The conversion from the list to the struct: `impl FromHList<L> for S`
/// around the method `from_hlist`.
pub open spec fn from_hlist_impl_tokens(
    name: Seq<Token>,
    list: Seq<Token>,
    pattern: Seq<Token>,
    names: Seq<Token>,
) -> Seq<Token> {
    impl_header_tokens("FromHList", list, name) + seq![
        braces(from_hlist_method_tokens(name, list, pattern, names)),
    ]
}

/// The conversion that copies the struct into a list: `impl ToHList<L> for S`
/// around the method `to_hlist`.
pub open spec fn to_hlist_impl_tokens(name: Seq<Token>, list: Seq<Token>, cloned: Seq<Token>) -> Seq<
    Token,
> {
    impl_header_tokens("ToHList", list, name) + seq![braces(to_hlist_method_tokens(list, cloned))]
}

/// The conversion that turns the struct into a list:
/// `impl IntoHList<L> for S` around the method `into_hlist`.
pub open spec fn into_hlist_impl_tokens(name: Seq<Token>, list: Seq<Token>, init: Seq<Token>) -> Seq<
    Token,
> {
    impl_header_tokens("IntoHList", list, name) + seq![braces(into_hlist_method_tokens(list, init))]
}

/// The three conversions of an item as the generator makes them, before any
/// attribute is put in front of them.
pub struct Conversions {
    pub from_hlist: Seq<Token>,
    pub to_hlist: Seq<Token>,
    pub into_hlist: Seq<Token>,
}

/// The three conversions of an item: each template, with the item's name,
/// the pieces that its fields give, and the list `names` that initialises
/// the fields of the struct.
pub open spec fn conversions_of(item: ItemView, names: Seq<Token>) -> Conversions {
    let list = hlist_type_tokens(item.fields);
    Conversions {
        from_hlist: from_hlist_impl_tokens(
            item.name,
            list,
            hlist_pattern_tokens(item.fields),
            names,
        ),
        to_hlist: to_hlist_impl_tokens(item.name, list, hlist_cloned_init_tokens(item.fields)),
        into_hlist: into_hlist_impl_tokens(item.name, list, hlist_init_tokens(item.fields)),
    }
}

/// What the derive gives for a record: the three conversions in one stream,
/// each with `#[allow(dead_code)]` before it. The struct is built from the
/// fields' names alone, `S { a, b }`.
pub open spec fn derive_expansion_tokens(item: ItemView) -> Seq<Token> {
    let made = conversions_of(item, struct_field_init_tokens(item.fields));
    allow_dead_code_tokens() + made.from_hlist + allow_dead_code_tokens() + made.to_hlist
        + allow_dead_code_tokens() + made.into_hlist
}

/// Why the derive generates nothing for an item, if anything stands against
/// it: what is no struct is refused as such, and a struct that is no record
/// for its fields without names.
pub open spec fn refusal(item: ItemView) -> Option<DeriveError> {
    if !item.is_struct() {
        Some(DeriveError::NotAStruct)
    } else if !item.is_record() {
        Some(DeriveError::UnnamedFields)
    } else {
        None
    }
}

/// What the derive gives for an item: the error that `refusal` names, or the
/// three conversions in one stream.
pub open spec fn is_derive_result(item: ItemView, r: Result<TokenStream, DeriveError>) -> bool {
    match refusal(item) {
        Some(error) => r == Err::<TokenStream, DeriveError>(error),
        None => r matches Ok(out) && stream_tokens(out) == derive_expansion_tokens(item),
    }
}

/// The list type is made of the fields' types alone: fields that agree in
/// their types, one by one, have the same list type, whatever their names.
pub proof fn lemma_hlist_type_reads_types(a: Seq<FieldView>, b: Seq<FieldView>)
    requires
        a.len() == b.len(),
        forall|i: int| 0 <= i < a.len() ==> a[i].ty == b[i].ty,
    ensures
        hlist_type_tokens(a) == hlist_type_tokens(b),
    decreases a.len(),
{
    if a.len() > 0 {
        lemma_hlist_type_reads_types(a.drop_first(), b.drop_first());
    }
}

/// The pattern, the two list expressions and the list of names are made of
/// the fields' names alone: fields that agree in their names, one by one,
/// give the same tokens, whatever their types.
pub proof fn lemma_names_decide(a: Seq<FieldView>, b: Seq<FieldView>)
    requires
        a.len() == b.len(),
        forall|i: int| 0 <= i < a.len() ==> a[i].name == b[i].name,
    ensures
        hlist_pattern_tokens(a) == hlist_pattern_tokens(b),
        hlist_init_tokens(a) == hlist_init_tokens(b),
        hlist_cloned_init_tokens(a) == hlist_cloned_init_tokens(b),
        struct_field_init_tokens(a) == struct_field_init_tokens(b),
    decreases a.len(),
{
    if a.len() > 0 {
        lemma_names_decide(a.drop_first(), b.drop_first());
        lemma_names_decide(a.drop_last(), b.drop_last());
    }
}

/// The fields after the first have the views of the fields after the first.
proof fn lemma_rest_views(fields: &[Field], rest: &[Field])
    requires
        fields@.len() > 0,
        rest@ == fields@.subrange(1, fields@.len() as int),
    ensures
        rest.deep_view() == fields.deep_view().drop_first(),
{
}

/// The tokens that stand for a field where its name is asked for.
pub(crate) fn field_name(field: &Field) -> (out: TokenStream)
    ensures
        stream_tokens(out) == field@.name_tokens(),
{
    match &field.name {
        Some(name) => name.clone(),
        None => empty_stream(),
    }
}

/// Builds the list type of a series of fields from their types.
pub fn hlist_type(fields: &[Field]) -> (out: TokenStream)
    ensures
        stream_tokens(out) == hlist_type_tokens(fields.deep_view()),
    decreases fields.len(),
{
    let mut out = empty_stream();
    if fields.len() == 0 {
        proof {
            reveal_strlit("HNil");
        }
        push_word(&mut out, "HNil");
    } else {
        let rest = slice_subrange(fields, 1, fields.len());
        let tail = hlist_type(rest);
        proof {
            reveal_strlit("HCons");
            lemma_rest_views(fields, rest);
        }
        push_word(&mut out, "HCons");
        push_punct(&mut out, '<', Spacing::Alone);
        append(&mut out, fields[0].ty.clone());
        push_punct(&mut out, ',', Spacing::Alone);
        append(&mut out, tail);
        push_punct(&mut out, '>', Spacing::Alone);
    }
    out
}

/// Builds the pattern that takes a list apart into variables named as the
/// fields are.
pub fn hlist_pattern(fields: &[Field]) -> (out: TokenStream)
    ensures
        stream_tokens(out) == hlist_pattern_tokens(fields.deep_view()),
    decreases fields.len(),
{
    let mut out = empty_stream();
    if fields.len() == 0 {
        proof {
            reveal_strlit("HNil");
        }
        push_word(&mut out, "HNil");
    } else {
        let rest = slice_subrange(fields, 1, fields.len());
        let tail = hlist_pattern(rest);
        proof {
            reveal_strlit("HCons");
            lemma_rest_views(fields, rest);
        }
        let mut inner = field_name(&fields[0]);
        push_punct(&mut inner, ',', Spacing::Alone);
        append(&mut inner, tail);
        assert(stream_tokens(inner) =~= fields.deep_view()[0].name_tokens() + seq![punct(',')]
            + hlist_pattern_tokens(fields.deep_view().drop_first()));
        push_word(&mut out, "HCons");
        push_group(&mut out, Delimiter::Parenthesis, inner);
    }
    out
}

/// Builds the expression that moves the fields of `self` into a list.
pub fn hlist_init(fields: &[Field]) -> (out: TokenStream)
    ensures
        stream_tokens(out) == hlist_init_tokens(fields.deep_view()),
    decreases fields.len(),
{
    let mut out = empty_stream();
    if fields.len() == 0 {
        proof {
            reveal_strlit("HNil");
        }
        push_word(&mut out, "HNil");
    } else {
        let rest = slice_subrange(fields, 1, fields.len());
        let tail = hlist_init(rest);
        proof {
            reveal_strlit("HCons");
            reveal_strlit("self");
            lemma_rest_views(fields, rest);
        }
        let mut inner = empty_stream();
        push_word(&mut inner, "self");
        push_punct(&mut inner, '.', Spacing::Alone);
        append(&mut inner, field_name(&fields[0]));
        push_punct(&mut inner, ',', Spacing::Alone);
        append(&mut inner, tail);
        assert(stream_tokens(inner) =~= seq![word("self"), punct('.')]
            + fields.deep_view()[0].name_tokens() + seq![punct(',')] + hlist_init_tokens(
            fields.deep_view().drop_first(),
        ));
        push_word(&mut out, "HCons");
        push_group(&mut out, Delimiter::Parenthesis, inner);
    }
    out
}

/// Builds the expression that copies the fields of `self` into a list.
pub fn hlist_cloned_init(fields: &[Field]) -> (out: TokenStream)
    ensures
        stream_tokens(out) == hlist_cloned_init_tokens(fields.deep_view()),
    decreases fields.len(),
{
    let mut out = empty_stream();
    if fields.len() == 0 {
        proof {
            reveal_strlit("HNil");
        }
        push_word(&mut out, "HNil");
    } else {
        let rest = slice_subrange(fields, 1, fields.len());
        let tail = hlist_cloned_init(rest);
        proof {
            reveal_strlit("HCons");
            reveal_strlit("self");
            reveal_strlit("clone");
            lemma_rest_views(fields, rest);
        }
        let mut inner = empty_stream();
        push_word(&mut inner, "self");
        push_punct(&mut inner, '.', Spacing::Alone);
        append(&mut inner, field_name(&fields[0]));
        push_punct(&mut inner, '.', Spacing::Alone);
        push_word(&mut inner, "clone");
        push_group(&mut inner, Delimiter::Parenthesis, empty_stream());
        push_punct(&mut inner, ',', Spacing::Alone);
        append(&mut inner, tail);
        assert(stream_tokens(inner) =~= seq![word("self"), punct('.')]
            + fields.deep_view()[0].name_tokens() + seq![
            punct('.'),
            word("clone"),
            parens(Seq::empty()),
            punct(','),
        ] + hlist_cloned_init_tokens(fields.deep_view().drop_first()));
        push_word(&mut out, "HCons");
        push_group(&mut out, Delimiter::Parenthesis, inner);
    }
    out
}

/// Builds the list of the fields' names that stands between the braces of
/// the expression that builds the struct.
pub fn struct_field_init(fields: &[Field]) -> (out: TokenStream)
    ensures
        stream_tokens(out) == struct_field_init_tokens(fields.deep_view()),
{
    let mut out = empty_stream();
    let mut i: usize = 0;
    while i < fields.len()
        invariant
            i <= fields.len(),
            stream_tokens(out) == struct_field_init_tokens(fields.deep_view().take(i as int)),
        decreases fields.len() - i,
    {
        if i > 0 {
            push_punct(&mut out, ',', Spacing::Alone);
        }
        append(&mut out, field_name(&fields[i]));
        proof {
            let before = fields.deep_view().take(i as int);
            let now = fields.deep_view().take(i + 1);
            assert(now.drop_last() =~= before);
        }
        i += 1;
    }
    proof {
        assert(fields.deep_view().take(i as int) =~= fields.deep_view());
    }
    out
}

/// Builds the attribute `#[allow(dead_code)]`.
pub(crate) fn allow_dead_code() -> (out: TokenStream)
    ensures
        stream_tokens(out) == allow_dead_code_tokens(),
{
    proof {
        reveal_strlit("allow");
        reveal_strlit("dead_code");
    }
    let mut lint = empty_stream();
    push_word(&mut lint, "dead_code");
    let mut inner = empty_stream();
    push_word(&mut inner, "allow");
    push_group(&mut inner, Delimiter::Parenthesis, lint);
    assert(stream_tokens(inner) =~= seq![word("allow"), parens(seq![word("dead_code")])]);
    let mut out = empty_stream();
    push_punct(&mut out, '#', Spacing::Alone);
    push_group(&mut out, Delimiter::Bracket, inner);
    out
}

/// Builds the head `impl Trait<L> for S` of a conversion.
pub(crate) fn impl_header(trait_name: &str, list: &TokenStream, name: &TokenStream) -> (out:
    TokenStream)
    requires
        is_word(trait_name@),
    ensures
        stream_tokens(out) == impl_header_tokens(
            trait_name,
            stream_tokens(*list),
            stream_tokens(*name),
        ),
{
    proof {
        reveal_strlit("impl");
        reveal_strlit("for");
    }
    let mut out = empty_stream();
    push_word(&mut out, "impl");
    push_word(&mut out, trait_name);
    push_punct(&mut out, '<', Spacing::Alone);
    append(&mut out, list.clone());
    push_punct(&mut out, '>', Spacing::Alone);
    push_word(&mut out, "for");
    append(&mut out, name.clone());
    out
}

/// Sets the pieces into the method that builds the struct from a list.
pub(crate) fn from_hlist_method(
    name: &TokenStream,
    list: &TokenStream,
    pattern: TokenStream,
    names: TokenStream,
) -> (out: TokenStream)
    ensures
        stream_tokens(out) == from_hlist_method_tokens(
            stream_tokens(*name),
            stream_tokens(*list),
            stream_tokens(pattern),
            stream_tokens(names),
        ),
{
    proof {
        reveal_strlit("fn");
        reveal_strlit("from_hlist");
        reveal_strlit("hlist");
        reveal_strlit("Self");
        reveal_strlit("match");
    }
    let mut arm = pattern;
    push_punct(&mut arm, '=', Spacing::Joint);
    push_punct(&mut arm, '>', Spacing::Alone);
    append(&mut arm, name.clone());
    push_group(&mut arm, Delimiter::Brace, names);
    assert(stream_tokens(arm) =~= stream_tokens(pattern) + seq![joint('='), punct('>')]
        + stream_tokens(*name) + seq![braces(stream_tokens(names))]);

    let mut body = empty_stream();
    push_word(&mut body, "match");
    push_word(&mut body, "hlist");
    push_group(&mut body, Delimiter::Brace, arm);
    assert(stream_tokens(body) =~= seq![
        word("match"),
        word("hlist"),
        braces(stream_tokens(arm)),
    ]);

    let mut params = empty_stream();
    push_word(&mut params, "hlist");
    push_punct(&mut params, ':', Spacing::Alone);
    append(&mut params, list.clone());
    assert(stream_tokens(params) =~= seq![word("hlist"), punct(':')] + stream_tokens(*list));

    let mut out = empty_stream();
    push_word(&mut out, "fn");
    push_word(&mut out, "from_hlist");
    push_group(&mut out, Delimiter::Parenthesis, params);
    push_punct(&mut out, '-', Spacing::Joint);
    push_punct(&mut out, '>', Spacing::Alone);
    push_word(&mut out, "Self");
    push_group(&mut out, Delimiter::Brace, body);
    out
}

/// Sets the pieces into the method that copies the struct into a list.
pub(crate) fn to_hlist_method(list: &TokenStream, cloned: TokenStream) -> (out: TokenStream)
    ensures
        stream_tokens(out) == to_hlist_method_tokens(stream_tokens(*list), stream_tokens(cloned)),
{
    proof {
        reveal_strlit("fn");
        reveal_strlit("to_hlist");
        reveal_strlit("self");
    }
    let mut params = empty_stream();
    push_punct(&mut params, '&', Spacing::Alone);
    push_word(&mut params, "self");
    assert(stream_tokens(params) =~= seq![punct('&'), word("self")]);

    let mut out = empty_stream();
    push_word(&mut out, "fn");
    push_word(&mut out, "to_hlist");
    push_group(&mut out, Delimiter::Parenthesis, params);
    push_punct(&mut out, '-', Spacing::Joint);
    push_punct(&mut out, '>', Spacing::Alone);
    append(&mut out, list.clone());
    push_group(&mut out, Delimiter::Brace, cloned);
    out
}

/// Sets the pieces into the method that turns the struct into a list.
pub(crate) fn into_hlist_method(list: &TokenStream, init: TokenStream) -> (out: TokenStream)
    ensures
        stream_tokens(out) == into_hlist_method_tokens(stream_tokens(*list), stream_tokens(init)),
{
    proof {
        reveal_strlit("fn");
        reveal_strlit("into_hlist");
        reveal_strlit("self");
    }
    let mut params = empty_stream();
    push_word(&mut params, "self");
    assert(stream_tokens(params) =~= seq![word("self")]);

    let mut out = empty_stream();
    push_word(&mut out, "fn");
    push_word(&mut out, "into_hlist");
    push_group(&mut out, Delimiter::Parenthesis, params);
    push_punct(&mut out, '-', Spacing::Joint);
    push_punct(&mut out, '>', Spacing::Alone);
    append(&mut out, list.clone());
    push_group(&mut out, Delimiter::Brace, init);
    out
}

/// Builds the pieces from the fields of an item and sets them, with the
/// list `names` that initialises the fields of the struct, into the three
/// conversions.
pub(crate) fn conversions(item: &Item, names: TokenStream) -> (made: (
    TokenStream,
    TokenStream,
    TokenStream,
))
    ensures
        stream_tokens(made.0) == conversions_of(item@, stream_tokens(names)).from_hlist,
        stream_tokens(made.1) == conversions_of(item@, stream_tokens(names)).to_hlist,
        stream_tokens(made.2) == conversions_of(item@, stream_tokens(names)).into_hlist,
{
    proof {
        reveal_strlit("FromHList");
        reveal_strlit("ToHList");
        reveal_strlit("IntoHList");
    }
    let fields = item.fields.as_slice();
    let list = hlist_type(fields);

    let mut from_hlist = impl_header("FromHList", &list, &item.name);
    let method = from_hlist_method(&item.name, &list, hlist_pattern(fields), names);
    push_group(&mut from_hlist, Delimiter::Brace, method);

    let mut to_hlist = impl_header("ToHList", &list, &item.name);
    let method = to_hlist_method(&list, hlist_cloned_init(fields));
    push_group(&mut to_hlist, Delimiter::Brace, method);

    let mut into_hlist = impl_header("IntoHList", &list, &item.name);
    let method = into_hlist_method(&list, hlist_init(fields));
    push_group(&mut into_hlist, Delimiter::Brace, method);

    (from_hlist, to_hlist, into_hlist)
}

/// Says whether the derive generates conversions for an item and, if not,
/// why.
fn examine(item: &Item) -> (r: Result<(), DeriveError>)
    ensures
        match refusal(item@) {
            Some(error) => r == Err::<(), DeriveError>(error),
            None => r is Ok,
        },
{
    if !item.is_struct() {
        Err(DeriveError::NotAStruct)
    } else if !item.is_record() {
        Err(DeriveError::UnnamedFields)
    } else {
        Ok(())
    }
}

/// The derive, applied to an item that has been read: for a record, the
/// three conversions in one stream; for what is no struct, `NotAStruct`; for
/// any other struct, `UnnamedFields`.
pub fn expand_derive(item: &Item) -> (r: Result<TokenStream, DeriveError>)
    ensures
        is_derive_result(item@, r),
{
    match examine(item) {
        Ok(()) => {
            let names = struct_field_init(item.fields.as_slice());
            let (from_hlist, to_hlist, into_hlist) = conversions(item, names);
            let mut out = allow_dead_code();
            append(&mut out, from_hlist);
            append(&mut out, allow_dead_code());
            append(&mut out, to_hlist);
            append(&mut out, allow_dead_code());
            append(&mut out, into_hlist);
            Ok(out)
        },
        Err(error) => Err(error),
    }
}

/// The derive `HListSupport`: reads the tokens of a definition and generates
/// the conversions between the struct and its list form.
///
/// Where the tokens are no struct, enum or union definition the result is
/// `Syntax` with the parser's error; otherwise it is what `expand_derive`
/// gives for the item that the tokens define.
pub fn hlist_support_derive(input: TokenStream) -> (r: Result<TokenStream, DeriveError>)
    ensures
        match parsed_item(stream_tokens(input)) {
            Some(item) => is_derive_result(item, r),
            None => r matches Err(DeriveError::Syntax(_)),
        },
{
    match parse_item(input) {
        Ok(item) => expand_derive(&item),
        Err(error) => Err(error),
    }
}

} // verus!
