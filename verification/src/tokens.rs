//! Token streams: what a stream holds, and the few steps by which the
//! generator builds one.
//!
//! The streams are those of `proc_macro2`. A stream is opaque to the
//! verifier; `stream_tokens` names the token trees it holds, and every
//! contract of this crate that speaks of a stream speaks of that sequence.
//! Spans are not part of it.
//!
//! `proc_macro2` keeps a value either in the compiler's form or in its own,
//! settles which when the process first asks, and panics when it is to join
//! values of both forms. The contracts below are those of a process that
//! never switches the form by hand (`proc_macro2::fallback::force`), so that
//! all its values are of one form.

use proc_macro2::TokenStream;
use vstd::prelude::*;

verus! {

/// How the tokens of a group are enclosed.
#[derive(Clone, Copy, Debug, PartialEq, Eq, Structural)]
pub enum Delimiter {
    /// `( ... )`
    Parenthesis,
    /// `{ ... }`
    Brace,
    /// `[ ... ]`
    Bracket,
    /// No visible delimiter: the tokens only hold together.
    Invisible,
}

/// Whether a punctuation character is followed at once by another one.
#[derive(Clone, Copy, Debug, PartialEq, Eq, Structural)]
pub enum Spacing {
    /// The next token, if any, is no part of the same operator.
    Alone,
    /// The next punctuation character continues the operator, as `-` in `->`.
    Joint,
}

/// One token tree, as the contracts see it.
pub enum Token {
    /// An identifier or keyword, by its text.
    Ident(Seq<char>),
    /// One punctuation character.
    Punct(char, Spacing),
    /// A literal, by its text.
    Literal(Seq<char>),
    /// A delimited sequence of token trees.
    Group(Delimiter, Seq<Token>),
}

#[verifier::external_type_specification]
#[verifier::external_body]
pub struct ExTokenStream(proc_macro2::TokenStream);

/// The token trees that a stream holds, in order.
pub uninterp spec fn stream_tokens(stream: TokenStream) -> Seq<Token>;

/// The token of the identifier or keyword `text`.
pub open spec fn word(text: &str) -> Token {
    Token::Ident(text@)
}

/// The token of a punctuation character that stands alone.
pub open spec fn punct(ch: char) -> Token {
    Token::Punct(ch, Spacing::Alone)
}

/// The token of a punctuation character that the next one continues.
pub open spec fn joint(ch: char) -> Token {
    Token::Punct(ch, Spacing::Joint)
}

/// The group `( inner )`.
pub open spec fn parens(inner: Seq<Token>) -> Token {
    Token::Group(Delimiter::Parenthesis, inner)
}

/// The group `{ inner }`.
pub open spec fn braces(inner: Seq<Token>) -> Token {
    Token::Group(Delimiter::Brace, inner)
}

/// The group `[ inner ]`.
pub open spec fn brackets(inner: Seq<Token>) -> Token {
    Token::Group(Delimiter::Bracket, inner)
}

/// The tokens of each stream of a sequence of streams.
pub open spec fn tokens_of_each(streams: Seq<TokenStream>) -> Seq<Seq<Token>> {
    Seq::new(streams.len(), |i: int| stream_tokens(streams[i]))
}

/// An ASCII letter.
pub open spec fn is_letter(c: char) -> bool {
    ('a' <= c && c <= 'z') || ('A' <= c && c <= 'Z')
}

/// An ASCII digit.
pub open spec fn is_digit(c: char) -> bool {
    '0' <= c && c <= '9'
}

/// A plain word: an ASCII letter, then ASCII letters, digits and underscores.
/// Every such text is an identifier or a keyword of Rust.
pub open spec fn is_word(text: Seq<char>) -> bool {
    &&& text.len() > 0
    &&& is_letter(text[0])
    &&& forall|i: int|
        0 <= i < text.len() ==> is_letter(#[trigger] text[i]) || is_digit(text[i]) || text[i]
            == '_'
}

/// The characters that can stand as punctuation in a token stream.
pub open spec fn is_punct(c: char) -> bool {
    c == '!' || c == '#' || c == '$' || c == '%' || c == '&' || c == '\'' || c == '*' || c == '+'
        || c == ',' || c == '-' || c == '.' || c == '/' || c == ':' || c == ';' || c == '<'
        || c == '=' || c == '>' || c == '?' || c == '@' || c == '^' || c == '|' || c == '~'
}

/// `proc_macro2::TokenStream::new`: the stream that holds no token.
#[verifier::external_body]
pub(crate) fn empty_stream() -> (stream: TokenStream)
    ensures
        stream_tokens(stream) == Seq::<Token>::empty(),
{
    TokenStream::new()
}

/// `proc_macro2::Ident::new` with the span of the call site, its result
/// made a stream by `TokenStream::from`: the stream of the one identifier
/// `word`. `Ident::new` panics on a text that is neither an identifier nor a
/// keyword; a plain word always is one of them.
#[verifier::external_body]
pub(crate) fn ident_stream(word: &str) -> (stream: TokenStream)
    requires
        is_word(word@),
    ensures
        stream_tokens(stream) == seq![Token::Ident(word@)],
{
    let ident = proc_macro2::Ident::new(word, proc_macro2::Span::call_site());
    TokenStream::from(proc_macro2::TokenTree::Ident(ident))
}

/// `proc_macro2::Punct::new`, its result made a stream by
/// `TokenStream::from`: the stream of the one punctuation character `ch` with
/// the given spacing. `Punct::new` panics on any character outside its list,
/// which is that of `is_punct`.
#[verifier::external_body]
pub(crate) fn punct_stream(ch: char, spacing: Spacing) -> (stream: TokenStream)
    requires
        is_punct(ch),
    ensures
        stream_tokens(stream) == seq![Token::Punct(ch, spacing)],
{
    let spacing = match spacing {
        Spacing::Alone => proc_macro2::Spacing::Alone,
        Spacing::Joint => proc_macro2::Spacing::Joint,
    };
    TokenStream::from(proc_macro2::TokenTree::Punct(proc_macro2::Punct::new(ch, spacing)))
}

/// `proc_macro2::Group::new`, its result made a stream by
/// `TokenStream::from`: the stream of the one group that encloses the tokens
/// of `inner` in `delimiter`.
#[verifier::external_body]
pub(crate) fn group_stream(delimiter: Delimiter, inner: TokenStream) -> (stream: TokenStream)
    ensures
        stream_tokens(stream) == seq![Token::Group(delimiter, stream_tokens(inner))],
{
    let delimiter = match delimiter {
        Delimiter::Parenthesis => proc_macro2::Delimiter::Parenthesis,
        Delimiter::Brace => proc_macro2::Delimiter::Brace,
        Delimiter::Bracket => proc_macro2::Delimiter::Bracket,
        Delimiter::Invisible => proc_macro2::Delimiter::None,
    };
    TokenStream::from(proc_macro2::TokenTree::Group(proc_macro2::Group::new(delimiter, inner)))
}

/// `Extend::<TokenStream>::extend` of a `proc_macro2::TokenStream`: the
/// tokens of `more` come behind those that `stream` held, in their order.
#[verifier::external_body]
pub(crate) fn append(stream: &mut TokenStream, more: TokenStream)
    ensures
        stream_tokens(*final(stream)) == stream_tokens(*old(stream)) + stream_tokens(more),
{
    stream.extend(Some(more));
}

/// `Clone::clone` of a `proc_macro2::TokenStream`: the copy holds the same
/// tokens.
pub assume_specification[ <proc_macro2::TokenStream as Clone>::clone ](
    stream: &TokenStream,
) -> (copy: TokenStream)
    ensures
        stream_tokens(copy) == stream_tokens(*stream),
;

/// Puts the identifier or keyword `word` behind the tokens of `stream`.
pub(crate) fn push_word(stream: &mut TokenStream, word: &str)
    requires
        is_word(word@),
    ensures
        stream_tokens(*final(stream)) == stream_tokens(*old(stream)).push(Token::Ident(word@)),
{
    append(stream, ident_stream(word));
}

/// Puts the punctuation character `ch` behind the tokens of `stream`.
pub(crate) fn push_punct(stream: &mut TokenStream, ch: char, spacing: Spacing)
    requires
        is_punct(ch),
    ensures
        stream_tokens(*final(stream)) == stream_tokens(*old(stream)).push(
            Token::Punct(ch, spacing),
        ),
{
    append(stream, punct_stream(ch, spacing));
}

/// Puts the group of `inner` in `delimiter` behind the tokens of `stream`.
pub(crate) fn push_group(stream: &mut TokenStream, delimiter: Delimiter, inner: TokenStream)
    ensures
        stream_tokens(*final(stream)) == stream_tokens(*old(stream)).push(
            Token::Group(delimiter, stream_tokens(inner)),
        ),
{
    append(stream, group_stream(delimiter, inner));
}

} // verus!
