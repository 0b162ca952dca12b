//! Token streams of `proc_macro2`, and the sequence of tokens that each of them holds.

use vstd::prelude::*;

use proc_macro2::{Span, TokenStream};
use quote::{ToTokens, TokenStreamExt};

use crate::ident::is_ident;

verus! {

/// A stream of tokens, as `proc_macro2` holds it.
#[verifier::external_type_specification]
#[verifier::external_body]
pub struct ExTokenStream(proc_macro2::TokenStream);

/// A place in source code, together with its hygiene. Spans are only carried along.
#[verifier::external_type_specification]
#[verifier::external_body]
pub struct ExSpan(proc_macro2::Span);

/// The brackets around a group of tokens.
#[derive(Clone, Copy, PartialEq, Eq, Debug, Structural)]
pub enum Delimiter {
    /// `( .. )`
    Parenthesis,
    /// `{ .. }`
    Brace,
    /// `[ .. ]`
    Bracket,
    /// Brackets that are not written out.
    Invisible,
}

/// Whether a punctuation character runs on into the one behind it.
#[derive(Clone, Copy, PartialEq, Eq, Debug, Structural)]
pub enum Spacing {
    /// The operator ends here.
    Alone,
    /// The next punctuation character belongs to the same operator.
    Joint,
}

/// One token, or a group of tokens in brackets.
pub enum Token {
    /// An identifier or a keyword, as it is written (`r#` included).
    Ident { text: Seq<char>, span: Span },
    /// One punctuation character.
    Punct { ch: char, spacing: Spacing, span: Span },
    /// A string literal, by the text that it denotes.
    Str { value: Seq<char>, span: Span },
    /// A decimal literal that denotes a `usize`, with or without the suffix `usize`.
    Usize { number: usize, suffixed: bool, span: Span },
    /// Any other literal, as it is written.
    Literal { text: Seq<char>, span: Span },
    /// A sequence of tokens in brackets. The span is that of the brackets.
    Group { delimiter: Delimiter, inner: Seq<Token>, span: Span },
}

/// The tokens that a stream holds, in order.
pub uninterp spec fn tokens_of(stream: TokenStream) -> Seq<Token>;

/// Whether `ch` may stand as a punctuation token.
pub open spec fn is_punct(ch: char) -> bool {
    ||| ch == '!' || ch == '#' || ch == '$' || ch == '%' || ch == '&' || ch == '\''
    ||| ch == '*' || ch == '+' || ch == ',' || ch == '-' || ch == '.' || ch == '/'
    ||| ch == ':' || ch == ';' || ch == '<' || ch == '=' || ch == '>' || ch == '?'
    ||| ch == '@' || ch == '^' || ch == '|' || ch == '~'
}

/// No tokens.
pub open spec fn nothing() -> Seq<Token> {
    Seq::empty()
}

/// Sequences of tokens that are written from left to right: each function gives the sequence
/// with something more at its end.
pub trait TokenSeq: Sized {
    /// The identifier `text`.
    spec fn ident(self, text: Seq<char>, span: Span) -> Self;

    /// The identifier or keyword `text`, which is spelled out in the source.
    spec fn word(self, text: &str, span: Span) -> Self;

    /// The punctuation character `ch`.
    spec fn punct(self, ch: char, span: Span) -> Self;

    /// `::`
    spec fn path_sep(self, span: Span) -> Self;

    /// `->`
    spec fn arrow(self, span: Span) -> Self;

    /// A string literal that denotes `value`.
    spec fn string(self, value: Seq<char>, span: Span) -> Self;

    /// The decimal literal of `number`, with or without the suffix `usize`.
    spec fn number(self, number: usize, suffixed: bool, span: Span) -> Self;

    /// `( inner )`
    spec fn parens(self, inner: Seq<Token>, span: Span) -> Self;

    /// `{ inner }`
    spec fn braces(self, inner: Seq<Token>, span: Span) -> Self;

    /// `[ inner ]`
    spec fn brackets(self, inner: Seq<Token>, span: Span) -> Self;

    /// The tokens of `more`.
    spec fn tokens(self, more: Seq<Token>) -> Self;
}

impl TokenSeq for Seq<Token> {
    open spec fn ident(self, text: Seq<char>, span: Span) -> Self {
        self.push(Token::Ident { text, span })
    }

    open spec fn word(self, text: &str, span: Span) -> Self {
        self.push(Token::Ident { text: text@, span })
    }

    open spec fn punct(self, ch: char, span: Span) -> Self {
        self.push(Token::Punct { ch, spacing: Spacing::Alone, span })
    }

    open spec fn path_sep(self, span: Span) -> Self {
        self.push(Token::Punct { ch: ':', spacing: Spacing::Joint, span }).push(
            Token::Punct { ch: ':', spacing: Spacing::Alone, span },
        )
    }

    open spec fn arrow(self, span: Span) -> Self {
        self.push(Token::Punct { ch: '-', spacing: Spacing::Joint, span }).push(
            Token::Punct { ch: '>', spacing: Spacing::Alone, span },
        )
    }

    open spec fn string(self, value: Seq<char>, span: Span) -> Self {
        self.push(Token::Str { value, span })
    }

    open spec fn number(self, number: usize, suffixed: bool, span: Span) -> Self {
        self.push(Token::Usize { number, suffixed, span })
    }

    open spec fn parens(self, inner: Seq<Token>, span: Span) -> Self {
        self.push(Token::Group { delimiter: Delimiter::Parenthesis, inner, span })
    }

    open spec fn braces(self, inner: Seq<Token>, span: Span) -> Self {
        self.push(Token::Group { delimiter: Delimiter::Brace, inner, span })
    }

    open spec fn brackets(self, inner: Seq<Token>, span: Span) -> Self {
        self.push(Token::Group { delimiter: Delimiter::Bracket, inner, span })
    }

    open spec fn tokens(self, more: Seq<Token>) -> Self {
        self + more
    }
}

/// `proc_macro2::TokenStream::new` returns a stream that holds no token.
pub assume_specification[ proc_macro2::TokenStream::new ]() -> (stream: TokenStream)
    ensures
        tokens_of(stream) == Seq::<Token>::empty(),
;

/// `proc_macro2::Span::call_site` returns the span of the macro call that is being expanded.
/// Nothing is said of it: it depends on where the program runs.
pub assume_specification[ proc_macro2::Span::call_site ]() -> Span
;

/// Whether `span` is what a call of `proc_macro2::Span::call_site` may return.
pub open spec fn is_call_site(span: Span) -> bool {
    call_ensures(Span::call_site, (), span)
}

/// Calls `f` for a span.
fn span_from<F: Fn() -> Span>(f: F) -> (span: Span)
    requires
        call_requires(f, ()),
    ensures
        call_ensures(f, (), span),
{
    f()
}

/// Gives the span of the macro call that is being expanded.
pub(crate) fn macro_call_site() -> (span: Span)
    ensures
        is_call_site(span),
{
    span_from(Span::call_site)
}

/// `quote::TokenStreamExt::append` adds one token behind those of a stream. The token is what
/// `proc_macro2::Ident::new` makes of a text and a span: the identifier of that text, at that
/// span. That constructor panics on a text that is no identifier.
#[verifier::external_body]
pub(crate) fn put_word(out: &mut TokenStream, text: &str, span: Span)
    requires
        is_ident(text@),
    ensures
        tokens_of(*final(out)) == tokens_of(*old(out)).ident(text@, span),
{
    out.append(proc_macro2::Ident::new(text, span));
}

/// `quote::TokenStreamExt::append` adds one token behind those of a stream. The token is what
/// `proc_macro2::Punct::new` makes of a character and a spacing, moved to `span` by `set_span`.
/// That constructor panics on a character that is no punctuation.
#[verifier::external_body]
pub(crate) fn put_punct(out: &mut TokenStream, ch: char, spacing: Spacing, span: Span)
    requires
        is_punct(ch),
    ensures
        tokens_of(*final(out)) == tokens_of(*old(out)).push(Token::Punct { ch, spacing, span }),
{
    let spacing = match spacing {
        Spacing::Alone => proc_macro2::Spacing::Alone,
        Spacing::Joint => proc_macro2::Spacing::Joint,
    };
    let mut punct = proc_macro2::Punct::new(ch, spacing);
    punct.set_span(span);
    out.append(punct);
}

/// `quote::TokenStreamExt::append` adds one token behind those of a stream. The token is what
/// `proc_macro2::Literal::string` makes of a text, moved to `span` by `set_span`: the string
/// literal that denotes the text.
#[verifier::external_body]
pub(crate) fn put_string(out: &mut TokenStream, value: &str, span: Span)
    ensures
        tokens_of(*final(out)) == tokens_of(*old(out)).string(value@, span),
{
    let mut literal = proc_macro2::Literal::string(value);
    literal.set_span(span);
    out.append(literal);
}

/// `quote::TokenStreamExt::append` adds one token behind those of a stream. The token is what
/// `proc_macro2::Literal::usize_suffixed` makes of a number, moved to `span` by `set_span`: the
/// number in decimal, with the suffix `usize`.
#[verifier::external_body]
pub(crate) fn put_usize_suffixed(out: &mut TokenStream, value: usize, span: Span)
    ensures
        tokens_of(*final(out)) == tokens_of(*old(out)).number(value, true, span),
{
    let mut literal = proc_macro2::Literal::usize_suffixed(value);
    literal.set_span(span);
    out.append(literal);
}

/// `quote::TokenStreamExt::append` adds one token behind those of a stream. The token is what
/// `proc_macro2::Literal::usize_unsuffixed` makes of a number, moved to `span` by `set_span`: the
/// number in decimal, without a suffix.
#[verifier::external_body]
pub(crate) fn put_usize_unsuffixed(out: &mut TokenStream, value: usize, span: Span)
    ensures
        tokens_of(*final(out)) == tokens_of(*old(out)).number(value, false, span),
{
    let mut literal = proc_macro2::Literal::usize_unsuffixed(value);
    literal.set_span(span);
    out.append(literal);
}

/// `quote::TokenStreamExt::append` adds one token behind those of a stream. The token is what
/// `proc_macro2::Group::new` makes of brackets and a stream, its brackets moved to `span` by
/// `set_span`: the tokens of that stream in those brackets.
#[verifier::external_body]
pub(crate) fn put_group(
    out: &mut TokenStream,
    delimiter: Delimiter,
    inner: TokenStream,
    span: Span,
)
    ensures
        tokens_of(*final(out)) == tokens_of(*old(out)).push(
            Token::Group { delimiter, inner: tokens_of(inner), span },
        ),
{
    let delimiter = match delimiter {
        Delimiter::Parenthesis => proc_macro2::Delimiter::Parenthesis,
        Delimiter::Brace => proc_macro2::Delimiter::Brace,
        Delimiter::Bracket => proc_macro2::Delimiter::Bracket,
        Delimiter::Invisible => proc_macro2::Delimiter::None,
    };
    let mut group = proc_macro2::Group::new(delimiter, inner);
    group.set_span(span);
    out.append(group);
}

/// Adds the punctuation character `ch` as the last of its operator.
pub(crate) fn put_alone(out: &mut TokenStream, ch: char, span: Span)
    requires
        is_punct(ch),
    ensures
        tokens_of(*final(out)) == tokens_of(*old(out)).punct(ch, span),
{
    put_punct(out, ch, Spacing::Alone, span);
}

/// Adds `::`.
pub(crate) fn put_path_sep(out: &mut TokenStream, span: Span)
    ensures
        tokens_of(*final(out)) == tokens_of(*old(out)).path_sep(span),
{
    put_punct(out, ':', Spacing::Joint, span);
    put_punct(out, ':', Spacing::Alone, span);
}

/// Adds `->`.
pub(crate) fn put_arrow(out: &mut TokenStream, span: Span)
    ensures
        tokens_of(*final(out)) == tokens_of(*old(out)).arrow(span),
{
    put_punct(out, '-', Spacing::Joint, span);
    put_punct(out, '>', Spacing::Alone, span);
}

/// `quote::ToTokens::to_tokens` of a stream adds its tokens behind those of another.
#[verifier::external_body]
pub(crate) fn put_stream(out: &mut TokenStream, tokens: &TokenStream)
    ensures
        tokens_of(*final(out)) == tokens_of(*old(out)) + tokens_of(*tokens),
{
    tokens.to_tokens(out);
}

} // verus!
