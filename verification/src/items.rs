//! The items that a bridge module is made of, and the tokens of each.

use vstd::prelude::*;

use proc_macro2::{Span, TokenStream};

use crate::ident::is_ident;
use crate::names::{
    copy_type_name, free_fn_name, free_link_name, law_names_are_identifiers, make_copy_type_name,
    make_free_fn_name, make_free_link_name,
};
use crate::token::{
    nothing, put_alone, put_arrow, put_group, put_path_sep, put_stream, put_string,
    put_usize_suffixed, put_usize_unsuffixed, put_word, tokens_of, Delimiter, Token, TokenSeq,
};

verus! {

/// The words that items are written with are identifiers or keywords.
proof fn lemma_words()
    ensures
        is_ident("pub"@),
        is_ident("extern"@),
        is_ident("fn"@),
        is_ident("this"@),
        is_ident("mut"@),
        is_ident("super"@),
        is_ident("let"@),
        is_ident("unsafe"@),
        is_ident("Box"@),
        is_ident("from_raw"@),
        is_ident("drop"@),
        is_ident("export_name"@),
        is_ident("link_name"@),
        is_ident("const"@),
        is_ident("_"@),
        is_ident("u8"@),
        is_ident("std"@),
        is_ident("mem"@),
        is_ident("size_of"@),
        is_ident("_assert_copy"@),
        is_ident("assert_copy"@),
        is_ident("repr"@),
        is_ident("C"@),
        is_ident("doc"@),
        is_ident("hidden"@),
        is_ident("struct"@),
        is_ident("impl"@),
        is_ident("inline"@),
        is_ident("always"@),
        is_ident("into_rust_repr"@),
        is_ident("self"@),
        is_ident("transmute"@),
        is_ident("from_rust_repr"@),
        is_ident("Self"@),
        is_ident("Drop"@),
        is_ident("for"@),
        is_ident("ffi"@),
        is_ident("c_void"@),
        is_ident("cfg"@),
        is_ident("feature"@),
        is_ident("allow"@),
        is_ident("non_snake_case"@),
        is_ident("mod"@),
{
    reveal(is_ident);
    reveal_strlit("pub");
    reveal_strlit("extern");
    reveal_strlit("fn");
    reveal_strlit("this");
    reveal_strlit("mut");
    reveal_strlit("super");
    reveal_strlit("let");
    reveal_strlit("unsafe");
    reveal_strlit("Box");
    reveal_strlit("from_raw");
    reveal_strlit("drop");
    reveal_strlit("export_name");
    reveal_strlit("link_name");
    reveal_strlit("const");
    reveal_strlit("_");
    reveal_strlit("u8");
    reveal_strlit("std");
    reveal_strlit("mem");
    reveal_strlit("size_of");
    reveal_strlit("_assert_copy");
    reveal_strlit("assert_copy");
    reveal_strlit("repr");
    reveal_strlit("C");
    reveal_strlit("doc");
    reveal_strlit("hidden");
    reveal_strlit("struct");
    reveal_strlit("impl");
    reveal_strlit("inline");
    reveal_strlit("always");
    reveal_strlit("into_rust_repr");
    reveal_strlit("self");
    reveal_strlit("transmute");
    reveal_strlit("from_rust_repr");
    reveal_strlit("Self");
    reveal_strlit("Drop");
    reveal_strlit("for");
    reveal_strlit("ffi");
    reveal_strlit("c_void");
    reveal_strlit("cfg");
    reveal_strlit("feature");
    reveal_strlit("allow");
    reveal_strlit("non_snake_case");
    reveal_strlit("mod");
}

/// `# [ inner ]`
pub open spec fn attribute(inner: Seq<Token>, cs: Span) -> Seq<Token> {
    nothing().punct('#', cs).brackets(inner, cs)
}

/// Puts an attribute around `inner`.
pub(crate) fn attribute_tokens(inner: TokenStream, cs: Span) -> (out: TokenStream)
    ensures
        tokens_of(out) == attribute(tokens_of(inner), cs),
{
    let mut out = TokenStream::new();
    put_alone(&mut out, '#', cs);
    put_group(&mut out, Delimiter::Bracket, inner, cs);
    out
}

/// `# [ name ( argument ) ]`, with words for the name and for the argument.
pub open spec fn word_attribute(name: &str, argument: &str, cs: Span) -> Seq<Token> {
    attribute(nothing().word(name, cs).parens(nothing().word(argument, cs), cs), cs)
}

/// Writes an attribute that has a word for its argument.
pub(crate) fn word_attribute_tokens(name: &str, argument: &str, cs: Span) -> (out: TokenStream)
    requires
        is_ident(name@),
        is_ident(argument@),
    ensures
        tokens_of(out) == word_attribute(name, argument, cs),
{
    let mut arguments = TokenStream::new();
    put_word(&mut arguments, argument, cs);
    let mut inner = TokenStream::new();
    put_word(&mut inner, name, cs);
    put_group(&mut inner, Delimiter::Parenthesis, arguments, cs);
    attribute_tokens(inner, cs)
}

/// `# [ name = "value" ]`
pub open spec fn value_attribute(name: &str, value: Seq<char>, cs: Span) -> Seq<Token> {
    attribute(nothing().word(name, cs).punct('=', cs).string(value, cs), cs)
}

/// Writes an attribute that has a string for its value.
pub(crate) fn value_attribute_tokens(name: &str, value: &str, cs: Span) -> (out: TokenStream)
    requires
        is_ident(name@),
    ensures
        tokens_of(out) == value_attribute(name, value@, cs),
{
    let mut inner = TokenStream::new();
    put_word(&mut inner, name, cs);
    put_alone(&mut inner, '=', cs);
    put_string(&mut inner, value, cs);
    attribute_tokens(inner, cs)
}

/// `# [ cfg ( feature = name ) ]`
pub open spec fn cfg_feature(name: Seq<Token>, cs: Span) -> Seq<Token> {
    attribute(
        nothing().word("cfg", cs).parens(
            nothing().word("feature", cs).punct('=', cs).tokens(name),
            cs,
        ),
        cs,
    )
}

/// Writes the attribute that keeps an item only if a feature is on.
pub(crate) fn cfg_feature_tokens(name: &TokenStream, cs: Span) -> (out: TokenStream)
    ensures
        tokens_of(out) == cfg_feature(tokens_of(*name), cs),
{
    proof {
        lemma_words();
    }
    let mut condition = TokenStream::new();
    put_word(&mut condition, "feature", cs);
    put_alone(&mut condition, '=', cs);
    put_stream(&mut condition, name);
    let mut inner = TokenStream::new();
    put_word(&mut inner, "cfg", cs);
    put_group(&mut inner, Delimiter::Parenthesis, condition, cs);
    attribute_tokens(inner, cs)
}

/// `super :: ty`, where `ty` stands at `at` and the rest at `span`.
pub open spec fn super_path(ty: Seq<char>, at: Span, span: Span) -> Seq<Token> {
    nothing().word("super", span).path_sep(span).ident(ty, at)
}

/// Writes the path of a type of the enclosing module.
pub(crate) fn super_path_tokens(ty: &str, at: Span, span: Span) -> (out: TokenStream)
    requires
        is_ident(ty@),
    ensures
        tokens_of(out) == super_path(ty@, at, span),
{
    proof {
        lemma_words();
    }
    let mut out = TokenStream::new();
    put_word(&mut out, "super", span);
    put_path_sep(&mut out, span);
    put_word(&mut out, ty, at);
    out
}

/// `* mut std :: ffi :: c_void`
pub open spec fn void_pointer(cs: Span) -> Seq<Token> {
    nothing()
        .punct('*', cs).word("mut", cs)
        .word("std", cs).path_sep(cs).word("ffi", cs).path_sep(cs).word("c_void", cs)
}

/// Writes the type of a pointer to something that only Swift knows.
pub(crate) fn void_pointer_tokens(cs: Span) -> (out: TokenStream)
    ensures
        tokens_of(out) == void_pointer(cs),
{
    proof {
        lemma_words();
    }
    let mut out = TokenStream::new();
    put_alone(&mut out, '*', cs);
    put_word(&mut out, "mut", cs);
    put_word(&mut out, "std", cs);
    put_path_sep(&mut out, cs);
    put_word(&mut out, "ffi", cs);
    put_path_sep(&mut out, cs);
    put_word(&mut out, "c_void", cs);
    out
}

/// `let this = unsafe { Box :: from_raw ( this ) } ; drop ( this ) ;`
pub open spec fn rust_free_body(cs: Span) -> Seq<Token> {
    nothing()
        .word("let", cs).word("this", cs).punct('=', cs)
        .word("unsafe", cs).braces(
            nothing()
                .word("Box", cs).path_sep(cs).word("from_raw", cs)
                .parens(nothing().word("this", cs), cs),
            cs,
        )
        .punct(';', cs)
        .word("drop", cs).parens(nothing().word("this", cs), cs).punct(';', cs)
}

/// Writes the statements that take a box back from its raw pointer and drop it.
fn rust_free_body_tokens(cs: Span) -> (out: TokenStream)
    ensures
        tokens_of(out) == rust_free_body(cs),
{
    proof {
        lemma_words();
    }
    let mut raw = TokenStream::new();
    put_word(&mut raw, "this", cs);
    let mut from_raw = TokenStream::new();
    put_word(&mut from_raw, "Box", cs);
    put_path_sep(&mut from_raw, cs);
    put_word(&mut from_raw, "from_raw", cs);
    put_group(&mut from_raw, Delimiter::Parenthesis, raw, cs);
    let mut dropped = TokenStream::new();
    put_word(&mut dropped, "this", cs);

    let mut out = TokenStream::new();
    put_word(&mut out, "let", cs);
    put_word(&mut out, "this", cs);
    put_alone(&mut out, '=', cs);
    put_word(&mut out, "unsafe", cs);
    put_group(&mut out, Delimiter::Brace, from_raw, cs);
    put_alone(&mut out, ';', cs);
    put_word(&mut out, "drop", cs);
    put_group(&mut out, Delimiter::Parenthesis, dropped, cs);
    put_alone(&mut out, ';', cs);
    out
}

/// The function by which Swift releases a value of the opaque Rust type `ty`:
///
/// ```text
/// #[export_name = "link name"]
/// pub extern "C" fn free_fn_name(this: *mut super::ty) {
///     let this = unsafe { Box::from_raw(this) };
///     drop(this);
/// }
/// ```
pub open spec fn rust_free_fn(ty: Seq<char>, at: Span, cs: Span) -> Seq<Token> {
    value_attribute("export_name", free_link_name(ty), cs)
        .word("pub", cs).word("extern", cs).string("C"@, cs)
        .word("fn", cs).ident(free_fn_name(ty), at)
        .parens(
            nothing()
                .word("this", cs).punct(':', cs)
                .punct('*', cs).word("mut", cs).tokens(super_path(ty, at, cs)),
            cs,
        )
        .braces(rust_free_body(cs), cs)
}

/// Writes the function by which Swift releases a value of an opaque Rust type.
pub(crate) fn rust_free_fn_tokens(ty: &str, at: Span, cs: Span) -> (out: TokenStream)
    requires
        is_ident(ty@),
    ensures
        tokens_of(out) == rust_free_fn(ty@, at, cs),
{
    proof {
        lemma_words();
        law_names_are_identifiers(ty@);
    }
    let link_name = make_free_link_name(ty);
    let fn_name = make_free_fn_name(ty);

    let mut parameter = TokenStream::new();
    put_word(&mut parameter, "this", cs);
    put_alone(&mut parameter, ':', cs);
    put_alone(&mut parameter, '*', cs);
    put_word(&mut parameter, "mut", cs);
    put_stream(&mut parameter, &super_path_tokens(ty, at, cs));

    let mut out = value_attribute_tokens("export_name", link_name.as_str(), cs);
    put_word(&mut out, "pub", cs);
    put_word(&mut out, "extern", cs);
    put_string(&mut out, "C", cs);
    put_word(&mut out, "fn", cs);
    put_word(&mut out, fn_name.as_str(), at);
    put_group(&mut out, Delimiter::Parenthesis, parameter, cs);
    put_group(&mut out, Delimiter::Brace, rust_free_body_tokens(cs), cs);
    out
}

/// `name :: < super :: ty > ( )`, the call of a generic function without arguments.
pub open spec fn turbofish_call(name: &str, ty: Seq<char>, at: Span, span: Span) -> Seq<Token> {
    nothing()
        .word(name, span).path_sep(span)
        .punct('<', span).tokens(super_path(ty, at, span)).punct('>', span)
        .parens(nothing(), span)
}

/// Writes the call of a generic function without arguments.
fn turbofish_call_tokens(name: &str, ty: &str, at: Span, span: Span) -> (out: TokenStream)
    requires
        is_ident(name@),
        is_ident(ty@),
    ensures
        tokens_of(out) == turbofish_call(name, ty@, at, span),
{
    let mut out = TokenStream::new();
    put_word(&mut out, name, span);
    put_path_sep(&mut out, span);
    put_alone(&mut out, '<', span);
    put_stream(&mut out, &super_path_tokens(ty, at, span));
    put_alone(&mut out, '>', span);
    put_group(&mut out, Delimiter::Parenthesis, TokenStream::new(), span);
    out
}

/// `u8 ; std :: mem :: size_of :: < super :: ty > ( )`, all of it at the type's own place.
pub open spec fn bytes_of(ty: Seq<char>, at: Span) -> Seq<Token> {
    nothing()
        .word("u8", at).punct(';', at)
        .word("std", at).path_sep(at).word("mem", at).path_sep(at)
        .tokens(turbofish_call("size_of", ty, at, at))
}

/// `path :: assert_copy :: < super :: ty > ( ) ;`
pub open spec fn assert_copy_body(path: Seq<Token>, ty: Seq<char>, at: Span) -> Seq<Token> {
    path.path_sep(at).tokens(turbofish_call("assert_copy", ty, at, at)).punct(';', at)
}

/// The statements inside [`assert_size`].
pub open spec fn assert_size_body(
    path: Seq<Token>,
    ty: Seq<char>,
    at: Span,
    size: usize,
    cs: Span,
) -> Seq<Token> {
    nothing()
        .word("let", at).word("_", at).punct(':', at).brackets(bytes_of(ty, at), at)
        .punct('=', at)
        .brackets(nothing().number(0, false, at).punct(';', at).number(size, true, cs), at)
        .punct(';', at)
        .word("fn", at).word("_assert_copy", at).parens(nothing(), at)
        .braces(assert_copy_body(path, ty, at), at)
}

/// The item that compiles only if the `Copy` type `ty` has `size` bytes and is `Copy`. It stands
/// at the place where the type is declared, so that an error points there:
///
/// ```text
/// const _: () = {
///     let _: [u8; std::mem::size_of::<super::ty>()] = [0; size];
///     fn _assert_copy() {
///         path::assert_copy::<super::ty>();
///     }
/// };
/// ```
pub open spec fn assert_size(
    path: Seq<Token>,
    ty: Seq<char>,
    at: Span,
    size: usize,
    cs: Span,
) -> Seq<Token> {
    nothing()
        .word("const", at).word("_", at).punct(':', at).parens(nothing(), at)
        .punct('=', at).braces(assert_size_body(path, ty, at, size, cs), at).punct(';', at)
}

/// Writes the item that checks the size of a `Copy` type.
pub(crate) fn assert_size_tokens(
    path: &TokenStream,
    ty: &str,
    at: Span,
    size: usize,
    cs: Span,
) -> (out: TokenStream)
    requires
        is_ident(ty@),
    ensures
        tokens_of(out) == assert_size(tokens_of(*path), ty@, at, size, cs),
{
    proof {
        lemma_words();
    }
    let mut bytes = TokenStream::new();
    put_word(&mut bytes, "u8", at);
    put_alone(&mut bytes, ';', at);
    put_word(&mut bytes, "std", at);
    put_path_sep(&mut bytes, at);
    put_word(&mut bytes, "mem", at);
    put_path_sep(&mut bytes, at);
    put_stream(&mut bytes, &turbofish_call_tokens("size_of", ty, at, at));

    let mut zeros = TokenStream::new();
    put_usize_unsuffixed(&mut zeros, 0, at);
    put_alone(&mut zeros, ';', at);
    put_usize_suffixed(&mut zeros, size, cs);

    let mut call = TokenStream::new();
    put_stream(&mut call, path);
    assert(tokens_of(call) =~= tokens_of(*path));
    put_path_sep(&mut call, at);
    put_stream(&mut call, &turbofish_call_tokens("assert_copy", ty, at, at));
    put_alone(&mut call, ';', at);

    let mut body = TokenStream::new();
    put_word(&mut body, "let", at);
    put_word(&mut body, "_", at);
    put_alone(&mut body, ':', at);
    put_group(&mut body, Delimiter::Bracket, bytes, at);
    put_alone(&mut body, '=', at);
    put_group(&mut body, Delimiter::Bracket, zeros, at);
    put_alone(&mut body, ';', at);
    put_word(&mut body, "fn", at);
    put_word(&mut body, "_assert_copy", at);
    put_group(&mut body, Delimiter::Parenthesis, TokenStream::new(), at);
    put_group(&mut body, Delimiter::Brace, call, at);

    let mut out = TokenStream::new();
    put_word(&mut out, "const", at);
    put_word(&mut out, "_", at);
    put_alone(&mut out, ':', at);
    put_group(&mut out, Delimiter::Parenthesis, TokenStream::new(), at);
    put_alone(&mut out, '=', at);
    put_group(&mut out, Delimiter::Brace, body, at);
    put_alone(&mut out, ';', at);
    out
}

/// `unsafe { std :: mem :: transmute ( value ) }`
pub open spec fn transmute_body(value: &str, cs: Span) -> Seq<Token> {
    nothing().word("unsafe", cs).braces(
        nothing()
            .word("std", cs).path_sep(cs).word("mem", cs).path_sep(cs).word("transmute", cs)
            .parens(nothing().word(value, cs), cs),
        cs,
    )
}

/// Writes a function body that reads the bytes of `value` as another type.
fn transmute_body_tokens(value: &str, cs: Span) -> (out: TokenStream)
    requires
        is_ident(value@),
    ensures
        tokens_of(out) == transmute_body(value, cs),
{
    proof {
        lemma_words();
    }
    let mut argument = TokenStream::new();
    put_word(&mut argument, value, cs);
    let mut call = TokenStream::new();
    put_word(&mut call, "std", cs);
    put_path_sep(&mut call, cs);
    put_word(&mut call, "mem", cs);
    put_path_sep(&mut call, cs);
    put_word(&mut call, "transmute", cs);
    put_group(&mut call, Delimiter::Parenthesis, argument, cs);
    let mut out = TokenStream::new();
    put_word(&mut out, "unsafe", cs);
    put_group(&mut out, Delimiter::Brace, call, cs);
    out
}

/// ```text
/// #[inline(always)]
/// fn into_rust_repr(self) -> super::ty { unsafe { std::mem::transmute(self) } }
/// ```
pub open spec fn into_rust_repr(ty: Seq<char>, at: Span, cs: Span) -> Seq<Token> {
    word_attribute("inline", "always", cs)
        .word("fn", cs).word("into_rust_repr", cs).parens(nothing().word("self", cs), cs)
        .arrow(cs).tokens(super_path(ty, at, cs))
        .braces(transmute_body("self", cs), cs)
}

/// Writes the method that turns the carried bytes into a value.
fn into_rust_repr_tokens(ty: &str, at: Span, cs: Span) -> (out: TokenStream)
    requires
        is_ident(ty@),
    ensures
        tokens_of(out) == into_rust_repr(ty@, at, cs),
{
    proof {
        lemma_words();
    }
    let mut parameter = TokenStream::new();
    put_word(&mut parameter, "self", cs);
    let mut out = word_attribute_tokens("inline", "always", cs);
    put_word(&mut out, "fn", cs);
    put_word(&mut out, "into_rust_repr", cs);
    put_group(&mut out, Delimiter::Parenthesis, parameter, cs);
    put_arrow(&mut out, cs);
    put_stream(&mut out, &super_path_tokens(ty, at, cs));
    put_group(&mut out, Delimiter::Brace, transmute_body_tokens("self", cs), cs);
    out
}

/// ```text
/// #[inline(always)]
/// fn from_rust_repr(repr: super::ty) -> Self { unsafe { std::mem::transmute(repr) } }
/// ```
pub open spec fn from_rust_repr(ty: Seq<char>, at: Span, cs: Span) -> Seq<Token> {
    word_attribute("inline", "always", cs)
        .word("fn", cs).word("from_rust_repr", cs)
        .parens(nothing().word("repr", cs).punct(':', cs).tokens(super_path(ty, at, cs)), cs)
        .arrow(cs).word("Self", cs)
        .braces(transmute_body("repr", cs), cs)
}

/// Writes the function that turns a value into the bytes that are carried.
fn from_rust_repr_tokens(ty: &str, at: Span, cs: Span) -> (out: TokenStream)
    requires
        is_ident(ty@),
    ensures
        tokens_of(out) == from_rust_repr(ty@, at, cs),
{
    proof {
        lemma_words();
    }
    let mut parameter = TokenStream::new();
    put_word(&mut parameter, "repr", cs);
    put_alone(&mut parameter, ':', cs);
    put_stream(&mut parameter, &super_path_tokens(ty, at, cs));
    let mut out = word_attribute_tokens("inline", "always", cs);
    put_word(&mut out, "fn", cs);
    put_word(&mut out, "from_rust_repr", cs);
    put_group(&mut out, Delimiter::Parenthesis, parameter, cs);
    put_arrow(&mut out, cs);
    put_word(&mut out, "Self", cs);
    put_group(&mut out, Delimiter::Brace, transmute_body_tokens("repr", cs), cs);
    out
}

/// The struct that carries the bytes of a value of the `Copy` type `ty` across the bridge:
///
/// ```text
/// #[repr(C)]
/// #[doc(hidden)]
/// pub struct copy_type_name([u8; size]);
/// impl copy_type_name {
///     // into_rust_repr
///     // from_rust_repr
/// }
/// ```
pub open spec fn copy_struct(ty: Seq<char>, at: Span, size: usize, cs: Span) -> Seq<Token> {
    word_attribute("repr", "C", cs).tokens(word_attribute("doc", "hidden", cs))
        .word("pub", cs).word("struct", cs).ident(copy_type_name(ty), at)
        .parens(
            nothing().brackets(
                nothing().word("u8", cs).punct(';', cs).number(size, true, cs),
                cs,
            ),
            cs,
        )
        .punct(';', cs)
        .word("impl", cs).ident(copy_type_name(ty), at)
        .braces(into_rust_repr(ty, at, cs).tokens(from_rust_repr(ty, at, cs)), cs)
}

/// Writes the struct that carries the bytes of a value of a `Copy` type.
pub(crate) fn copy_struct_tokens(ty: &str, at: Span, size: usize, cs: Span) -> (out: TokenStream)
    requires
        is_ident(ty@),
    ensures
        tokens_of(out) == copy_struct(ty@, at, size, cs),
{
    proof {
        lemma_words();
        law_names_are_identifiers(ty@);
    }
    let name = make_copy_type_name(ty);

    let mut array = TokenStream::new();
    put_word(&mut array, "u8", cs);
    put_alone(&mut array, ';', cs);
    put_usize_suffixed(&mut array, size, cs);
    let mut field = TokenStream::new();
    put_group(&mut field, Delimiter::Bracket, array, cs);

    let mut methods = into_rust_repr_tokens(ty, at, cs);
    put_stream(&mut methods, &from_rust_repr_tokens(ty, at, cs));

    let mut out = word_attribute_tokens("repr", "C", cs);
    put_stream(&mut out, &word_attribute_tokens("doc", "hidden", cs));
    put_word(&mut out, "pub", cs);
    put_word(&mut out, "struct", cs);
    put_word(&mut out, name.as_str(), at);
    put_group(&mut out, Delimiter::Parenthesis, field, cs);
    put_alone(&mut out, ';', cs);
    put_word(&mut out, "impl", cs);
    put_word(&mut out, name.as_str(), at);
    put_group(&mut out, Delimiter::Brace, methods, cs);
    out
}

/// The declaration of the function by which Rust releases a value of the Swift class `ty`:
///
/// ```text
/// #[link_name = "link name"]
/// fn free_fn_name(this: *mut std::ffi::c_void);
/// ```
pub open spec fn swift_free_decl(ty: Seq<char>, at: Span, cs: Span) -> Seq<Token> {
    value_attribute("link_name", free_link_name(ty), cs)
        .word("fn", cs).ident(free_fn_name(ty), at)
        .parens(nothing().word("this", cs).punct(':', cs).tokens(void_pointer(cs)), cs)
        .punct(';', cs)
}

/// Declares the function by which Rust releases a value of a Swift class.
pub(crate) fn swift_free_decl_tokens(ty: &str, at: Span, cs: Span) -> (out: TokenStream)
    requires
        is_ident(ty@),
    ensures
        tokens_of(out) == swift_free_decl(ty@, at, cs),
{
    proof {
        lemma_words();
        law_names_are_identifiers(ty@);
    }
    let link_name = make_free_link_name(ty);
    let fn_name = make_free_fn_name(ty);

    let mut parameter = TokenStream::new();
    put_word(&mut parameter, "this", cs);
    put_alone(&mut parameter, ':', cs);
    put_stream(&mut parameter, &void_pointer_tokens(cs));

    let mut out = value_attribute_tokens("link_name", link_name.as_str(), cs);
    put_word(&mut out, "fn", cs);
    put_word(&mut out, fn_name.as_str(), at);
    put_group(&mut out, Delimiter::Parenthesis, parameter, cs);
    put_alone(&mut out, ';', cs);
    out
}

/// `impl ty { methods }` if there are methods, nothing otherwise.
pub open spec fn method_impl(
    ty: Seq<char>,
    at: Span,
    methods: Option<Seq<Token>>,
    cs: Span,
) -> Seq<Token> {
    match methods {
        Some(methods) => nothing().word("impl", cs).ident(ty, at).braces(methods, cs),
        None => nothing(),
    }
}

/// `fn drop ( & mut self ) { unsafe { free_fn_name ( self . 0 ) } }`
pub open spec fn drop_method(ty: Seq<char>, at: Span, cs: Span) -> Seq<Token> {
    nothing()
        .word("fn", cs).word("drop", cs)
        .parens(nothing().punct('&', cs).word("mut", cs).word("self", cs), cs)
        .braces(
            nothing().word("unsafe", cs).braces(
                nothing().ident(free_fn_name(ty), at).parens(
                    nothing().word("self", cs).punct('.', cs).number(0, false, cs),
                    cs,
                ),
                cs,
            ),
            cs,
        )
}

/// Writes the method that releases a value of a Swift class.
fn drop_method_tokens(ty: &str, at: Span, cs: Span) -> (out: TokenStream)
    requires
        is_ident(ty@),
    ensures
        tokens_of(out) == drop_method(ty@, at, cs),
{
    proof {
        lemma_words();
        law_names_are_identifiers(ty@);
    }
    let fn_name = make_free_fn_name(ty);

    let mut pointer = TokenStream::new();
    put_word(&mut pointer, "self", cs);
    put_alone(&mut pointer, '.', cs);
    put_usize_unsuffixed(&mut pointer, 0, cs);
    let mut call = TokenStream::new();
    put_word(&mut call, fn_name.as_str(), at);
    put_group(&mut call, Delimiter::Parenthesis, pointer, cs);
    let mut body = TokenStream::new();
    put_word(&mut body, "unsafe", cs);
    put_group(&mut body, Delimiter::Brace, call, cs);
    let mut receiver = TokenStream::new();
    put_alone(&mut receiver, '&', cs);
    put_word(&mut receiver, "mut", cs);
    put_word(&mut receiver, "self", cs);

    let mut out = TokenStream::new();
    put_word(&mut out, "fn", cs);
    put_word(&mut out, "drop", cs);
    put_group(&mut out, Delimiter::Parenthesis, receiver, cs);
    put_group(&mut out, Delimiter::Brace, body, cs);
    out
}

/// `impl Drop for ty { drop method }`
pub open spec fn drop_impl(ty: Seq<char>, at: Span, cs: Span) -> Seq<Token> {
    nothing()
        .word("impl", cs).word("Drop", cs).word("for", cs).ident(ty, at)
        .braces(drop_method(ty, at, cs), cs)
}

/// The struct that stands for the Swift class `ty` in Rust:
///
/// ```text
/// #[repr(C)]
/// pub struct ty(*mut std::ffi::c_void);
/// impl ty { methods }
/// impl Drop for ty {
///     fn drop(&mut self) { unsafe { free_fn_name(self.0) } }
/// }
/// ```
pub open spec fn swift_class_struct(
    ty: Seq<char>,
    at: Span,
    methods: Option<Seq<Token>>,
    cs: Span,
) -> Seq<Token> {
    word_attribute("repr", "C", cs)
        .word("pub", cs).word("struct", cs).ident(ty, at)
        .parens(void_pointer(cs), cs).punct(';', cs)
        .tokens(method_impl(ty, at, methods, cs))
        .tokens(drop_impl(ty, at, cs))
}

/// Writes the struct that stands for a Swift class in Rust.
pub(crate) fn swift_class_struct_tokens(
    ty: &str,
    at: Span,
    methods: Option<&TokenStream>,
    cs: Span,
) -> (out: TokenStream)
    requires
        is_ident(ty@),
    ensures
        tokens_of(out) == swift_class_struct(
            ty@,
            at,
            match methods {
                Some(methods) => Some(tokens_of(*methods)),
                None => None,
            },
            cs,
        ),
{
    proof {
        lemma_words();
    }
    let mut out = word_attribute_tokens("repr", "C", cs);
    put_word(&mut out, "pub", cs);
    put_word(&mut out, "struct", cs);
    put_word(&mut out, ty, at);
    put_group(&mut out, Delimiter::Parenthesis, void_pointer_tokens(cs), cs);
    put_alone(&mut out, ';', cs);

    let mut method_impl = TokenStream::new();
    if let Some(methods) = methods {
        let mut inner = TokenStream::new();
        put_stream(&mut inner, methods);
        assert(tokens_of(inner) =~= tokens_of(*methods));
        put_word(&mut method_impl, "impl", cs);
        put_word(&mut method_impl, ty, at);
        put_group(&mut method_impl, Delimiter::Brace, inner, cs);
    }

    let mut drop_impl = TokenStream::new();
    put_word(&mut drop_impl, "impl", cs);
    put_word(&mut drop_impl, "Drop", cs);
    put_word(&mut drop_impl, "for", cs);
    put_word(&mut drop_impl, ty, at);
    put_group(&mut drop_impl, Delimiter::Brace, drop_method_tokens(ty, at, cs), cs);
    put_stream(&mut out, &method_impl);
    put_stream(&mut out, &drop_impl);
    out
}

/// `extern "C" { declarations }`
pub open spec fn foreign_block(declarations: Seq<Token>, cs: Span) -> Seq<Token> {
    nothing().word("extern", cs).string("C"@, cs).braces(declarations, cs)
}

/// Writes the block that holds the declarations of what Swift exports.
pub(crate) fn foreign_block_tokens(declarations: TokenStream, cs: Span) -> (out: TokenStream)
    ensures
        tokens_of(out) == foreign_block(tokens_of(declarations), cs),
{
    proof {
        lemma_words();
    }
    let mut out = TokenStream::new();
    put_word(&mut out, "extern", cs);
    put_string(&mut out, "C", cs);
    put_group(&mut out, Delimiter::Brace, declarations, cs);
    out
}

/// ```text
/// #[allow(non_snake_case)]
/// attributes
/// mod name { body }
/// ```
pub open spec fn mod_item(
    attributes: Seq<Token>,
    name: Seq<Token>,
    body: Seq<Token>,
    cs: Span,
) -> Seq<Token> {
    word_attribute("allow", "non_snake_case", cs)
        .tokens(attributes)
        .word("mod", cs).tokens(name).braces(body, cs)
}

/// Writes a module.
pub(crate) fn mod_item_tokens(
    attributes: &TokenStream,
    name: &TokenStream,
    body: TokenStream,
    cs: Span,
) -> (out: TokenStream)
    ensures
        tokens_of(out) == mod_item(
            tokens_of(*attributes),
            tokens_of(*name),
            tokens_of(body),
            cs,
        ),
{
    proof {
        lemma_words();
    }
    let mut out = word_attribute_tokens("allow", "non_snake_case", cs);
    put_stream(&mut out, attributes);
    put_word(&mut out, "mod", cs);
    put_stream(&mut out, name);
    put_group(&mut out, Delimiter::Brace, body, cs);
    out
}

} // verus!
