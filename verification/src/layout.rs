//! Where every token of a bridge module stands.

use vstd::prelude::*;

use proc_macro2::Span;

use crate::codegen::{
    declared_swift_fn, declared_swift_type, exported_fn, exported_type, freestanding_swift_fn,
    gather, is_swift_method_of, lemma_gather_nothing, module_attribute, opaque_rust_items,
    shared_enum, shared_struct, swift_class, swift_method, swift_methods,
};
use crate::items::{
    assert_size, cfg_feature, copy_struct, method_impl, rust_free_fn, swift_class_struct,
    swift_free_decl,
};
use crate::laws::{
    law_opaque_rust_items_stand_in_the_body, law_swift_method_stands_in_its_class, occurs,
};
use crate::module::{
    CfgAttr, ParsedExternFn, SharedTypeDeclaration, SwiftBridgeModule, TypeDeclaration,
};
use crate::token::{tokens_of, Delimiter, Spacing, Token};

verus! {

/// The function that releases an opaque Rust type, token by token: it is exported under the
/// symbol `__swift_bridge__$ty$_free`, takes a raw pointer to the type, and drops the box that
/// the pointer came from.
pub proof fn law_rust_release_function(ty: Seq<char>, at: Span, cs: Span)
    ensures
        ({
            let word = |text: Seq<char>| Token::Ident { text, span: cs };
            let alone = |ch: char| Token::Punct { ch, spacing: Spacing::Alone, span: cs };
            let joint = |ch: char| Token::Punct { ch, spacing: Spacing::Joint, span: cs };
            let group = |delimiter: Delimiter, inner: Seq<Token>|
                Token::Group { delimiter, inner, span: cs };
            let all = rust_free_fn(ty, at, cs);
            let (attribute, parameter, body) = (all[1]->inner, all[7]->inner, all[8]->inner);
            let (boxed, dropped) = (body[4]->inner, body[7]->inner);
            let raw = boxed[4]->inner;
            &&& all =~= seq![
                alone('#'),
                group(Delimiter::Bracket, attribute),
                word("pub"@),
                word("extern"@),
                Token::Str { value: "C"@, span: cs },
                word("fn"@),
                Token::Ident { text: "__swift_bridge__"@ + ty + "__free"@, span: at },
                group(Delimiter::Parenthesis, parameter),
                group(Delimiter::Brace, body),
            ]
            &&& attribute =~= seq![
                word("export_name"@),
                alone('='),
                Token::Str {
                    value: "__swift_bridge__"@ + "$"@ + ty + "$_free"@,
                    span: cs,
                },
            ]
            &&& parameter =~= seq![
                word("this"@),
                alone(':'),
                alone('*'),
                word("mut"@),
                word("super"@),
                joint(':'),
                alone(':'),
                Token::Ident { text: ty, span: at },
            ]
            &&& body =~= seq![
                word("let"@),
                word("this"@),
                alone('='),
                word("unsafe"@),
                group(Delimiter::Brace, boxed),
                alone(';'),
                word("drop"@),
                group(Delimiter::Parenthesis, dropped),
                alone(';'),
            ]
            &&& boxed =~= seq![
                word("Box"@),
                joint(':'),
                alone(':'),
                word("from_raw"@),
                group(Delimiter::Parenthesis, raw),
            ]
            &&& raw =~= seq![word("this"@)]
            &&& dropped =~= seq![word("this"@)]
        }),
{
}

/// The size check of a `Copy` type, token by token: it stands at the type's own place, compares
/// the type's bytes with an array of exactly `size` zeros, and asks for `Copy`.
pub proof fn law_size_check(path: Seq<Token>, ty: Seq<char>, at: Span, size: usize, cs: Span)
    ensures
        ({
            let word = |text: Seq<char>| Token::Ident { text, span: at };
            let alone = |ch: char| Token::Punct { ch, spacing: Spacing::Alone, span: at };
            let joint = |ch: char| Token::Punct { ch, spacing: Spacing::Joint, span: at };
            let group = |delimiter: Delimiter, inner: Seq<Token>|
                Token::Group { delimiter, inner, span: at };
            let all = assert_size(path, ty, at, size, cs);
            let body = all[5]->inner;
            let (bytes, zeros, asking) = (body[3]->inner, body[5]->inner, body[10]->inner);
            &&& all =~= seq![
                word("const"@),
                word("_"@),
                alone(':'),
                group(Delimiter::Parenthesis, Seq::empty()),
                alone('='),
                group(Delimiter::Brace, body),
                alone(';'),
            ]
            &&& body =~= seq![
                word("let"@),
                word("_"@),
                alone(':'),
                group(Delimiter::Bracket, bytes),
                alone('='),
                group(Delimiter::Bracket, zeros),
                alone(';'),
                word("fn"@),
                word("_assert_copy"@),
                group(Delimiter::Parenthesis, Seq::empty()),
                group(Delimiter::Brace, asking),
            ]
            &&& bytes =~= seq![
                word("u8"@),
                alone(';'),
                word("std"@),
                joint(':'),
                alone(':'),
                word("mem"@),
                joint(':'),
                alone(':'),
                word("size_of"@),
                joint(':'),
                alone(':'),
                alone('<'),
                word("super"@),
                joint(':'),
                alone(':'),
                word(ty),
                alone('>'),
                group(Delimiter::Parenthesis, Seq::empty()),
            ]
            &&& zeros =~= seq![
                Token::Usize { number: 0, suffixed: false, span: at },
                alone(';'),
                Token::Usize { number: size, suffixed: true, span: cs },
            ]
            &&& asking =~= path + seq![
                joint(':'),
                alone(':'),
                word("assert_copy"@),
                joint(':'),
                alone(':'),
                alone('<'),
                word("super"@),
                joint(':'),
                alone(':'),
                word(ty),
                alone('>'),
                group(Delimiter::Parenthesis, Seq::empty()),
                alone(';'),
            ]
        }),
{
}

/// The struct that carries a `Copy` type, token by token: its one field is an array of exactly
/// `size` bytes, and it is read as a value of the type and made from one.
pub proof fn law_copy_carrier(ty: Seq<char>, at: Span, size: usize, cs: Span)
    ensures
        ({
            let word = |text: Seq<char>| Token::Ident { text, span: cs };
            let alone = |ch: char| Token::Punct { ch, spacing: Spacing::Alone, span: cs };
            let joint = |ch: char| Token::Punct { ch, spacing: Spacing::Joint, span: cs };
            let group = |delimiter: Delimiter, inner: Seq<Token>|
                Token::Group { delimiter, inner, span: cs };
            let name = Token::Ident { text: "__swift_bridge__"@ + ty, span: at };
            let all = copy_struct(ty, at, size, cs);
            let (repr, doc) = (all[1]->inner, all[3]->inner);
            let (fields, methods) = (all[7]->inner, all[11]->inner);
            let array = fields[0]->inner;
            let (into_inline, from_inline) = (methods[1]->inner, methods[13]->inner);
            let (into_parameter, from_parameter) = (methods[4]->inner, methods[16]->inner);
            let (into_body, from_body) = (methods[11]->inner, methods[20]->inner);
            let (into_call, from_call) = (into_body[1]->inner, from_body[1]->inner);
            &&& all =~= seq![
                alone('#'),
                group(Delimiter::Bracket, repr),
                alone('#'),
                group(Delimiter::Bracket, doc),
                word("pub"@),
                word("struct"@),
                name,
                group(Delimiter::Parenthesis, fields),
                alone(';'),
                word("impl"@),
                name,
                group(Delimiter::Brace, methods),
            ]
            &&& repr =~= seq![word("repr"@), group(Delimiter::Parenthesis, repr[1]->inner)]
            &&& repr[1]->inner =~= seq![word("C"@)]
            &&& doc =~= seq![word("doc"@), group(Delimiter::Parenthesis, doc[1]->inner)]
            &&& doc[1]->inner =~= seq![word("hidden"@)]
            &&& fields =~= seq![group(Delimiter::Bracket, array)]
            &&& array =~= seq![
                word("u8"@),
                alone(';'),
                Token::Usize { number: size, suffixed: true, span: cs },
            ]
            &&& methods =~= seq![
                alone('#'),
                group(Delimiter::Bracket, into_inline),
                word("fn"@),
                word("into_rust_repr"@),
                group(Delimiter::Parenthesis, into_parameter),
                joint('-'),
                alone('>'),
                word("super"@),
                joint(':'),
                alone(':'),
                Token::Ident { text: ty, span: at },
                group(Delimiter::Brace, into_body),
                alone('#'),
                group(Delimiter::Bracket, from_inline),
                word("fn"@),
                word("from_rust_repr"@),
                group(Delimiter::Parenthesis, from_parameter),
                joint('-'),
                alone('>'),
                word("Self"@),
                group(Delimiter::Brace, from_body),
            ]
            &&& into_inline =~= seq![
                word("inline"@),
                group(Delimiter::Parenthesis, into_inline[1]->inner),
            ]
            &&& into_inline[1]->inner =~= seq![word("always"@)]
            &&& from_inline =~= into_inline
            &&& into_parameter =~= seq![word("self"@)]
            &&& from_parameter =~= seq![
                word("repr"@),
                alone(':'),
                word("super"@),
                joint(':'),
                alone(':'),
                Token::Ident { text: ty, span: at },
            ]
            &&& into_body =~= seq![word("unsafe"@), group(Delimiter::Brace, into_call)]
            &&& from_body =~= seq![word("unsafe"@), group(Delimiter::Brace, from_call)]
            &&& into_call =~= seq![
                word("std"@),
                joint(':'),
                alone(':'),
                word("mem"@),
                joint(':'),
                alone(':'),
                word("transmute"@),
                group(Delimiter::Parenthesis, into_call[7]->inner),
            ]
            &&& into_call[7]->inner =~= seq![word("self"@)]
            &&& from_call =~= into_call.update(
                7,
                group(Delimiter::Parenthesis, from_call[7]->inner),
            )
            &&& from_call[7]->inner =~= seq![word("repr"@)]
        }),
{
}

/// The declaration of the function that releases a Swift class, token by token: it is linked
/// under the symbol `__swift_bridge__$ty$_free` and takes an untyped pointer.
pub proof fn law_swift_release_declaration(ty: Seq<char>, at: Span, cs: Span)
    ensures
        ({
            let word = |text: Seq<char>| Token::Ident { text, span: cs };
            let alone = |ch: char| Token::Punct { ch, spacing: Spacing::Alone, span: cs };
            let joint = |ch: char| Token::Punct { ch, spacing: Spacing::Joint, span: cs };
            let group = |delimiter: Delimiter, inner: Seq<Token>|
                Token::Group { delimiter, inner, span: cs };
            let all = swift_free_decl(ty, at, cs);
            let (attribute, parameter) = (all[1]->inner, all[4]->inner);
            &&& all =~= seq![
                alone('#'),
                group(Delimiter::Bracket, attribute),
                word("fn"@),
                Token::Ident { text: "__swift_bridge__"@ + ty + "__free"@, span: at },
                group(Delimiter::Parenthesis, parameter),
                alone(';'),
            ]
            &&& attribute =~= seq![
                word("link_name"@),
                alone('='),
                Token::Str {
                    value: "__swift_bridge__"@ + "$"@ + ty + "$_free"@,
                    span: cs,
                },
            ]
            &&& parameter =~= seq![
                word("this"@),
                alone(':'),
                alone('*'),
                word("mut"@),
                word("std"@),
                joint(':'),
                alone(':'),
                word("ffi"@),
                joint(':'),
                alone(':'),
                word("c_void"@),
            ]
        }),
{
}

/// The struct of a Swift class, token by token: it holds an untyped pointer, has a block with
/// the methods exactly if there are any, and hands the pointer back when it is dropped.
pub proof fn law_swift_class_struct(
    ty: Seq<char>,
    at: Span,
    methods: Option<Seq<Token>>,
    cs: Span,
)
    ensures
        ({
            let word = |text: Seq<char>| Token::Ident { text, span: cs };
            let alone = |ch: char| Token::Punct { ch, spacing: Spacing::Alone, span: cs };
            let joint = |ch: char| Token::Punct { ch, spacing: Spacing::Joint, span: cs };
            let group = |delimiter: Delimiter, inner: Seq<Token>|
                Token::Group { delimiter, inner, span: cs };
            let name = Token::Ident { text: ty, span: at };
            let all = swift_class_struct(ty, at, methods, cs);
            let (repr, fields) = (all[1]->inner, all[5]->inner);
            let dropping = all.last()->inner;
            let (receiver, body) = (dropping[2]->inner, dropping[3]->inner);
            let call = body[1]->inner;
            let argument = call[1]->inner;
            let inherent: Seq<Token> = if methods is Some {
                seq![word("impl"@), name, group(Delimiter::Brace, methods->0)]
            } else {
                Seq::empty()
            };
            &&& all =~= seq![
                alone('#'),
                group(Delimiter::Bracket, repr),
                word("pub"@),
                word("struct"@),
                name,
                group(Delimiter::Parenthesis, fields),
                alone(';'),
            ] + inherent + seq![
                word("impl"@),
                word("Drop"@),
                word("for"@),
                name,
                group(Delimiter::Brace, dropping),
            ]
            &&& repr =~= seq![word("repr"@), group(Delimiter::Parenthesis, repr[1]->inner)]
            &&& repr[1]->inner =~= seq![word("C"@)]
            &&& fields =~= seq![
                alone('*'),
                word("mut"@),
                word("std"@),
                joint(':'),
                alone(':'),
                word("ffi"@),
                joint(':'),
                alone(':'),
                word("c_void"@),
            ]
            &&& dropping =~= seq![
                word("fn"@),
                word("drop"@),
                group(Delimiter::Parenthesis, receiver),
                group(Delimiter::Brace, body),
            ]
            &&& receiver =~= seq![alone('&'), word("mut"@), word("self"@)]
            &&& body =~= seq![word("unsafe"@), group(Delimiter::Brace, call)]
            &&& call =~= seq![
                Token::Ident { text: "__swift_bridge__"@ + ty + "__free"@, span: at },
                group(Delimiter::Parenthesis, argument),
            ]
            &&& argument =~= seq![
                word("self"@),
                alone('.'),
                Token::Usize { number: 0, suffixed: false, span: cs },
            ]
        }),
{
}

/// The attribute of a condition, token by token: `#[cfg(feature = name)]`.
pub proof fn law_condition(name: Seq<Token>, cs: Span)
    ensures
        ({
            let word = |text: Seq<char>| Token::Ident { text, span: cs };
            let alone = |ch: char| Token::Punct { ch, spacing: Spacing::Alone, span: cs };
            let group = |delimiter: Delimiter, inner: Seq<Token>|
                Token::Group { delimiter, inner, span: cs };
            let all = cfg_feature(name, cs);
            let attribute = all[1]->inner;
            &&& all =~= seq![alone('#'), group(Delimiter::Bracket, attribute)]
            &&& attribute =~= seq![
                word("cfg"@),
                group(Delimiter::Parenthesis, attribute[1]->inner),
            ]
            &&& attribute[1]->inner =~= seq![word("feature"@), alone('=')] + name
        }),
{
}

/// What all items contribute is what those contribute that contribute anything.
proof fn lemma_section<A>(
    items: Seq<A>,
    keep: spec_fn(A) -> bool,
    part: spec_fn(A) -> Seq<Token>,
    piece: spec_fn(A) -> Seq<Token>,
)
    requires
        forall|x: A| #[trigger]
            piece(x) == if keep(x) {
                part(x)
            } else {
                Seq::<Token>::empty()
            },
    ensures
        gather(items, piece) == items.filter(keep).flat_map(part),
    decreases items.len(),
{
    reveal(Seq::filter);
    if items.len() == 0 {
        assert(items.filter(keep).flat_map(part) =~= Seq::<Token>::empty());
    } else {
        let (front, last) = (items.drop_last(), items.last());
        lemma_section(front, keep, part, piece);
        assert(gather(items, piece) == gather(front, piece) + piece(last));
        if keep(last) {
            assert(items.filter(keep) == front.filter(keep).push(last));
            front.filter(keep).lemma_flat_map_push(part, last);
        } else {
            assert(items.filter(keep) == front.filter(keep));
            assert(gather(items, piece) =~= gather(front, piece));
        }
    }
}

/// Something is kept of a sequence exactly if something in it is to be kept.
proof fn lemma_any_kept<A>(items: Seq<A>, keep: spec_fn(A) -> bool)
    ensures
        items.filter(keep).len() > 0 <==> exists|i: int|
            0 <= i < items.len() && keep(#[trigger] items[i]),
{
    if items.filter(keep).len() > 0 {
        let x = items.filter(keep)[0];
        assert(items.filter(keep).contains(x));
        items.lemma_filter_contains_rev(keep, x);
        items.lemma_filter_pred(keep, 0);
    }
    if exists|i: int| 0 <= i < items.len() && keep(#[trigger] items[i]) {
        let i = choose|i: int| 0 <= i < items.len() && keep(#[trigger] items[i]);
        items.lemma_filter_contains(keep, i);
    }
}

/// The body of a module is exactly its sections, one behind the other, each with what its parts
/// contribute, once and in the order of their declaration: the definitions of the shared structs,
/// those of the shared enums, the exported Rust functions, the items of the opaque Rust types,
/// the free functions that call Swift, the structs of the Swift classes, and the foreign block,
/// which is there exactly if there is a Swift function or a Swift class.
pub proof fn law_body_is_its_sections(m: SwiftBridgeModule, cs: Span)
    ensures
        ({
            let has_struct = |t: TypeDeclaration|
                t matches TypeDeclaration::Shared(SharedTypeDeclaration::Struct(shared))
                    && shared.definition is Some;
            let has_enum = |t: TypeDeclaration|
                t matches TypeDeclaration::Shared(SharedTypeDeclaration::Enum(shared))
                    && shared.definition is Some;
            let has_items = |t: TypeDeclaration|
                t matches TypeDeclaration::Opaque(opaque) && opaque.host_lang is Rust && (
                opaque.copy is Some || !opaque.already_declared);
            let is_class = |t: TypeDeclaration|
                t matches TypeDeclaration::Opaque(opaque) && opaque.host_lang is Swift;
            let is_rust = |f: ParsedExternFn| f.host_lang is Rust;
            let is_swift = |f: ParsedExternFn| f.host_lang is Swift;
            let is_free = |f: ParsedExternFn| f.host_lang is Swift && f.associated_type is None;
            let is_method = |text: Seq<char>|
                |f: ParsedExternFn|
                    f.host_lang is Swift && (f.associated_type matches Some(
                        TypeDeclaration::Opaque(opaque),
                    ) && opaque.ty.text@ == text);
            let c_side = |f: ParsedExternFn| tokens_of(f.extern_c_function);
            let caller = |f: ParsedExternFn| tokens_of(f.rust_fn_that_calls_swift);
            let struct_tokens = |t: TypeDeclaration| tokens_of(t->Shared_0->Struct_0.definition->0);
            let enum_tokens = |t: TypeDeclaration| tokens_of(t->Shared_0->Enum_0.definition->0);
            let item_tokens = |t: TypeDeclaration|
                {
                    let opaque = t->Opaque_0;
                    let (text, at) = (opaque.ty.text@, opaque.ty.span);
                    if opaque.copy is Some {
                        let path = tokens_of(m.swift_bridge_path);
                        let size = opaque.copy->0.size_bytes;
                        assert_size(path, text, at, size, cs) + copy_struct(text, at, size, cs)
                    } else {
                        rust_free_fn(text, at, cs) + tokens_of(opaque.vec_functions)
                    }
                };
            let class_tokens = |t: TypeDeclaration|
                {
                    let (text, at) = (t->Opaque_0.ty.text@, t->Opaque_0.ty.span);
                    let methods = m.functions@.filter(is_method(text));
                    swift_class_struct(
                        text,
                        at,
                        if methods.len() > 0 {
                            Some(methods.flat_map(caller))
                        } else {
                            None
                        },
                        cs,
                    )
                };
            let release_tokens = |t: TypeDeclaration|
                swift_free_decl(t->Opaque_0.ty.text@, t->Opaque_0.ty.span, cs);
            let declarations = m.functions@.filter(is_swift).flat_map(c_side) + m.types@.filter(
                is_class,
            ).flat_map(release_tokens);
            let imports: Seq<Token> = if m.functions@.filter(is_swift).len() > 0
                || m.types@.filter(is_class).len() > 0 {
                seq![
                    Token::Ident { text: "extern"@, span: cs },
                    Token::Str { value: "C"@, span: cs },
                    Token::Group { delimiter: Delimiter::Brace, inner: declarations, span: cs },
                ]
            } else {
                Seq::empty()
            };
            m.body_tokens(cs) =~= m.types@.filter(has_struct).flat_map(struct_tokens)
                + m.types@.filter(has_enum).flat_map(enum_tokens)
                + m.functions@.filter(is_rust).flat_map(c_side)
                + m.types@.filter(has_items).flat_map(item_tokens)
                + m.functions@.filter(is_free).flat_map(caller)
                + m.types@.filter(is_class).flat_map(class_tokens)
                + imports
        }),
{
    let has_struct = |t: TypeDeclaration|
        t matches TypeDeclaration::Shared(SharedTypeDeclaration::Struct(shared))
            && shared.definition is Some;
    let has_enum = |t: TypeDeclaration|
        t matches TypeDeclaration::Shared(SharedTypeDeclaration::Enum(shared))
            && shared.definition is Some;
    let has_items = |t: TypeDeclaration|
        t matches TypeDeclaration::Opaque(opaque) && opaque.host_lang is Rust && (
        opaque.copy is Some || !opaque.already_declared);
    let is_class = |t: TypeDeclaration|
        t matches TypeDeclaration::Opaque(opaque) && opaque.host_lang is Swift;
    let is_rust = |f: ParsedExternFn| f.host_lang is Rust;
    let is_swift = |f: ParsedExternFn| f.host_lang is Swift;
    let is_free = |f: ParsedExternFn| f.host_lang is Swift && f.associated_type is None;
    let is_method = |text: Seq<char>|
        |f: ParsedExternFn|
            f.host_lang is Swift && (f.associated_type matches Some(
                TypeDeclaration::Opaque(opaque),
            ) && opaque.ty.text@ == text);
    let c_side = |f: ParsedExternFn| tokens_of(f.extern_c_function);
    let caller = |f: ParsedExternFn| tokens_of(f.rust_fn_that_calls_swift);
    let struct_tokens = |t: TypeDeclaration| tokens_of(t->Shared_0->Struct_0.definition->0);
    let enum_tokens = |t: TypeDeclaration| tokens_of(t->Shared_0->Enum_0.definition->0);
    let item_tokens = |t: TypeDeclaration|
        {
            let opaque = t->Opaque_0;
            let (text, at) = (opaque.ty.text@, opaque.ty.span);
            if opaque.copy is Some {
                let path = tokens_of(m.swift_bridge_path);
                let size = opaque.copy->0.size_bytes;
                assert_size(path, text, at, size, cs) + copy_struct(text, at, size, cs)
            } else {
                rust_free_fn(text, at, cs) + tokens_of(opaque.vec_functions)
            }
        };
    let class_tokens = |t: TypeDeclaration|
        {
            let (text, at) = (t->Opaque_0.ty.text@, t->Opaque_0.ty.span);
            let methods = m.functions@.filter(is_method(text));
            swift_class_struct(
                text,
                at,
                if methods.len() > 0 {
                    Some(methods.flat_map(caller))
                } else {
                    None
                },
                cs,
            )
        };
    let release_tokens = |t: TypeDeclaration|
        swift_free_decl(t->Opaque_0.ty.text@, t->Opaque_0.ty.span, cs);
    lemma_section(m.types@, has_struct, struct_tokens, shared_struct());
    lemma_section(m.types@, has_enum, enum_tokens, shared_enum());
    lemma_section(m.functions@, is_rust, c_side, exported_fn());
    lemma_section(
        m.types@,
        has_items,
        item_tokens,
        exported_type(tokens_of(m.swift_bridge_path), cs),
    );
    lemma_section(m.functions@, is_free, caller, freestanding_swift_fn());
    assert forall|t: TypeDeclaration| #[trigger]
        swift_class(m.functions@, cs)(t) == if is_class(t) {
            class_tokens(t)
        } else {
            Seq::<Token>::empty()
        } by {
        let text = t->Opaque_0.ty.text@;
        lemma_section(m.functions@, is_method(text), caller, swift_method(text));
        lemma_any_kept(m.functions@, is_method(text));
        assert(swift_methods(m.functions@, text) is Some <==> m.functions@.filter(
            is_method(text),
        ).len() > 0) by {
            if m.functions@.filter(is_method(text)).len() > 0 {
                let i = choose|i: int|
                    0 <= i < m.functions@.len() && is_method(text)(#[trigger] m.functions@[i]);
                assert(is_swift_method_of(m.functions@[i], text));
            }
            if swift_methods(m.functions@, text) is Some {
                let i = choose|i: int|
                    0 <= i < m.functions@.len() && is_swift_method_of(
                        #[trigger] m.functions@[i],
                        text,
                    );
                assert(is_method(text)(m.functions@[i]));
            }
        }
    }
    lemma_section(m.types@, is_class, class_tokens, swift_class(m.functions@, cs));
    lemma_section(m.functions@, is_swift, c_side, declared_swift_fn());
    lemma_section(m.types@, is_class, release_tokens, declared_swift_type(cs));
    lemma_any_kept(m.functions@, is_swift);
    lemma_any_kept(m.types@, is_class);
    let declarations = m.functions@.filter(is_swift).flat_map(c_side) + m.types@.filter(
        is_class,
    ).flat_map(release_tokens);
    assert(m.swift_declarations(cs) == declarations);
    assert(m.imports_from_swift() <==> m.functions@.filter(is_swift).len() > 0 || m.types@.filter(
        is_class,
    ).len() > 0);
}

/// A module, token by token around its body: `#[allow(non_snake_case)]`, the attribute of each
/// condition, once and in order, `mod`, the name, and the body in braces.
pub proof fn law_module_is_laid_out(m: SwiftBridgeModule, cs: Span)
    ensures
        ({
            let word = |text: Seq<char>| Token::Ident { text, span: cs };
            let group = |delimiter: Delimiter, inner: Seq<Token>|
                Token::Group { delimiter, inner, span: cs };
            let all = m.module_tokens(cs);
            let allow = all[1]->inner;
            &&& all =~= seq![
                Token::Punct { ch: '#', spacing: Spacing::Alone, span: cs },
                group(Delimiter::Bracket, allow),
            ] + m.cfg_attrs@.flat_map(
                |c: CfgAttr| cfg_feature(tokens_of(c->Feature_0), cs),
            ) + seq![word("mod"@)] + tokens_of(m.name) + seq![
                group(Delimiter::Brace, m.body_tokens(cs)),
            ]
            &&& allow =~= seq![word("allow"@), group(Delimiter::Parenthesis, allow[1]->inner)]
            &&& allow[1]->inner =~= seq![word("non_snake_case"@)]
        }),
{
    let every = |c: CfgAttr| true;
    let part = |c: CfgAttr| cfg_feature(tokens_of(c->Feature_0), cs);
    lemma_section(m.cfg_attrs@, every, part, module_attribute(cs));
    lemma_all_kept(m.cfg_attrs@, every);
}

/// Everything is kept of a sequence if everything is to be kept.
proof fn lemma_all_kept<A>(items: Seq<A>, keep: spec_fn(A) -> bool)
    requires
        forall|i: int| 0 <= i < items.len() ==> keep(#[trigger] items[i]),
    ensures
        items.filter(keep) == items,
    decreases items.len(),
{
    reveal(Seq::filter);
    if items.len() > 0 {
        let front = items.drop_last();
        assert forall|i: int| 0 <= i < front.len() implies keep(#[trigger] front[i]) by {
            assert(keep(items[i]));
        }
        lemma_all_kept(front, keep);
        assert(keep(items[items.len() - 1]));
        assert(items.filter(keep) =~= items);
    }
}

/// Keeping fewer after keeping more is keeping fewer.
proof fn lemma_kept_twice<A>(items: Seq<A>, more: spec_fn(A) -> bool, fewer: spec_fn(A) -> bool)
    requires
        forall|x: A| #[trigger] fewer(x) ==> more(x),
    ensures
        items.filter(more).filter(fewer) == items.filter(fewer),
    decreases items.len(),
{
    reveal(Seq::filter);
    if items.len() > 0 {
        let (front, last) = (items.drop_last(), items.last());
        lemma_kept_twice(front, more, fewer);
        if more(last) {
            assert(items.filter(more) == front.filter(more).push(last));
            assert(front.filter(more).push(last).drop_last() =~= front.filter(more));
        }
        let _ = fewer(last);
    }
}

/// The definitions of shared types come first, each once: those of the structs in order, then
/// those of the enums in order. They are all there is in a module of shared types alone, and
/// functions and opaque types that are added only add something behind them.
pub proof fn law_shared_definitions_come_first(
    m: SwiftBridgeModule,
    alone: SwiftBridgeModule,
    cs: Span,
)
    requires
        alone.types@ == m.types@.filter(|t: TypeDeclaration| t is Shared),
        alone.functions@.len() == 0,
    ensures
        ({
            let structs = m.types@.filter(
                |t: TypeDeclaration|
                    t matches TypeDeclaration::Shared(SharedTypeDeclaration::Struct(shared))
                        && shared.definition is Some,
            );
            let enums = m.types@.filter(
                |t: TypeDeclaration|
                    t matches TypeDeclaration::Shared(SharedTypeDeclaration::Enum(shared))
                        && shared.definition is Some,
            );
            &&& alone.body_tokens(cs) =~= structs.flat_map(
                |t: TypeDeclaration| tokens_of(t->Shared_0->Struct_0.definition->0),
            ) + enums.flat_map(
                |t: TypeDeclaration| tokens_of(t->Shared_0->Enum_0.definition->0),
            )
            &&& alone.body_tokens(cs).is_prefix_of(m.body_tokens(cs))
        }),
{
    let is_shared = |t: TypeDeclaration| t is Shared;
    let has_struct = |t: TypeDeclaration|
        t matches TypeDeclaration::Shared(SharedTypeDeclaration::Struct(shared))
            && shared.definition is Some;
    let has_enum = |t: TypeDeclaration|
        t matches TypeDeclaration::Shared(SharedTypeDeclaration::Enum(shared))
            && shared.definition is Some;
    let struct_tokens = |t: TypeDeclaration| tokens_of(t->Shared_0->Struct_0.definition->0);
    let enum_tokens = |t: TypeDeclaration| tokens_of(t->Shared_0->Enum_0.definition->0);
    lemma_section(m.types@, has_struct, struct_tokens, shared_struct());
    lemma_section(m.types@, has_enum, enum_tokens, shared_enum());
    lemma_section(alone.types@, has_struct, struct_tokens, shared_struct());
    lemma_section(alone.types@, has_enum, enum_tokens, shared_enum());
    lemma_kept_twice(m.types@, is_shared, has_struct);
    lemma_kept_twice(m.types@, is_shared, has_enum);
    assert forall|j: int|
        0 <= j < alone.types@.len() implies #[trigger] alone.types@[j] is Shared by {
        m.types@.lemma_filter_pred(is_shared, j);
    }
    let path = tokens_of(alone.swift_bridge_path);
    lemma_gather_nothing(alone.functions@, exported_fn());
    lemma_gather_nothing(alone.functions@, freestanding_swift_fn());
    lemma_gather_nothing(alone.types@, exported_type(path, cs));
    lemma_gather_nothing(alone.types@, swift_class(alone.functions@, cs));
    let definitions = m.types@.filter(has_struct).flat_map(struct_tokens) + m.types@.filter(
        has_enum,
    ).flat_map(enum_tokens);
    assert(!alone.imports_from_swift());
    assert(alone.body_tokens(cs) =~= definitions);
    assert(definitions =~= m.body_tokens(cs).subrange(0, definitions.len() as int));
}

/// A Swift function that belongs to an opaque type stands among the methods of every class of
/// that name, whatever else is declared of the type: the body holds a block `impl name { .. }`
/// with the function's caller in it. Gives what stands in front of the block, in the block on
/// either side of the caller, and behind the block.
pub proof fn law_swift_method_is_kept(
    m: SwiftBridgeModule,
    i: int,
    j: int,
    cs: Span,
) -> (around: (Seq<Token>, Seq<Token>, Seq<Token>, Seq<Token>))
    requires
        0 <= i < m.functions@.len(),
        0 <= j < m.types@.len(),
        m.types@[j] is Opaque,
        m.types@[j]->Opaque_0.host_lang is Swift,
        m.functions@[i].host_lang is Swift,
        m.functions@[i].associated_type is Some,
        m.functions@[i].associated_type->0 is Opaque,
        m.functions@[i].associated_type->0->Opaque_0.ty.text@ == m.types@[j]->Opaque_0.ty.text@,
    ensures
        m.body_tokens(cs) == around.0 + seq![
            Token::Ident { text: "impl"@, span: cs },
            Token::Ident {
                text: m.types@[j]->Opaque_0.ty.text@,
                span: m.types@[j]->Opaque_0.ty.span,
            },
            Token::Group {
                delimiter: Delimiter::Brace,
                inner: around.1 + tokens_of(m.functions@[i].rust_fn_that_calls_swift) + around.2,
                span: cs,
            },
        ] + around.3,
{
    let (text, at) = (m.types@[j]->Opaque_0.ty.text@, m.types@[j]->Opaque_0.ty.span);
    let methods = gather(m.functions@, swift_method(text));
    let block = method_impl(text, at, Some(methods), cs);
    let caller = tokens_of(m.functions@[i].rust_fn_that_calls_swift);
    law_swift_method_stands_in_its_class(m, i, j, cs);
    assert(occurs(block, m.body_tokens(cs)));
    let (front, back) = choose|before: Seq<Token>, after: Seq<Token>|
        m.body_tokens(cs) == #[trigger] (before + block + after);
    let (left, right) = choose|before: Seq<Token>, after: Seq<Token>|
        methods == #[trigger] (before + caller + after);
    assert(block =~= seq![
        Token::Ident { text: "impl"@, span: cs },
        Token::Ident { text, span: at },
        Token::Group { delimiter: Delimiter::Brace, inner: left + caller + right, span: cs },
    ]);
    (front, left, right, back)
}

/// The struct that carries a `Copy` type of a module has an array of exactly the declared number
/// of bytes for its field, and stands behind a check that compares the type's bytes with an array
/// of that same number of zeros. Gives what stands in front of the check, the check's body in
/// front of the zeros, the check's body behind them, what stands between check and struct, and
/// what stands behind the struct's fields.
pub proof fn law_copy_type_is_carried_by_its_bytes(
    m: SwiftBridgeModule,
    j: int,
    cs: Span,
) -> (around: (Seq<Token>, Seq<Token>, Seq<Token>, Seq<Token>, Seq<Token>))
    requires
        0 <= j < m.types@.len(),
        m.types@[j] is Opaque,
        m.types@[j]->Opaque_0.host_lang is Rust,
        m.types@[j]->Opaque_0.copy is Some,
    ensures
        ({
            let opaque = m.types@[j]->Opaque_0;
            let (at, size) = (opaque.ty.span, opaque.copy->0.size_bytes);
            let number = Token::Usize { number: size, suffixed: true, span: cs };
            let (front, head, tail, between, back) = around;
            let zeros = seq![
                Token::Usize { number: 0, suffixed: false, span: at },
                Token::Punct { ch: ';', spacing: Spacing::Alone, span: at },
                number,
            ];
            let bytes = seq![
                Token::Ident { text: "u8"@, span: cs },
                Token::Punct { ch: ';', spacing: Spacing::Alone, span: cs },
                number,
            ];
            let check_body = head + seq![
                Token::Punct { ch: '=', spacing: Spacing::Alone, span: at },
                Token::Group { delimiter: Delimiter::Bracket, inner: zeros, span: at },
            ] + tail;
            let array = seq![
                Token::Group { delimiter: Delimiter::Bracket, inner: bytes, span: cs },
            ];
            &&& m.body_tokens(cs) == front + seq![
                Token::Group { delimiter: Delimiter::Brace, inner: check_body, span: at },
                Token::Punct { ch: ';', spacing: Spacing::Alone, span: at },
            ] + between + seq![
                Token::Ident { text: "pub"@, span: cs },
                Token::Ident { text: "struct"@, span: cs },
                Token::Ident { text: "__swift_bridge__"@ + opaque.ty.text@, span: at },
                Token::Group { delimiter: Delimiter::Parenthesis, inner: array, span: cs },
                Token::Punct { ch: ';', spacing: Spacing::Alone, span: cs },
            ] + back
            &&& between.len() == 4
        }),
{
    let opaque = m.types@[j]->Opaque_0;
    let (text, at, size) = (opaque.ty.text@, opaque.ty.span, opaque.copy->0.size_bytes);
    let path = tokens_of(m.swift_bridge_path);
    let items = opaque_rust_items(opaque, path, cs);
    law_opaque_rust_items_stand_in_the_body(m, j, cs);
    let (before, after) = choose|before: Seq<Token>, after: Seq<Token>|
        m.body_tokens(cs) == #[trigger] (before + items + after);
    let check = assert_size(path, text, at, size, cs);
    let carrier = copy_struct(text, at, size, cs);
    law_size_check(path, text, at, size, cs);
    law_copy_carrier(text, at, size, cs);
    assert(items == check + carrier);
    let body = check[5]->inner;
    let zeros = seq![
        Token::Usize { number: 0, suffixed: false, span: at },
        Token::Punct { ch: ';', spacing: Spacing::Alone, span: at },
        Token::Usize { number: size, suffixed: true, span: cs },
    ];
    assert(body[5]->inner =~= zeros);
    assert(body =~= body.take(4) + seq![
        Token::Punct { ch: '=', spacing: Spacing::Alone, span: at },
        Token::Group { delimiter: Delimiter::Bracket, inner: zeros, span: at },
    ] + body.skip(6));
    let fields = carrier[7]->inner;
    let bytes = seq![
        Token::Ident { text: "u8"@, span: cs },
        Token::Punct { ch: ';', spacing: Spacing::Alone, span: cs },
        Token::Usize { number: size, suffixed: true, span: cs },
    ];
    assert(fields[0]->inner =~= bytes);
    assert(fields =~= seq![
        Token::Group { delimiter: Delimiter::Bracket, inner: bytes, span: cs },
    ]);
    (before + check.take(5), body.take(4), body.skip(6), carrier.take(4), carrier.skip(9) + after)
}

} // verus!
