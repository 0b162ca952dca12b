//! What holds of the tokens of every bridge module.

use vstd::prelude::*;

use proc_macro2::Span;

use crate::codegen::{
    declared_swift_fn, declared_swift_type, definition_tokens, exported_fn, exported_type,
    freestanding_swift_fn, gather, is_swift_class, is_swift_method_of, lemma_gather_nothing,
    module_attribute, opaque_rust_items, shared_enum, shared_struct, swift_class, swift_method,
    swift_methods, UnsupportedModule,
};
use crate::ident::{is_ident, law_ascii_texts_are_identifiers};
use crate::items::{
    assert_size, cfg_feature, copy_struct, drop_impl, drop_method, foreign_block, method_impl,
    rust_free_fn, swift_class_struct, swift_free_decl, value_attribute, word_attribute,
};
use crate::module::{
    CfgAttr, HostLang, ParsedExternFn, SharedTypeDeclaration, SwiftBridgeModule, TypeDeclaration,
};
use crate::names::{free_fn_name, free_link_name};
use crate::token::{nothing, tokens_of, Token, TokenSeq};

verus! {

/// Whether `part` stands somewhere in `whole`, in one piece.
pub open spec fn occurs(part: Seq<Token>, whole: Seq<Token>) -> bool {
    exists|before: Seq<Token>, after: Seq<Token>| whole == #[trigger] (before + part + after)
}

proof fn lemma_occurs_at(part: Seq<Token>, whole: Seq<Token>, before: Seq<Token>, after: Seq<Token>)
    requires
        whole =~= before + part + after,
    ensures
        occurs(part, whole),
{
    assert(whole == before + part + after);
}

proof fn lemma_occurs_itself(part: Seq<Token>)
    ensures
        occurs(part, part),
{
    lemma_occurs_at(part, part, Seq::empty(), Seq::empty());
}

proof fn lemma_occurs_left(part: Seq<Token>, left: Seq<Token>, right: Seq<Token>)
    requires
        occurs(part, left),
    ensures
        occurs(part, left + right),
{
    let (before, after) = choose|before: Seq<Token>, after: Seq<Token>|
        left == #[trigger] (before + part + after);
    lemma_occurs_at(part, left + right, before, after + right);
}

proof fn lemma_occurs_right(part: Seq<Token>, left: Seq<Token>, right: Seq<Token>)
    requires
        occurs(part, right),
    ensures
        occurs(part, left + right),
{
    let (before, after) = choose|before: Seq<Token>, after: Seq<Token>|
        right == #[trigger] (before + part + after);
    lemma_occurs_at(part, left + right, left + before, after);
}

proof fn lemma_occurs_in_sum(left: Seq<Token>, right: Seq<Token>)
    ensures
        occurs(left, left + right),
        occurs(right, left + right),
{
    lemma_occurs_itself(left);
    lemma_occurs_itself(right);
    lemma_occurs_left(left, left, right);
    lemma_occurs_right(right, left, right);
}

proof fn lemma_occurs_inside(inner: Seq<Token>, part: Seq<Token>, whole: Seq<Token>)
    requires
        occurs(inner, part),
        occurs(part, whole),
    ensures
        occurs(inner, whole),
{
    let (before, after) = choose|before: Seq<Token>, after: Seq<Token>|
        whole == #[trigger] (before + part + after);
    lemma_occurs_right(inner, before, part);
    lemma_occurs_left(inner, before + part, after);
}

/// What each item contributes stands in what all contribute.
proof fn lemma_gather_occurs<A>(items: Seq<A>, i: int, piece: spec_fn(A) -> Seq<Token>)
    requires
        0 <= i < items.len(),
    ensures
        occurs(piece(items[i]), gather(items, piece)),
    decreases items.len(),
{
    let front = gather(items.drop_last(), piece);
    if i == items.len() - 1 {
        lemma_occurs_itself(piece(items[i]));
        lemma_occurs_right(piece(items[i]), front, piece(items.last()));
    } else {
        lemma_gather_occurs(items.drop_last(), i, piece);
        lemma_occurs_left(piece(items[i]), front, piece(items.last()));
    }
}

/// Each section of a module stands in its body.
proof fn lemma_sections(m: SwiftBridgeModule, cs: Span)
    ensures
        occurs(gather(m.types@, shared_struct()), m.body_tokens(cs)),
        occurs(gather(m.types@, shared_enum()), m.body_tokens(cs)),
        occurs(gather(m.functions@, exported_fn()), m.body_tokens(cs)),
        occurs(
            gather(m.types@, exported_type(tokens_of(m.swift_bridge_path), cs)),
            m.body_tokens(cs),
        ),
        occurs(gather(m.functions@, freestanding_swift_fn()), m.body_tokens(cs)),
        occurs(gather(m.types@, swift_class(m.functions@, cs)), m.body_tokens(cs)),
        occurs(m.swift_imports(cs), m.body_tokens(cs)),
{
    let structs = gather(m.types@, shared_struct());
    let enums = gather(m.types@, shared_enum());
    let functions = gather(m.functions@, exported_fn());
    let types = gather(m.types@, exported_type(tokens_of(m.swift_bridge_path), cs));
    let freestanding = gather(m.functions@, freestanding_swift_fn());
    let classes = gather(m.types@, swift_class(m.functions@, cs));
    let imports = m.swift_imports(cs);
    let shared = structs + enums;
    let exported = functions + types;
    let to_exported = shared + exported;
    let to_freestanding = to_exported + freestanding;
    let to_classes = to_freestanding + classes;
    let body = to_classes + imports;
    assert(body == m.body_tokens(cs));
    lemma_occurs_in_sum(structs, enums);
    lemma_occurs_in_sum(functions, types);
    lemma_occurs_in_sum(shared, exported);
    lemma_occurs_in_sum(to_exported, freestanding);
    lemma_occurs_in_sum(to_freestanding, classes);
    lemma_occurs_in_sum(to_classes, imports);
    lemma_occurs_inside(to_freestanding, to_classes, body);
    lemma_occurs_inside(to_exported, to_freestanding, body);
    lemma_occurs_inside(shared, to_exported, body);
    lemma_occurs_inside(exported, to_exported, body);
    lemma_occurs_inside(structs, shared, body);
    lemma_occurs_inside(enums, shared, body);
    lemma_occurs_inside(functions, exported, body);
    lemma_occurs_inside(types, exported, body);
    lemma_occurs_inside(freestanding, to_freestanding, body);
    lemma_occurs_inside(classes, to_classes, body);
}

/// A module is one item: it begins with `#[allow(non_snake_case)]`, ends with its body in braces,
/// and has `mod` and its name in front of the body.
pub proof fn law_module_is_one_item(m: SwiftBridgeModule, cs: Span)
    ensures
        ({
            let all = m.module_tokens(cs);
            let name = tokens_of(m.name);
            &&& all.len() >= name.len() + 4
            &&& all.take(2) == word_attribute("allow", "non_snake_case", cs)
            &&& all[all.len() - name.len() - 2] == Token::Ident { text: "mod"@, span: cs }
            &&& all.subrange(all.len() - name.len() - 1, all.len() - 1) == name
            &&& all.skip(all.len() - 1) == nothing().braces(m.body_tokens(cs), cs)
        }),
{
    let all = m.module_tokens(cs);
    let name = tokens_of(m.name);
    assert(all.take(2) =~= word_attribute("allow", "non_snake_case", cs));
    assert(all.subrange(all.len() - name.len() - 1, all.len() - 1) =~= name);
    assert(all.skip(all.len() - 1) =~= nothing().braces(m.body_tokens(cs), cs));
}

/// Every condition of a module stands among its attributes.
pub proof fn law_condition_is_kept(m: SwiftBridgeModule, i: int, cs: Span)
    requires
        0 <= i < m.cfg_attrs@.len(),
    ensures
        m.cfg_attrs@[i] matches CfgAttr::Feature(name) ==> occurs(
            cfg_feature(tokens_of(name), cs),
            m.module_tokens(cs),
        ),
{
    let attributes = gather(m.cfg_attrs@, module_attribute(cs));
    let piece = module_attribute(cs)(m.cfg_attrs@[i]);
    lemma_gather_occurs(m.cfg_attrs@, i, module_attribute(cs));
    let allow = word_attribute("allow", "non_snake_case", cs);
    let rest = m.module_tokens(cs).skip((allow + attributes).len() as int);
    assert(m.module_tokens(cs) =~= allow + attributes + rest);
    lemma_occurs_right(piece, allow, attributes);
    lemma_occurs_left(piece, allow + attributes, rest);
}

/// Every Rust function of a module is exported by it.
pub proof fn law_rust_function_is_exported(m: SwiftBridgeModule, i: int, cs: Span)
    requires
        0 <= i < m.functions@.len(),
        m.functions@[i].host_lang is Rust,
    ensures
        occurs(tokens_of(m.functions@[i].extern_c_function), m.body_tokens(cs)),
{
    lemma_gather_occurs(m.functions@, i, exported_fn());
    lemma_sections(m, cs);
    lemma_occurs_inside(
        exported_fn()(m.functions@[i]),
        gather(m.functions@, exported_fn()),
        m.body_tokens(cs),
    );
}

/// Every Swift function of a module is declared in the module's foreign block.
pub proof fn law_swift_function_is_declared(m: SwiftBridgeModule, i: int, cs: Span)
    requires
        0 <= i < m.functions@.len(),
        m.functions@[i].host_lang is Swift,
    ensures
        occurs(foreign_block(m.swift_declarations(cs), cs), m.body_tokens(cs)),
        occurs(tokens_of(m.functions@[i].extern_c_function), m.swift_declarations(cs)),
{
    assert(m.functions@[i].host_lang is Swift);
    lemma_sections(m, cs);
    lemma_gather_occurs(m.functions@, i, declared_swift_fn());
    lemma_occurs_left(
        declared_swift_fn()(m.functions@[i]),
        gather(m.functions@, declared_swift_fn()),
        gather(m.types@, declared_swift_type(cs)),
    );
}

/// Every Swift function that belongs to no type can be called from Rust by a free function.
pub proof fn law_freestanding_swift_function_is_callable(m: SwiftBridgeModule, i: int, cs: Span)
    requires
        0 <= i < m.functions@.len(),
        m.functions@[i].host_lang is Swift,
        m.functions@[i].associated_type is None,
    ensures
        occurs(tokens_of(m.functions@[i].rust_fn_that_calls_swift), m.body_tokens(cs)),
{
    lemma_gather_occurs(m.functions@, i, freestanding_swift_fn());
    lemma_sections(m, cs);
    lemma_occurs_inside(
        freestanding_swift_fn()(m.functions@[i]),
        gather(m.functions@, freestanding_swift_fn()),
        m.body_tokens(cs),
    );
}

/// Every Swift class of a module has its struct there, is dropped through the function that
/// releases it, and has that function declared in the foreign block.
pub proof fn law_swift_class_is_wrapped(m: SwiftBridgeModule, j: int, cs: Span)
    requires
        0 <= j < m.types@.len(),
        is_swift_class(m.types@[j]),
    ensures
        m.types@[j] matches TypeDeclaration::Opaque(opaque) ==> {
            let (text, at) = (opaque.ty.text@, opaque.ty.span);
            &&& occurs(
                swift_class_struct(text, at, swift_methods(m.functions@, text), cs),
                m.body_tokens(cs),
            )
            &&& occurs(drop_impl(text, at, cs), m.body_tokens(cs))
            &&& occurs(foreign_block(m.swift_declarations(cs), cs), m.body_tokens(cs))
            &&& occurs(swift_free_decl(text, at, cs), m.swift_declarations(cs))
        },
{
    let opaque = m.types@[j]->Opaque_0;
    let (text, at) = (opaque.ty.text@, opaque.ty.span);
    let class = swift_class(m.functions@, cs)(m.types@[j]);
    lemma_sections(m, cs);
    lemma_gather_occurs(m.types@, j, swift_class(m.functions@, cs));
    lemma_occurs_inside(
        class,
        gather(m.types@, swift_class(m.functions@, cs)),
        m.body_tokens(cs),
    );
    let front = class.take(class.len() - drop_impl(text, at, cs).len());
    lemma_occurs_at(drop_impl(text, at, cs), class, front, Seq::empty());
    lemma_occurs_inside(drop_impl(text, at, cs), class, m.body_tokens(cs));
    lemma_gather_occurs(m.types@, j, declared_swift_type(cs));
    lemma_occurs_right(
        swift_free_decl(text, at, cs),
        gather(m.functions@, declared_swift_fn()),
        gather(m.types@, declared_swift_type(cs)),
    );
}

/// Every Swift method of a class of the module stands in the methods of that class.
pub proof fn law_swift_method_stands_in_its_class(m: SwiftBridgeModule, i: int, j: int, cs: Span)
    requires
        0 <= i < m.functions@.len(),
        0 <= j < m.types@.len(),
        is_swift_class(m.types@[j]),
        is_swift_method_of(m.functions@[i], m.types@[j]->Opaque_0.ty.text@),
    ensures
        m.types@[j] matches TypeDeclaration::Opaque(opaque) ==> {
            let text = opaque.ty.text@;
            let methods = gather(m.functions@, swift_method(text));
            &&& occurs(
                method_impl(text, opaque.ty.span, Some(methods), cs),
                m.body_tokens(cs),
            )
            &&& occurs(tokens_of(m.functions@[i].rust_fn_that_calls_swift), methods)
        },
{
    let opaque = m.types@[j]->Opaque_0;
    let (text, at) = (opaque.ty.text@, opaque.ty.span);
    let methods = gather(m.functions@, swift_method(text));
    let inherent = method_impl(text, at, Some(methods), cs);
    let last = drop_impl(text, at, cs);
    law_swift_class_is_wrapped(m, j, cs);
    lemma_gather_occurs(m.functions@, i, swift_method(text));
    assert(is_swift_method_of(m.functions@[i], text));
    let class = swift_class_struct(text, at, swift_methods(m.functions@, text), cs);
    let front = class.take(class.len() - last.len() - inherent.len());
    lemma_occurs_at(inherent, class, front, last);
    lemma_occurs_inside(inherent, class, m.body_tokens(cs));
}

/// A class without methods gets no block of methods.
pub proof fn law_class_without_methods_has_no_method_impl(
    functions: Seq<ParsedExternFn>,
    ty: Seq<char>,
    at: Span,
    cs: Span,
)
    requires
        forall|i: int|
            0 <= i < functions.len() ==> !is_swift_method_of(#[trigger] functions[i], ty),
    ensures
        method_impl(ty, at, swift_methods(functions, ty), cs) == Seq::<Token>::empty(),
{
}

/// A module that Swift exports nothing to has no foreign block, and nothing to put into one.
pub proof fn law_rust_only_module_has_no_foreign_block(m: SwiftBridgeModule, cs: Span)
    requires
        !m.imports_from_swift(),
    ensures
        m.swift_imports(cs) == Seq::<Token>::empty(),
        m.swift_declarations(cs) == Seq::<Token>::empty(),
        gather(m.functions@, freestanding_swift_fn()) == Seq::<Token>::empty(),
        gather(m.types@, swift_class(m.functions@, cs)) == Seq::<Token>::empty(),
{
    lemma_gather_nothing(m.functions@, declared_swift_fn());
    lemma_gather_nothing(m.functions@, freestanding_swift_fn());
    assert forall|j: int| 0 <= j < m.types@.len() implies declared_swift_type(cs)(
        #[trigger] m.types@[j],
    ) == Seq::<Token>::empty() && swift_class(m.functions@, cs)(m.types@[j])
        == Seq::<Token>::empty() by {
        assert(!is_swift_class(m.types@[j]));
    }
    lemma_gather_nothing(m.types@, declared_swift_type(cs));
    lemma_gather_nothing(m.types@, swift_class(m.functions@, cs));
    assert(m.swift_declarations(cs) =~= Seq::<Token>::empty());
}

/// Every shared type of a module that has a definition is defined in it.
pub proof fn law_shared_type_is_defined(m: SwiftBridgeModule, j: int, cs: Span)
    requires
        0 <= j < m.types@.len(),
    ensures
        m.types@[j] matches TypeDeclaration::Shared(SharedTypeDeclaration::Struct(shared))
            ==> occurs(definition_tokens(shared.definition), m.body_tokens(cs)),
        m.types@[j] matches TypeDeclaration::Shared(SharedTypeDeclaration::Enum(shared))
            ==> occurs(definition_tokens(shared.definition), m.body_tokens(cs)),
{
    lemma_sections(m, cs);
    lemma_gather_occurs(m.types@, j, shared_struct());
    lemma_gather_occurs(m.types@, j, shared_enum());
    lemma_occurs_inside(
        shared_struct()(m.types@[j]),
        gather(m.types@, shared_struct()),
        m.body_tokens(cs),
    );
    lemma_occurs_inside(
        shared_enum()(m.types@[j]),
        gather(m.types@, shared_enum()),
        m.body_tokens(cs),
    );
}

/// Every opaque Rust type of a module has its items there: a `Copy` type is checked and carried
/// by its bytes, any other is released and handled in vectors unless another module does so.
pub proof fn law_opaque_rust_type_has_its_items(m: SwiftBridgeModule, j: int, cs: Span)
    requires
        0 <= j < m.types@.len(),
    ensures
        m.types@[j] matches TypeDeclaration::Opaque(opaque) ==> opaque.host_lang is Rust ==> {
            let (text, at) = (opaque.ty.text@, opaque.ty.span);
            &&& opaque.copy matches Some(copy) ==> {
                &&& occurs(
                    assert_size(tokens_of(m.swift_bridge_path), text, at, copy.size_bytes, cs),
                    m.body_tokens(cs),
                )
                &&& occurs(copy_struct(text, at, copy.size_bytes, cs), m.body_tokens(cs))
            }
            &&& opaque.copy is None && !opaque.already_declared ==> {
                &&& occurs(rust_free_fn(text, at, cs), m.body_tokens(cs))
                &&& occurs(tokens_of(opaque.vec_functions), m.body_tokens(cs))
            }
        },
{
    let path = tokens_of(m.swift_bridge_path);
    if m.types@[j] is Opaque && m.types@[j]->Opaque_0.host_lang is Rust {
        let opaque = m.types@[j]->Opaque_0;
        let (text, at) = (opaque.ty.text@, opaque.ty.span);
        let items = opaque_rust_items(opaque, path, cs);
        lemma_sections(m, cs);
        lemma_gather_occurs(m.types@, j, exported_type(path, cs));
        lemma_occurs_inside(items, gather(m.types@, exported_type(path, cs)), m.body_tokens(cs));
        let (first, second) = match opaque.copy {
            Some(copy) => (
                assert_size(path, text, at, copy.size_bytes, cs),
                copy_struct(text, at, copy.size_bytes, cs),
            ),
            None => (rust_free_fn(text, at, cs), tokens_of(opaque.vec_functions)),
        };
        if opaque.copy is Some || !opaque.already_declared {
            lemma_occurs_in_sum(first, second);
            lemma_occurs_inside(first, items, m.body_tokens(cs));
            lemma_occurs_inside(second, items, m.body_tokens(cs));
        }
    }
}

/// The Rust function that releases a type is exported under the symbol under which the Swift
/// function that releases a class of the same name is linked. Both bear the same name, and that
/// is the function that the struct of such a class calls when it is dropped.
pub proof fn law_release_functions_agree(ty: Seq<char>, at: Span, cs: Span)
    ensures
        ({
            let exported = rust_free_fn(ty, at, cs);
            let declared = swift_free_decl(ty, at, cs);
            let release = Token::Ident { text: free_fn_name(ty), span: at };
            let dropping = nothing().push(release).parens(
                nothing().word("self", cs).punct('.', cs).number(0, false, cs),
                cs,
            );
            &&& exported.take(2) == value_attribute("export_name", free_link_name(ty), cs)
            &&& declared.take(2) == value_attribute("link_name", free_link_name(ty), cs)
            &&& exported[6] == release
            &&& declared[3] == release
            &&& drop_method(ty, at, cs).skip(3) == nothing().braces(
                nothing().word("unsafe", cs).braces(dropping, cs),
                cs,
            )
        }),
{
    let exported = rust_free_fn(ty, at, cs);
    let declared = swift_free_decl(ty, at, cs);
    assert(exported.take(2) =~= value_attribute("export_name", free_link_name(ty), cs));
    assert(declared.take(2) =~= value_attribute("link_name", free_link_name(ty), cs));
    let body = nothing().word("unsafe", cs).braces(
        nothing().ident(free_fn_name(ty), at).parens(
            nothing().word("self", cs).punct('.', cs).number(0, false, cs),
            cs,
        ),
        cs,
    );
    assert(drop_method(ty, at, cs).skip(3) =~= nothing().braces(body, cs));
}

/// The members of `functions` that live in the language `lang`.
pub open spec fn in_language(lang: HostLang) -> spec_fn(ParsedExternFn) -> bool {
    |f: ParsedExternFn| f.host_lang == lang
}

/// Items that contribute nothing can be left out.
proof fn lemma_gather_filter<A>(
    items: Seq<A>,
    keep: spec_fn(A) -> bool,
    piece: spec_fn(A) -> Seq<Token>,
)
    requires
        forall|x: A| !(#[trigger] keep(x)) ==> piece(x) == Seq::<Token>::empty(),
    ensures
        gather(items, piece) == gather(items.filter(keep), piece),
    decreases items.len(),
{
    reveal(Seq::filter);
    if items.len() > 0 {
        let front = items.drop_last();
        lemma_gather_filter(front, keep, piece);
        if keep(items.last()) {
            assert(items.filter(keep) == front.filter(keep).push(items.last()));
            assert(front.filter(keep).push(items.last()).drop_last() =~= front.filter(keep));
        } else {
            assert(items.filter(keep) == front.filter(keep));
            assert(gather(items, piece) =~= gather(front, piece));
        }
    }
}

/// Equal contributions one by one are equal together.
proof fn lemma_gather_same<A, B>(
    a: Seq<A>,
    b: Seq<B>,
    piece_a: spec_fn(A) -> Seq<Token>,
    piece_b: spec_fn(B) -> Seq<Token>,
)
    requires
        a.len() == b.len(),
        forall|i: int| 0 <= i < a.len() ==> piece_a(#[trigger] a[i]) == piece_b(b[i]),
    ensures
        gather(a, piece_a) == gather(b, piece_b),
    decreases a.len(),
{
    if a.len() > 0 {
        assert forall|i: int| 0 <= i < a.drop_last().len() implies piece_a(
            #[trigger] a.drop_last()[i],
        ) == piece_b(b.drop_last()[i]) by {
            assert(piece_a(a[i]) == piece_b(b[i]));
        }
        lemma_gather_same(a.drop_last(), b.drop_last(), piece_a, piece_b);
        assert(piece_a(a[a.len() - 1]) == piece_b(b[b.len() - 1]));
    }
}

/// A Swift function in one of two lists with the same Swift functions is also in the other.
proof fn lemma_swift_function_carries_over(
    a: Seq<ParsedExternFn>,
    i: int,
    b: Seq<ParsedExternFn>,
) -> (k: int)
    requires
        a.filter(in_language(HostLang::Swift)) == b.filter(in_language(HostLang::Swift)),
        0 <= i < a.len(),
        a[i].host_lang is Swift,
    ensures
        0 <= k < b.len(),
        b[k] == a[i],
{
    a.lemma_filter_contains(in_language(HostLang::Swift), i);
    b.lemma_filter_contains_rev(in_language(HostLang::Swift), a[i]);
    choose|k: int| 0 <= k < b.len() && b[k] == a[i]
}

/// Two lists with the same Swift functions give a class the same methods.
proof fn lemma_same_swift_methods(a: Seq<ParsedExternFn>, b: Seq<ParsedExternFn>, ty: Seq<char>)
    requires
        a.filter(in_language(HostLang::Swift)) == b.filter(in_language(HostLang::Swift)),
    ensures
        swift_methods(a, ty) == swift_methods(b, ty),
{
    lemma_gather_filter(a, in_language(HostLang::Swift), swift_method(ty));
    lemma_gather_filter(b, in_language(HostLang::Swift), swift_method(ty));
    if swift_methods(a, ty) is Some {
        let i = choose|i: int| 0 <= i < a.len() && is_swift_method_of(#[trigger] a[i], ty);
        let k = lemma_swift_function_carries_over(a, i, b);
        assert(is_swift_method_of(b[k], ty));
    }
    if swift_methods(b, ty) is Some {
        let i = choose|i: int| 0 <= i < b.len() && is_swift_method_of(#[trigger] b[i], ty);
        let k = lemma_swift_function_carries_over(b, i, a);
        assert(is_swift_method_of(a[k], ty));
    }
}

/// Whether two modules agree in everything but their functions.
pub open spec fn agree_but_for_functions(a: SwiftBridgeModule, b: SwiftBridgeModule) -> bool {
    &&& tokens_of(a.name) == tokens_of(b.name)
    &&& a.types@ == b.types@
    &&& tokens_of(a.swift_bridge_path) == tokens_of(b.swift_bridge_path)
    &&& a.cfg_attrs@ == b.cfg_attrs@
}

/// The functions of the two languages do not get into each other's way: how the Rust functions
/// of a module are interleaved with its Swift functions makes no difference.
pub proof fn law_languages_are_independent(a: SwiftBridgeModule, b: SwiftBridgeModule, cs: Span)
    requires
        agree_but_for_functions(a, b),
        a.functions@.filter(in_language(HostLang::Rust)) == b.functions@.filter(
            in_language(HostLang::Rust),
        ),
        a.functions@.filter(in_language(HostLang::Swift)) == b.functions@.filter(
            in_language(HostLang::Swift),
        ),
    ensures
        a.module_tokens(cs) == b.module_tokens(cs),
{
    let (rust, swift) = (in_language(HostLang::Rust), in_language(HostLang::Swift));
    lemma_gather_filter(a.functions@, rust, exported_fn());
    lemma_gather_filter(b.functions@, rust, exported_fn());
    lemma_gather_filter(a.functions@, swift, freestanding_swift_fn());
    lemma_gather_filter(b.functions@, swift, freestanding_swift_fn());
    lemma_gather_filter(a.functions@, swift, declared_swift_fn());
    lemma_gather_filter(b.functions@, swift, declared_swift_fn());
    assert forall|j: int| 0 <= j < a.types@.len() implies swift_class(a.functions@, cs)(
        #[trigger] a.types@[j],
    ) == swift_class(b.functions@, cs)(b.types@[j]) by {
        if a.types@[j] is Opaque {
            lemma_same_swift_methods(
                a.functions@,
                b.functions@,
                a.types@[j]->Opaque_0.ty.text@,
            );
        }
    }
    lemma_gather_same(
        a.types@,
        b.types@,
        swift_class(a.functions@, cs),
        swift_class(b.functions@, cs),
    );
    if exists|i: int|
        0 <= i < a.functions@.len() && (#[trigger] a.functions@[i]).host_lang is Swift {
        let i = choose|i: int|
            0 <= i < a.functions@.len() && (#[trigger] a.functions@[i]).host_lang is Swift;
        let k = lemma_swift_function_carries_over(a.functions@, i, b.functions@);
        assert(b.functions@[k].host_lang is Swift);
    }
    if exists|i: int|
        0 <= i < b.functions@.len() && (#[trigger] b.functions@[i]).host_lang is Swift {
        let i = choose|i: int|
            0 <= i < b.functions@.len() && (#[trigger] b.functions@[i]).host_lang is Swift;
        let k = lemma_swift_function_carries_over(b.functions@, i, a.functions@);
        assert(a.functions@[k].host_lang is Swift);
    }
}

/// Whether the module has a place for a Rust function that calls `f`: `f` is a free Swift
/// function, or a method of one of the module's Swift classes.
pub open spec fn is_called_from(f: ParsedExternFn, types: Seq<TypeDeclaration>) -> bool {
    &&& f.host_lang is Swift
    &&& {
        ||| f.associated_type is None
        ||| exists|j: int|
            0 <= j < types.len() && is_swift_class(#[trigger] types[j]) && is_swift_method_of(
                f,
                types[j]->Opaque_0.ty.text@,
            )
    }
}

/// A Rust function that calls Swift is only used for a free function and for a method of a class
/// that the module declares. For any other function of the module it makes no difference.
pub proof fn law_caller_without_a_place_is_left_out(
    a: SwiftBridgeModule,
    b: SwiftBridgeModule,
    cs: Span,
)
    requires
        agree_but_for_functions(a, b),
        a.functions@.len() == b.functions@.len(),
        forall|i: int|
            #![trigger a.functions@[i]]
            #![trigger b.functions@[i]]
            0 <= i < a.functions@.len() ==> {
                let (f, g) = (a.functions@[i], b.functions@[i]);
                &&& f.host_lang == g.host_lang
                &&& f.associated_type == g.associated_type
                &&& tokens_of(f.extern_c_function) == tokens_of(g.extern_c_function)
                &&& is_called_from(f, a.types@) ==> tokens_of(f.rust_fn_that_calls_swift)
                    == tokens_of(g.rust_fn_that_calls_swift)
            },
    ensures
        a.module_tokens(cs) == b.module_tokens(cs),
{
    lemma_gather_same(a.functions@, b.functions@, exported_fn(), exported_fn());
    lemma_gather_same(a.functions@, b.functions@, declared_swift_fn(), declared_swift_fn());
    lemma_gather_same(
        a.functions@,
        b.functions@,
        freestanding_swift_fn(),
        freestanding_swift_fn(),
    );
    assert forall|j: int| 0 <= j < a.types@.len() implies swift_class(a.functions@, cs)(
        #[trigger] a.types@[j],
    ) == swift_class(b.functions@, cs)(b.types@[j]) by {
        if is_swift_class(a.types@[j]) {
            let ty = a.types@[j]->Opaque_0.ty.text@;
            lemma_gather_same(a.functions@, b.functions@, swift_method(ty), swift_method(ty));
            assert forall|i: int| 0 <= i < a.functions@.len() implies is_swift_method_of(
                #[trigger] a.functions@[i],
                ty,
            ) == is_swift_method_of(b.functions@[i], ty) by {}
            assert(swift_methods(a.functions@, ty) == swift_methods(b.functions@, ty)) by {
                if swift_methods(a.functions@, ty) is Some {
                    let i = choose|i: int|
                        0 <= i < a.functions@.len() && is_swift_method_of(
                            #[trigger] a.functions@[i],
                            ty,
                        );
                    assert(is_swift_method_of(b.functions@[i], ty));
                }
                if swift_methods(b.functions@, ty) is Some {
                    let i = choose|i: int|
                        0 <= i < b.functions@.len() && is_swift_method_of(
                            #[trigger] b.functions@[i],
                            ty,
                        );
                    assert(is_swift_method_of(a.functions@[i], ty));
                }
            }
        }
    }
    lemma_gather_same(
        a.types@,
        b.types@,
        swift_class(a.functions@, cs),
        swift_class(b.functions@, cs),
    );
    assert(a.imports_from_swift() == b.imports_from_swift()) by {
        if exists|i: int|
            0 <= i < a.functions@.len() && (#[trigger] a.functions@[i]).host_lang is Swift {
            let i = choose|i: int|
                0 <= i < a.functions@.len() && (#[trigger] a.functions@[i]).host_lang is Swift;
            assert(b.functions@[i].host_lang is Swift);
        }
        if exists|i: int|
            0 <= i < b.functions@.len() && (#[trigger] b.functions@[i]).host_lang is Swift {
            let i = choose|i: int|
                0 <= i < b.functions@.len() && (#[trigger] b.functions@[i]).host_lang is Swift;
            assert(a.functions@[i].host_lang is Swift);
        }
    }
}

/// Whether `first` stands somewhere in `whole` and `second` behind it.
pub open spec fn occur_in_order(first: Seq<Token>, second: Seq<Token>, whole: Seq<Token>) -> bool {
    exists|left: Seq<Token>, right: Seq<Token>|
        occurs(first, left) && occurs(second, right) && whole == #[trigger] (left + right)
}

/// What two items contribute stands in their order in what all contribute.
proof fn lemma_gather_in_order<A>(items: Seq<A>, i: int, k: int, piece: spec_fn(A) -> Seq<Token>)
    requires
        0 <= i < k < items.len(),
    ensures
        occur_in_order(piece(items[i]), piece(items[k]), gather(items, piece)),
    decreases items.len(),
{
    let front = gather(items.drop_last(), piece);
    if k == items.len() - 1 {
        lemma_gather_occurs(items.drop_last(), i, piece);
        lemma_occurs_itself(piece(items[k]));
        assert(gather(items, piece) == front + piece(items[k]));
    } else {
        lemma_gather_in_order(items.drop_last(), i, k, piece);
        let (left, right) = choose|left: Seq<Token>, right: Seq<Token>|
            occurs(piece(items[i]), left) && occurs(piece(items[k]), right) && front
                == #[trigger] (left + right);
        lemma_occurs_left(piece(items[k]), right, piece(items.last()));
        assert(gather(items, piece) =~= left + (right + piece(items.last())));
    }
}

/// What stands in order in a part stands in order in the whole.
proof fn lemma_in_order_inside(
    first: Seq<Token>,
    second: Seq<Token>,
    part: Seq<Token>,
    whole: Seq<Token>,
)
    requires
        occur_in_order(first, second, part),
        occurs(part, whole),
    ensures
        occur_in_order(first, second, whole),
{
    let (left, right) = choose|left: Seq<Token>, right: Seq<Token>|
        occurs(first, left) && occurs(second, right) && part == #[trigger] (left + right);
    let (before, after) = choose|before: Seq<Token>, after: Seq<Token>|
        whole == #[trigger] (before + part + after);
    lemma_occurs_right(first, before, left);
    lemma_occurs_left(second, right, after);
    assert(whole =~= (before + left) + (right + after));
}

/// Functions of one kind keep the order of their declaration: the Rust functions that are
/// exported, the Swift functions that are declared, the free functions that call Swift, and the
/// methods of a class.
pub proof fn law_functions_keep_their_order(
    m: SwiftBridgeModule,
    i: int,
    k: int,
    ty: Seq<char>,
    cs: Span,
)
    requires
        0 <= i < k < m.functions@.len(),
    ensures
        ({
            let (f, g) = (m.functions@[i], m.functions@[k]);
            &&& f.host_lang is Rust && g.host_lang is Rust ==> occur_in_order(
                tokens_of(f.extern_c_function),
                tokens_of(g.extern_c_function),
                m.body_tokens(cs),
            )
            &&& f.host_lang is Swift && g.host_lang is Swift ==> {
                &&& occur_in_order(
                    tokens_of(f.extern_c_function),
                    tokens_of(g.extern_c_function),
                    m.swift_declarations(cs),
                )
                &&& f.associated_type is None && g.associated_type is None ==> occur_in_order(
                    tokens_of(f.rust_fn_that_calls_swift),
                    tokens_of(g.rust_fn_that_calls_swift),
                    m.body_tokens(cs),
                )
                &&& is_swift_method_of(f, ty) && is_swift_method_of(g, ty) ==> occur_in_order(
                    tokens_of(f.rust_fn_that_calls_swift),
                    tokens_of(g.rust_fn_that_calls_swift),
                    gather(m.functions@, swift_method(ty)),
                )
            }
        }),
{
    let (f, g) = (m.functions@[i], m.functions@[k]);
    let declared = gather(m.functions@, declared_swift_fn());
    lemma_sections(m, cs);
    lemma_gather_in_order(m.functions@, i, k, exported_fn());
    lemma_gather_in_order(m.functions@, i, k, declared_swift_fn());
    lemma_gather_in_order(m.functions@, i, k, freestanding_swift_fn());
    lemma_gather_in_order(m.functions@, i, k, swift_method(ty));
    lemma_in_order_inside(
        exported_fn()(f),
        exported_fn()(g),
        gather(m.functions@, exported_fn()),
        m.body_tokens(cs),
    );
    lemma_in_order_inside(
        freestanding_swift_fn()(f),
        freestanding_swift_fn()(g),
        gather(m.functions@, freestanding_swift_fn()),
        m.body_tokens(cs),
    );
    lemma_occurs_in_sum(declared, gather(m.types@, declared_swift_type(cs)));
    lemma_in_order_inside(
        declared_swift_fn()(f),
        declared_swift_fn()(g),
        declared,
        m.swift_declarations(cs),
    );
}

/// Types of one kind keep the order of their declaration: the shared structs, the shared enums,
/// the opaque Rust types, and the Swift classes with the functions that release them.
pub proof fn law_types_keep_their_order(m: SwiftBridgeModule, i: int, k: int, cs: Span)
    requires
        0 <= i < k < m.types@.len(),
    ensures
        ({
            let (s, t) = (m.types@[i], m.types@[k]);
            let exported = exported_type(tokens_of(m.swift_bridge_path), cs);
            let class = swift_class(m.functions@, cs);
            &&& occur_in_order(shared_struct()(s), shared_struct()(t), m.body_tokens(cs))
            &&& occur_in_order(shared_enum()(s), shared_enum()(t), m.body_tokens(cs))
            &&& occur_in_order(exported(s), exported(t), m.body_tokens(cs))
            &&& occur_in_order(class(s), class(t), m.body_tokens(cs))
            &&& occur_in_order(
                declared_swift_type(cs)(s),
                declared_swift_type(cs)(t),
                m.swift_declarations(cs),
            )
        }),
{
    let (s, t) = (m.types@[i], m.types@[k]);
    let exported = exported_type(tokens_of(m.swift_bridge_path), cs);
    let class = swift_class(m.functions@, cs);
    let declared = declared_swift_type(cs);
    let body = m.body_tokens(cs);
    lemma_sections(m, cs);
    lemma_gather_in_order(m.types@, i, k, shared_struct());
    lemma_gather_in_order(m.types@, i, k, shared_enum());
    lemma_gather_in_order(m.types@, i, k, exported);
    lemma_gather_in_order(m.types@, i, k, class);
    lemma_gather_in_order(m.types@, i, k, declared);
    lemma_in_order_inside(
        shared_struct()(s),
        shared_struct()(t),
        gather(m.types@, shared_struct()),
        body,
    );
    lemma_in_order_inside(
        shared_enum()(s),
        shared_enum()(t),
        gather(m.types@, shared_enum()),
        body,
    );
    lemma_in_order_inside(exported(s), exported(t), gather(m.types@, exported), body);
    lemma_in_order_inside(class(s), class(t), gather(m.types@, class), body);
    lemma_occurs_in_sum(gather(m.functions@, declared_swift_fn()), gather(m.types@, declared));
    lemma_in_order_inside(
        declared(s),
        declared(t),
        gather(m.types@, declared),
        m.swift_declarations(cs),
    );
}

/// An item that contributes nothing can be taken out.
proof fn lemma_gather_remove<A>(items: Seq<A>, j: int, piece: spec_fn(A) -> Seq<Token>)
    requires
        0 <= j < items.len(),
        piece(items[j]) == Seq::<Token>::empty(),
    ensures
        gather(items.remove(j), piece) == gather(items, piece),
    decreases items.len(),
{
    let front = items.drop_last();
    if j == items.len() - 1 {
        assert(items.remove(j) =~= front);
        assert(gather(items, piece) =~= gather(front, piece));
    } else {
        lemma_gather_remove(front, j, piece);
        assert(items.remove(j).drop_last() =~= front.remove(j));
        assert(items.remove(j).last() == items.last());
    }
}

/// An opaque Rust type that is not `Copy` and that another module carries adds nothing: the
/// module is the same without it.
pub proof fn law_type_of_another_module_adds_nothing(
    a: SwiftBridgeModule,
    b: SwiftBridgeModule,
    j: int,
    cs: Span,
)
    requires
        0 <= j < a.types@.len(),
        a.types@[j] matches TypeDeclaration::Opaque(opaque) && opaque.host_lang is Rust
            && opaque.already_declared && opaque.copy is None,
        b.types@ == a.types@.remove(j),
        b.functions@ == a.functions@,
        tokens_of(b.name) == tokens_of(a.name),
        tokens_of(b.swift_bridge_path) == tokens_of(a.swift_bridge_path),
        b.cfg_attrs@ == a.cfg_attrs@,
    ensures
        b.module_tokens(cs) == a.module_tokens(cs),
{
    lemma_gather_remove(a.types@, j, shared_struct());
    lemma_gather_remove(a.types@, j, shared_enum());
    lemma_gather_remove(a.types@, j, exported_type(tokens_of(a.swift_bridge_path), cs));
    lemma_gather_remove(a.types@, j, swift_class(a.functions@, cs));
    lemma_gather_remove(a.types@, j, declared_swift_type(cs));
    assert(a.imports_from_swift() == b.imports_from_swift()) by {
        assert(forall|i: int| 0 <= i < j ==> a.types@[i] == b.types@[i]);
        assert(forall|i: int| j < i < a.types@.len() ==> #[trigger] a.types@[i] == b.types@[i - 1]);
        if exists|i: int| 0 <= i < a.types@.len() && is_swift_class(#[trigger] a.types@[i]) {
            let i = choose|i: int|
                0 <= i < a.types@.len() && is_swift_class(#[trigger] a.types@[i]);
            assert(is_swift_class(b.types@[if i < j { i } else { i - 1 }]));
        }
        if exists|i: int| 0 <= i < b.types@.len() && is_swift_class(#[trigger] b.types@[i]) {
            let i = choose|i: int|
                0 <= i < b.types@.len() && is_swift_class(#[trigger] b.types@[i]);
            assert(is_swift_class(a.types@[if i < j { i } else { i + 1 }]));
        }
    }
}

/// Tokens can be made of a module exactly if none of its Swift functions belongs to a shared type
/// and all its opaque types are named by identifiers.
pub proof fn law_when_a_module_is_supported(m: SwiftBridgeModule)
    ensures
        m.is_supported() <==> {
            &&& forall|i: int|
                0 <= i < m.functions@.len() ==> !((#[trigger] m.functions@[i]).host_lang is Swift
                    && m.functions@[i].associated_type matches Some(TypeDeclaration::Shared(_)))
            &&& forall|j: int|
                0 <= j < m.types@.len() ==> (#[trigger] m.types@[j] matches TypeDeclaration::Opaque(
                    opaque,
                ) ==> is_ident(opaque.ty.text@))
        },
{
    if m.is_supported() {
        assert forall|i: int|
            0 <= i < m.functions@.len() implies !((#[trigger] m.functions@[i]).host_lang is Swift
                && m.functions@[i].associated_type matches Some(TypeDeclaration::Shared(_))) by {
            assert(!SwiftBridgeModule::is_unsupported(m.functions@[i]));
        }
        assert forall|j: int| 0 <= j < m.types@.len() implies (
        #[trigger] m.types@[j] matches TypeDeclaration::Opaque(opaque) ==> is_ident(
            opaque.ty.text@,
        )) by {
            assert(!SwiftBridgeModule::is_misnamed(m.types@[j]));
        }
    }
}

/// A module is written if its opaque types are named by ASCII letters, `_` and digits, with no
/// digit in front, and if no Swift function belongs to a shared type.
pub proof fn law_plainly_named_module_is_supported(m: SwiftBridgeModule)
    requires
        forall|i: int|
            0 <= i < m.functions@.len() ==> !((#[trigger] m.functions@[i]).host_lang is Swift
                && m.functions@[i].associated_type matches Some(TypeDeclaration::Shared(_))),
        forall|j: int|
            0 <= j < m.types@.len() ==> (#[trigger] m.types@[j] matches TypeDeclaration::Opaque(
                opaque,
            ) ==> {
                let text = opaque.ty.text@;
                &&& text.len() > 0
                &&& !(0x30 <= text[0] as int <= 0x39)
                &&& forall|k: int|
                    #![trigger text[k]]
                    0 <= k < text.len() ==> 0x30 <= text[k] as int <= 0x39 || 0x41 <= text[k] as int
                        <= 0x5a || text[k] as int == 0x5f || 0x61 <= text[k] as int <= 0x7a
            }),
    ensures
        m.is_supported(),
{
    assert forall|j: int| 0 <= j < m.types@.len() implies (
    #[trigger] m.types@[j] matches TypeDeclaration::Opaque(opaque) ==> is_ident(
        opaque.ty.text@,
    )) by {
        if m.types@[j] is Opaque {
            law_ascii_texts_are_identifiers(m.types@[j]->Opaque_0.ty.text@);
        }
    }
    law_when_a_module_is_supported(m);
}

/// A module that is not supported is refused for its first Swift function that belongs to a
/// shared type. Only if there is none, it is refused for the first of its opaque types whose name
/// is no identifier.
pub proof fn law_which_obstacle_is_reported(m: SwiftBridgeModule, function: usize, ty: usize)
    ensures
        m.is_first_obstacle(UnsupportedModule::SharedTypeMethod { function }) <==> {
            &&& function < m.functions@.len()
            &&& m.functions@[function as int].host_lang is Swift
            &&& m.functions@[function as int].associated_type matches Some(
                TypeDeclaration::Shared(_),
            )
            &&& forall|i: int|
                0 <= i < function ==> !((#[trigger] m.functions@[i]).host_lang is Swift
                    && m.functions@[i].associated_type matches Some(TypeDeclaration::Shared(_)))
        },
        m.is_first_obstacle(UnsupportedModule::TypeName { ty }) <==> {
            &&& ty < m.types@.len()
            &&& forall|i: int|
                0 <= i < m.functions@.len() ==> !((#[trigger] m.functions@[i]).host_lang is Swift
                    && m.functions@[i].associated_type matches Some(TypeDeclaration::Shared(_)))
            &&& m.types@[ty as int] matches TypeDeclaration::Opaque(opaque) && !is_ident(
                opaque.ty.text@,
            )
            &&& forall|j: int|
                0 <= j < ty ==> (#[trigger] m.types@[j] matches TypeDeclaration::Opaque(opaque)
                    ==> is_ident(opaque.ty.text@))
        },
{
    let shared = UnsupportedModule::SharedTypeMethod { function };
    let named = UnsupportedModule::TypeName { ty };
    if m.is_first_obstacle(shared) {
        assert forall|i: int|
            0 <= i < function implies !((#[trigger] m.functions@[i]).host_lang is Swift
                && m.functions@[i].associated_type matches Some(TypeDeclaration::Shared(_))) by {
            assert(!SwiftBridgeModule::is_unsupported(m.functions@[i]));
        }
    }
    if m.is_first_obstacle(named) {
        assert forall|i: int|
            0 <= i < m.functions@.len() implies !((#[trigger] m.functions@[i]).host_lang is Swift
                && m.functions@[i].associated_type matches Some(TypeDeclaration::Shared(_))) by {
            assert(!SwiftBridgeModule::is_unsupported(m.functions@[i]));
        }
        assert forall|j: int| 0 <= j < ty implies (
        #[trigger] m.types@[j] matches TypeDeclaration::Opaque(opaque) ==> is_ident(
            opaque.ty.text@,
        )) by {
            assert(!SwiftBridgeModule::is_misnamed(m.types@[j]));
        }
    }
}

/// The items of every opaque Rust type stand in the body in one piece.
pub proof fn law_opaque_rust_items_stand_in_the_body(m: SwiftBridgeModule, j: int, cs: Span)
    requires
        0 <= j < m.types@.len(),
        m.types@[j] is Opaque,
        m.types@[j]->Opaque_0.host_lang is Rust,
    ensures
        occurs(
            opaque_rust_items(m.types@[j]->Opaque_0, tokens_of(m.swift_bridge_path), cs),
            m.body_tokens(cs),
        ),
{
    let path = tokens_of(m.swift_bridge_path);
    lemma_sections(m, cs);
    lemma_gather_occurs(m.types@, j, exported_type(path, cs));
    lemma_occurs_inside(
        opaque_rust_items(m.types@[j]->Opaque_0, path, cs),
        gather(m.types@, exported_type(path, cs)),
        m.body_tokens(cs),
    );
}

/// Sections one behind the other may be put into brackets in another way.
proof fn lemma_regroup(
    structs: Seq<Token>,
    enums: Seq<Token>,
    functions: Seq<Token>,
    types: Seq<Token>,
    free: Seq<Token>,
    classes: Seq<Token>,
    imports: Seq<Token>,
)
    ensures
        structs + enums + (functions + types) + free + classes + imports == (structs + enums
            + functions) + (types + free + classes + imports),
{
    assert(structs + enums + (functions + types) + free + classes + imports =~= (structs + enums
        + functions) + (types + free + classes + imports));
}

/// One more Rust function at the end adds exactly its exported tokens to the body, once and in
/// one place, whatever type it belongs to. Gives what stands on either side of them.
pub proof fn law_one_more_rust_function(
    a: SwiftBridgeModule,
    b: SwiftBridgeModule,
    f: ParsedExternFn,
    cs: Span,
) -> (around: (Seq<Token>, Seq<Token>))
    requires
        b.functions@ == a.functions@.push(f),
        b.types@ == a.types@,
        tokens_of(b.swift_bridge_path) == tokens_of(a.swift_bridge_path),
        f.host_lang is Rust,
    ensures
        a.body_tokens(cs) == around.0 + around.1,
        b.body_tokens(cs) == around.0 + tokens_of(f.extern_c_function) + around.1,
{
    let swift = in_language(HostLang::Swift);
    assert(b.functions@.drop_last() =~= a.functions@);
    assert(b.functions@.filter(swift) == a.functions@.filter(swift)) by {
        reveal(Seq::filter);
    }
    lemma_gather_filter(a.functions@, swift, freestanding_swift_fn());
    lemma_gather_filter(b.functions@, swift, freestanding_swift_fn());
    lemma_gather_filter(a.functions@, swift, declared_swift_fn());
    lemma_gather_filter(b.functions@, swift, declared_swift_fn());
    assert forall|j: int| 0 <= j < a.types@.len() implies swift_class(a.functions@, cs)(
        #[trigger] a.types@[j],
    ) == swift_class(b.functions@, cs)(b.types@[j]) by {
        if a.types@[j] is Opaque {
            lemma_same_swift_methods(
                a.functions@,
                b.functions@,
                a.types@[j]->Opaque_0.ty.text@,
            );
        }
    }
    lemma_gather_same(
        a.types@,
        b.types@,
        swift_class(a.functions@, cs),
        swift_class(b.functions@, cs),
    );
    assert(a.imports_from_swift() == b.imports_from_swift()) by {
        if exists|i: int|
            0 <= i < a.functions@.len() && (#[trigger] a.functions@[i]).host_lang is Swift {
            let i = choose|i: int|
                0 <= i < a.functions@.len() && (#[trigger] a.functions@[i]).host_lang is Swift;
            assert(b.functions@[i].host_lang is Swift);
        }
        if exists|i: int|
            0 <= i < b.functions@.len() && (#[trigger] b.functions@[i]).host_lang is Swift {
            let i = choose|i: int|
                0 <= i < b.functions@.len() && (#[trigger] b.functions@[i]).host_lang is Swift;
            assert(a.functions@[i].host_lang is Swift);
        }
    }
    let path = tokens_of(a.swift_bridge_path);
    let (structs, enums) = (gather(a.types@, shared_struct()), gather(a.types@, shared_enum()));
    let earlier = gather(a.functions@, exported_fn());
    let types = gather(a.types@, exported_type(path, cs));
    let free = gather(a.functions@, freestanding_swift_fn());
    let classes = gather(a.types@, swift_class(a.functions@, cs));
    let imports = a.swift_imports(cs);
    let new = tokens_of(f.extern_c_function);
    assert(gather(b.functions@, exported_fn()) == earlier + new);
    assert(b.swift_imports(cs) == imports);
    lemma_regroup(structs, enums, earlier, types, free, classes, imports);
    lemma_regroup(structs, enums, earlier + new, types, free, classes, imports);
    assert(structs + enums + (earlier + new) =~= structs + enums + earlier + new);
    (structs + enums + earlier, types + free + classes + imports)
}

} // verus!
