//! The Rust tokens of a bridge module.

use vstd::hash_map::StringHashMap;
use vstd::prelude::*;

use proc_macro2::{Span, TokenStream};

use crate::ident::{check_ident, is_ident};
use crate::items::{
    assert_size, assert_size_tokens, cfg_feature, cfg_feature_tokens, copy_struct,
    copy_struct_tokens, foreign_block, foreign_block_tokens, mod_item, mod_item_tokens,
    rust_free_fn, rust_free_fn_tokens, swift_class_struct, swift_class_struct_tokens,
    swift_free_decl, swift_free_decl_tokens,
};
use crate::module::{
    CfgAttr, HostLang, OpaqueForeignTypeDeclaration, ParsedExternFn, SharedTypeDeclaration,
    SwiftBridgeModule, TypeDeclaration,
};
use crate::token::{macro_call_site, put_stream, tokens_of, Token};

verus! {

/// What each of `items` contributes, one behind the other.
pub open spec fn gather<A>(items: Seq<A>, piece: spec_fn(A) -> Seq<Token>) -> Seq<Token>
    decreases items.len(),
{
    if items.len() == 0 {
        Seq::empty()
    } else {
        gather(items.drop_last(), piece) + piece(items.last())
    }
}

/// One more item adds its contribution at the end.
pub proof fn lemma_gather_step<A>(items: Seq<A>, n: int, piece: spec_fn(A) -> Seq<Token>)
    requires
        0 <= n < items.len(),
    ensures
        gather(items.take(n + 1), piece) == gather(items.take(n), piece) + piece(items[n]),
{
    assert(items.take(n + 1).drop_last() =~= items.take(n));
}

/// Items that contribute nothing one by one contribute nothing together.
pub proof fn lemma_gather_nothing<A>(items: Seq<A>, piece: spec_fn(A) -> Seq<Token>)
    requires
        forall|i: int| 0 <= i < items.len() ==> piece(#[trigger] items[i]) == Seq::<Token>::empty(),
    ensures
        gather(items, piece) == Seq::<Token>::empty(),
    decreases items.len(),
{
    if items.len() > 0 {
        assert forall|i: int| 0 <= i < items.drop_last().len() implies piece(
            #[trigger] items.drop_last()[i],
        ) == Seq::<Token>::empty() by {
            assert(items.drop_last()[i] == items[i]);
        }
        lemma_gather_nothing(items.drop_last(), piece);
        assert(piece(items[items.len() - 1]) == Seq::<Token>::empty());
        assert(gather(items, piece) =~= Seq::<Token>::empty());
    }
}

/// Whether `f` is a method or an associated function of the opaque type named `ty`, in Swift.
pub open spec fn is_swift_method_of(f: ParsedExternFn, ty: Seq<char>) -> bool {
    &&& f.host_lang is Swift
    &&& f.associated_type matches Some(TypeDeclaration::Opaque(opaque))
    &&& opaque.ty.text@ == ty
}

/// What `f` adds to the functions that Rust exports.
pub open spec fn exported_fn() -> spec_fn(ParsedExternFn) -> Seq<Token> {
    |f: ParsedExternFn|
        if f.host_lang is Rust {
            tokens_of(f.extern_c_function)
        } else {
            Seq::empty()
        }
}

/// What `f` adds to the free functions that call Swift.
pub open spec fn freestanding_swift_fn() -> spec_fn(ParsedExternFn) -> Seq<Token> {
    |f: ParsedExternFn|
        if f.host_lang is Swift && f.associated_type is None {
            tokens_of(f.rust_fn_that_calls_swift)
        } else {
            Seq::empty()
        }
}

/// What `f` adds to the methods of the Swift class `ty`.
pub open spec fn swift_method(ty: Seq<char>) -> spec_fn(ParsedExternFn) -> Seq<Token> {
    |f: ParsedExternFn|
        if is_swift_method_of(f, ty) {
            tokens_of(f.rust_fn_that_calls_swift)
        } else {
            Seq::empty()
        }
}

/// What `f` adds to the declarations of what Swift exports.
pub open spec fn declared_swift_fn() -> spec_fn(ParsedExternFn) -> Seq<Token> {
    |f: ParsedExternFn|
        if f.host_lang is Swift {
            tokens_of(f.extern_c_function)
        } else {
            Seq::empty()
        }
}

/// The tokens of a definition, if there is one.
pub open spec fn definition_tokens(definition: Option<TokenStream>) -> Seq<Token> {
    match definition {
        Some(tokens) => tokens_of(tokens),
        None => Seq::empty(),
    }
}

/// What `ty` adds to the definitions of shared structs.
pub open spec fn shared_struct() -> spec_fn(TypeDeclaration) -> Seq<Token> {
    |ty: TypeDeclaration|
        match ty {
            TypeDeclaration::Shared(SharedTypeDeclaration::Struct(shared)) => definition_tokens(
                shared.definition,
            ),
            _ => Seq::empty(),
        }
}

/// What `ty` adds to the definitions of shared enums.
pub open spec fn shared_enum() -> spec_fn(TypeDeclaration) -> Seq<Token> {
    |ty: TypeDeclaration|
        match ty {
            TypeDeclaration::Shared(SharedTypeDeclaration::Enum(shared)) => definition_tokens(
                shared.definition,
            ),
            _ => Seq::empty(),
        }
}

/// The items of an opaque Rust type: those that carry it by its bytes if it is `Copy`, otherwise
/// those that release it and handle vectors of it, unless another module has them already.
pub open spec fn opaque_rust_items(
    opaque: OpaqueForeignTypeDeclaration,
    path: Seq<Token>,
    cs: Span,
) -> Seq<Token> {
    let (text, at) = (opaque.ty.text@, opaque.ty.span);
    match opaque.copy {
        Some(copy) => assert_size(path, text, at, copy.size_bytes, cs) + copy_struct(
            text,
            at,
            copy.size_bytes,
            cs,
        ),
        None => if opaque.already_declared {
            Seq::empty()
        } else {
            rust_free_fn(text, at, cs) + tokens_of(opaque.vec_functions)
        },
    }
}

/// What `ty` adds to the items that Rust exports.
pub open spec fn exported_type(path: Seq<Token>, cs: Span) -> spec_fn(TypeDeclaration) -> Seq<
    Token,
> {
    |ty: TypeDeclaration|
        match ty {
            TypeDeclaration::Opaque(opaque) => if opaque.host_lang is Rust {
                opaque_rust_items(opaque, path, cs)
            } else {
                Seq::empty()
            },
            _ => Seq::empty(),
        }
}

/// The methods of the Swift class `ty`, if there are any.
pub open spec fn swift_methods(functions: Seq<ParsedExternFn>, ty: Seq<char>) -> Option<
    Seq<Token>,
> {
    if exists|i: int|
        0 <= i < functions.len() && is_swift_method_of(#[trigger] functions[i], ty) {
        Some(gather(functions, swift_method(ty)))
    } else {
        None
    }
}

/// What `ty` adds to the structs that stand for Swift classes.
pub open spec fn swift_class(functions: Seq<ParsedExternFn>, cs: Span) -> spec_fn(
    TypeDeclaration,
) -> Seq<Token> {
    |ty: TypeDeclaration|
        match ty {
            TypeDeclaration::Opaque(opaque) => if opaque.host_lang is Swift {
                swift_class_struct(
                    opaque.ty.text@,
                    opaque.ty.span,
                    swift_methods(functions, opaque.ty.text@),
                    cs,
                )
            } else {
                Seq::empty()
            },
            _ => Seq::empty(),
        }
}

/// What `ty` adds to the declarations of what Swift exports.
pub open spec fn declared_swift_type(cs: Span) -> spec_fn(TypeDeclaration) -> Seq<Token> {
    |ty: TypeDeclaration|
        match ty {
            TypeDeclaration::Opaque(opaque) => if opaque.host_lang is Swift {
                swift_free_decl(opaque.ty.text@, opaque.ty.span, cs)
            } else {
                Seq::empty()
            },
            _ => Seq::empty(),
        }
}

/// Whether `ty` is a Swift class.
pub open spec fn is_swift_class(ty: TypeDeclaration) -> bool {
    ty matches TypeDeclaration::Opaque(opaque) && opaque.host_lang is Swift
}

/// What a condition adds to the attributes of the module.
pub open spec fn module_attribute(cs: Span) -> spec_fn(CfgAttr) -> Seq<Token> {
    |cfg: CfgAttr|
        match cfg {
            CfgAttr::Feature(name) => cfg_feature(tokens_of(name), cs),
        }
}

/// Why no tokens can be made of a module.
#[derive(Clone, Copy, PartialEq, Eq, Debug, Structural)]
pub enum UnsupportedModule {
    /// The Swift function at this index is a method of a shared type.
    SharedTypeMethod { function: usize },
    /// The name of the opaque type at this index is no identifier, or is written with `r#`.
    TypeName { ty: usize },
}

impl SwiftBridgeModule {
    /// Whether Swift exports anything to the module.
    pub open spec fn imports_from_swift(self) -> bool {
        ||| exists|i: int|
            0 <= i < self.functions@.len() && (#[trigger] self.functions@[i]).host_lang is Swift
        ||| exists|i: int|
            0 <= i < self.types@.len() && is_swift_class(#[trigger] self.types@[i])
    }

    /// The declarations of what Swift exports.
    pub open spec fn swift_declarations(self, cs: Span) -> Seq<Token> {
        gather(self.functions@, declared_swift_fn()) + gather(self.types@, declared_swift_type(cs))
    }

    /// The block around those declarations, if there are any.
    pub open spec fn swift_imports(self, cs: Span) -> Seq<Token> {
        if self.imports_from_swift() {
            foreign_block(self.swift_declarations(cs), cs)
        } else {
            Seq::empty()
        }
    }

    /// The items of the module.
    pub open spec fn body_tokens(self, cs: Span) -> Seq<Token> {
        gather(self.types@, shared_struct()) + gather(self.types@, shared_enum()) + (gather(
            self.functions@,
            exported_fn(),
        ) + gather(self.types@, exported_type(tokens_of(self.swift_bridge_path), cs))) + gather(
            self.functions@,
            freestanding_swift_fn(),
        ) + gather(self.types@, swift_class(self.functions@, cs)) + self.swift_imports(cs)
    }

    /// The module as one item. What is not carried over from a part of it stands at `cs`.
    pub open spec fn module_tokens(self, cs: Span) -> Seq<Token> {
        mod_item(
            gather(self.cfg_attrs@, module_attribute(cs)),
            tokens_of(self.name),
            self.body_tokens(cs),
            cs,
        )
    }

    /// Whether `f` is a Swift method of a shared type, which the bridge does not support.
    pub open spec fn is_unsupported(f: ParsedExternFn) -> bool {
        f.host_lang is Swift && f.associated_type matches Some(TypeDeclaration::Shared(_))
    }

    /// Whether `ty` is an opaque type whose name is no identifier.
    pub open spec fn is_misnamed(ty: TypeDeclaration) -> bool {
        ty matches TypeDeclaration::Opaque(opaque) && !is_ident(opaque.ty.text@)
    }

    /// Whether `reason` names the first function that is not supported or, if all functions are,
    /// the first opaque type whose name is no identifier.
    pub open spec fn is_first_obstacle(self, reason: UnsupportedModule) -> bool {
        match reason {
            UnsupportedModule::SharedTypeMethod { function } => {
                &&& function < self.functions@.len()
                &&& Self::is_unsupported(self.functions@[function as int])
                &&& forall|i: int|
                    0 <= i < function ==> !Self::is_unsupported(#[trigger] self.functions@[i])
            },
            UnsupportedModule::TypeName { ty } => {
                &&& ty < self.types@.len()
                &&& forall|i: int|
                    0 <= i < self.functions@.len() ==> !Self::is_unsupported(
                        #[trigger] self.functions@[i],
                    )
                &&& Self::is_misnamed(self.types@[ty as int])
                &&& forall|i: int| 0 <= i < ty ==> !Self::is_misnamed(#[trigger] self.types@[i])
            },
        }
    }

    /// Whether tokens can be made of the module: no Swift function is a method of a shared type,
    /// and opaque types are named by identifiers that are not written with `r#`.
    pub open spec fn is_supported(self) -> bool {
        &&& forall|i: int|
            0 <= i < self.functions@.len() ==> !Self::is_unsupported(
                #[trigger] self.functions@[i],
            )
        &&& forall|i: int|
            0 <= i < self.types@.len() ==> !Self::is_misnamed(#[trigger] self.types@[i])
    }
}

/// What the functions of a module contribute to its sections.
struct FnSections {
    /// The functions that Rust exports.
    exported: TokenStream,
    /// The free functions that call Swift.
    freestanding: TokenStream,
    /// The methods of Swift classes, by the name of the class.
    methods: StringHashMap<TokenStream>,
    /// The declarations of the functions that Swift exports.
    declared: TokenStream,
    /// Whether Swift exports any function.
    any_swift: bool,
}

impl FnSections {
    /// Whether the sections hold what `functions` contribute.
    spec fn holds(self, functions: Seq<ParsedExternFn>) -> bool {
        &&& tokens_of(self.exported) == gather(functions, exported_fn())
        &&& tokens_of(self.freestanding) == gather(functions, freestanding_swift_fn())
        &&& tokens_of(self.declared) == gather(functions, declared_swift_fn())
        &&& self.any_swift == exists|i: int|
            0 <= i < functions.len() && (#[trigger] functions[i]).host_lang is Swift
        &&& forall|ty: Seq<char>| #[trigger]
            swift_methods(functions, ty) == if self.methods@.contains_key(ty) {
                Some(tokens_of(self.methods@[ty]))
            } else {
                None
            }
    }
}

/// Adds the tokens of a method to those that the class `ty` already has.
fn put_method(methods: &mut StringHashMap<TokenStream>, ty: &String, method: &TokenStream)
    ensures
        final(methods)@.dom() == old(methods)@.dom().insert(ty@),
        forall|other: Seq<char>|
            other != ty@ && old(methods)@.contains_key(other) ==> #[trigger] final(methods)@[other]
                == old(methods)@[other],
        tokens_of(final(methods)@[ty@]) == (if old(methods)@.contains_key(ty@) {
            tokens_of(old(methods)@[ty@])
        } else {
            Seq::empty()
        }) + tokens_of(*method),
{
    let mut tokens = TokenStream::new();
    if let Some(earlier) = methods.get(ty.as_str()) {
        put_stream(&mut tokens, earlier);
        assert(tokens_of(tokens) =~= tokens_of(*earlier));
    }
    put_stream(&mut tokens, method);
    methods.insert(ty.clone(), tokens);
}

/// What one more function does to the methods of the class `ty`.
proof fn lemma_swift_methods_step(functions: Seq<ParsedExternFn>, n: int, ty: Seq<char>)
    requires
        0 <= n < functions.len(),
    ensures
        swift_methods(functions.take(n + 1), ty) == if is_swift_method_of(functions[n], ty) {
            Some(
                match swift_methods(functions.take(n), ty) {
                    Some(earlier) => earlier,
                    None => Seq::empty(),
                } + tokens_of(functions[n].rust_fn_that_calls_swift),
            )
        } else {
            swift_methods(functions.take(n), ty)
        },
{
    let (before, after) = (functions.take(n), functions.take(n + 1));
    lemma_gather_step(functions, n, swift_method(ty));
    assert(after[n] == functions[n]);
    assert(forall|i: int| 0 <= i < n ==> before[i] == after[i]);
    if !(exists|i: int| 0 <= i < n && is_swift_method_of(#[trigger] before[i], ty)) {
        lemma_gather_nothing(before, swift_method(ty));
    }
    if is_swift_method_of(functions[n], ty) {
        assert(is_swift_method_of(after[n], ty));
    } else {
        assert(gather(after, swift_method(ty)) =~= gather(before, swift_method(ty)));
        if exists|i: int| 0 <= i < n && is_swift_method_of(#[trigger] before[i], ty) {
            let i = choose|i: int| 0 <= i < n && is_swift_method_of(#[trigger] before[i], ty);
            assert(is_swift_method_of(after[i], ty));
        }
    }
}

/// Sorts the functions of a module into its sections.
fn sort_functions(functions: &Vec<ParsedExternFn>) -> (sections: FnSections)
    requires
        forall|i: int|
            0 <= i < functions@.len() ==> !SwiftBridgeModule::is_unsupported(
                #[trigger] functions@[i],
            ),
    ensures
        sections.holds(functions@),
{
    let mut sections = FnSections {
        exported: TokenStream::new(),
        freestanding: TokenStream::new(),
        methods: StringHashMap::new(),
        declared: TokenStream::new(),
        any_swift: false,
    };
    let mut n: usize = 0;
    assert(sections.holds(functions@.take(0)));
    while n < functions.len()
        invariant
            n <= functions@.len(),
            forall|i: int|
                0 <= i < functions@.len() ==> !SwiftBridgeModule::is_unsupported(
                    #[trigger] functions@[i],
                ),
            sections.holds(functions@.take(n as int)),
        decreases functions@.len() - n,
    {
        let f = &functions[n];
        let ghost before = functions@.take(n as int);
        let ghost after = functions@.take(n + 1);
        let ghost earlier = sections.methods@;
        proof {
            lemma_gather_step(functions@, n as int, exported_fn());
            lemma_gather_step(functions@, n as int, freestanding_swift_fn());
            lemma_gather_step(functions@, n as int, declared_swift_fn());
            assert(after[n as int] == *f);
            assert(forall|i: int| 0 <= i < n ==> before[i] == after[i]);
        }
        match f.host_lang {
            HostLang::Rust => {
                put_stream(&mut sections.exported, &f.extern_c_function);
            },
            HostLang::Swift => {
                match &f.associated_type {
                    Some(TypeDeclaration::Opaque(opaque)) => {
                        put_method(
                            &mut sections.methods,
                            &opaque.ty.text,
                            &f.rust_fn_that_calls_swift,
                        );
                    },
                    Some(TypeDeclaration::Shared(_)) => {
                        assert(SwiftBridgeModule::is_unsupported(*f));
                    },
                    None => {
                        put_stream(&mut sections.freestanding, &f.rust_fn_that_calls_swift);
                    },
                }
                put_stream(&mut sections.declared, &f.extern_c_function);
                sections.any_swift = true;
            },
        }
        proof {
            assert forall|ty: Seq<char>| #[trigger]
                swift_methods(after, ty) == if sections.methods@.contains_key(ty) {
                    Some(tokens_of(sections.methods@[ty]))
                } else {
                    None
                } by {
                lemma_swift_methods_step(functions@, n as int, ty);
                let _ = swift_methods(before, ty);
            }
            assert(tokens_of(sections.exported) =~= gather(after, exported_fn()));
            assert(tokens_of(sections.freestanding) =~= gather(after, freestanding_swift_fn()));
            assert(tokens_of(sections.declared) =~= gather(after, declared_swift_fn()));
        }
        n = n + 1;
    }
    assert(functions@.take(n as int) =~= functions@);
    sections
}

/// What the types of a module contribute to its sections.
struct TypeSections {
    /// The definitions of shared structs.
    structs: TokenStream,
    /// The definitions of shared enums.
    enums: TokenStream,
    /// The items that Rust exports.
    exported: TokenStream,
    /// The structs that stand for Swift classes.
    classes: TokenStream,
    /// The declarations of the functions that release values of Swift classes.
    declared: TokenStream,
    /// Whether there is any Swift class.
    any_swift: bool,
}

impl TypeSections {
    /// Whether the sections hold what `types` contribute.
    spec fn holds(
        self,
        types: Seq<TypeDeclaration>,
        functions: Seq<ParsedExternFn>,
        path: Seq<Token>,
        cs: Span,
    ) -> bool {
        &&& tokens_of(self.structs) == gather(types, shared_struct())
        &&& tokens_of(self.enums) == gather(types, shared_enum())
        &&& tokens_of(self.exported) == gather(types, exported_type(path, cs))
        &&& tokens_of(self.classes) == gather(types, swift_class(functions, cs))
        &&& tokens_of(self.declared) == gather(types, declared_swift_type(cs))
        &&& self.any_swift == exists|i: int|
            0 <= i < types.len() && is_swift_class(#[trigger] types[i])
    }
}

/// Writes the items of an opaque Rust type.
fn put_opaque_rust_items(
    out: &mut TokenStream,
    opaque: &OpaqueForeignTypeDeclaration,
    path: &TokenStream,
    cs: Span,
)
    requires
        is_ident(opaque.ty.text@),
    ensures
        tokens_of(*final(out)) == tokens_of(*old(out)) + opaque_rust_items(
            *opaque,
            tokens_of(*path),
            cs,
        ),
{
    let text = opaque.ty.text.as_str();
    let at = opaque.ty.span;
    if let Some(copy) = opaque.copy {
        put_stream(out, &assert_size_tokens(path, text, at, copy.size_bytes, cs));
        put_stream(out, &copy_struct_tokens(text, at, copy.size_bytes, cs));
    }
    if !opaque.already_declared && opaque.copy.is_none() {
        put_stream(out, &rust_free_fn_tokens(text, at, cs));
        put_stream(out, &opaque.vec_functions);
    }
    assert(tokens_of(*out) =~= tokens_of(*old(out)) + opaque_rust_items(
        *opaque,
        tokens_of(*path),
        cs,
    ));
}

/// Sorts the types of a module into its sections.
fn sort_types(
    types: &Vec<TypeDeclaration>,
    methods: &StringHashMap<TokenStream>,
    path: &TokenStream,
    cs: Span,
    Ghost(functions): Ghost<Seq<ParsedExternFn>>,
) -> (sections: TypeSections)
    requires
        forall|i: int|
            0 <= i < types@.len() ==> !SwiftBridgeModule::is_misnamed(#[trigger] types@[i]),
        forall|ty: Seq<char>| #[trigger]
            swift_methods(functions, ty) == if methods@.contains_key(ty) {
                Some(tokens_of(methods@[ty]))
            } else {
                None
            },
    ensures
        sections.holds(types@, functions, tokens_of(*path), cs),
{
    let mut sections = TypeSections {
        structs: TokenStream::new(),
        enums: TokenStream::new(),
        exported: TokenStream::new(),
        classes: TokenStream::new(),
        declared: TokenStream::new(),
        any_swift: false,
    };
    let mut n: usize = 0;
    assert(sections.holds(types@.take(0), functions, tokens_of(*path), cs));
    while n < types.len()
        invariant
            n <= types@.len(),
            forall|i: int|
                0 <= i < types@.len() ==> !SwiftBridgeModule::is_misnamed(#[trigger] types@[i]),
            forall|ty: Seq<char>| #[trigger]
                swift_methods(functions, ty) == if methods@.contains_key(ty) {
                    Some(tokens_of(methods@[ty]))
                } else {
                    None
                },
            sections.holds(types@.take(n as int), functions, tokens_of(*path), cs),
        decreases types@.len() - n,
    {
        let ty = &types[n];
        let ghost before = types@.take(n as int);
        let ghost after = types@.take(n + 1);
        proof {
            lemma_gather_step(types@, n as int, shared_struct());
            lemma_gather_step(types@, n as int, shared_enum());
            lemma_gather_step(types@, n as int, exported_type(tokens_of(*path), cs));
            lemma_gather_step(types@, n as int, swift_class(functions, cs));
            lemma_gather_step(types@, n as int, declared_swift_type(cs));
            assert(after[n as int] == *ty);
            assert(forall|i: int| 0 <= i < n ==> before[i] == after[i]);
        }
        match ty {
            TypeDeclaration::Shared(SharedTypeDeclaration::Struct(shared)) => {
                if let Some(definition) = &shared.definition {
                    put_stream(&mut sections.structs, definition);
                }
            },
            TypeDeclaration::Shared(SharedTypeDeclaration::Enum(shared)) => {
                if let Some(definition) = &shared.definition {
                    put_stream(&mut sections.enums, definition);
                }
            },
            TypeDeclaration::Opaque(opaque) => {
                let text = opaque.ty.text.as_str();
                let at = opaque.ty.span;
                assert(!SwiftBridgeModule::is_misnamed(*ty));
                match opaque.host_lang {
                    HostLang::Rust => {
                        put_opaque_rust_items(&mut sections.exported, opaque, path, cs);
                    },
                    HostLang::Swift => {
                        let found = methods.get(text);
                        let class = swift_class_struct_tokens(text, at, found, cs);
                        put_stream(&mut sections.classes, &class);
                        put_stream(
                            &mut sections.declared,
                            &swift_free_decl_tokens(text, at, cs),
                        );
                        sections.any_swift = true;
                        assert(tokens_of(class) == swift_class(functions, cs)(*ty)) by {
                            let _ = swift_methods(functions, opaque.ty.text@);
                        }
                    },
                }
            },
        }
        proof {
            assert(tokens_of(sections.structs) =~= gather(after, shared_struct()));
            assert(tokens_of(sections.enums) =~= gather(after, shared_enum()));
            assert(tokens_of(sections.exported) =~= gather(
                after,
                exported_type(tokens_of(*path), cs),
            ));
            assert(tokens_of(sections.classes) =~= gather(after, swift_class(functions, cs)));
            assert(tokens_of(sections.declared) =~= gather(after, declared_swift_type(cs)));
        }
        n = n + 1;
    }
    assert(types@.take(n as int) =~= types@);
    sections
}

/// Writes the attributes that the conditions of a module amount to.
fn module_attribute_tokens(cfg_attrs: &Vec<CfgAttr>, cs: Span) -> (out: TokenStream)
    ensures
        tokens_of(out) == gather(cfg_attrs@, module_attribute(cs)),
{
    let mut out = TokenStream::new();
    let mut n: usize = 0;
    while n < cfg_attrs.len()
        invariant
            n <= cfg_attrs@.len(),
            tokens_of(out) == gather(cfg_attrs@.take(n as int), module_attribute(cs)),
        decreases cfg_attrs@.len() - n,
    {
        proof {
            lemma_gather_step(cfg_attrs@, n as int, module_attribute(cs));
        }
        match &cfg_attrs[n] {
            CfgAttr::Feature(feature_name) => {
                put_stream(&mut out, &cfg_feature_tokens(feature_name, cs));
            },
        }
        n = n + 1;
    }
    assert(cfg_attrs@.take(n as int) =~= cfg_attrs@);
    out
}

impl SwiftBridgeModule {
    /// Adds the tokens of the module to `tokens`. What is not carried over from a part of the
    /// module stands at `call_site`.
    pub fn to_tokens_at(&self, call_site: Span, tokens: &mut TokenStream)
        requires
            self.is_supported(),
        ensures
            tokens_of(*final(tokens)) == tokens_of(*old(tokens)) + self.module_tokens(call_site),
    {
        let fns = sort_functions(&self.functions);
        let types = sort_types(
            &self.types,
            &fns.methods,
            &self.swift_bridge_path,
            call_site,
            Ghost(self.functions@),
        );

        let mut body = TokenStream::new();
        put_stream(&mut body, &types.structs);
        put_stream(&mut body, &types.enums);
        put_stream(&mut body, &fns.exported);
        put_stream(&mut body, &types.exported);
        put_stream(&mut body, &fns.freestanding);
        put_stream(&mut body, &types.classes);
        if fns.any_swift || types.any_swift {
            let mut declared = TokenStream::new();
            put_stream(&mut declared, &fns.declared);
            put_stream(&mut declared, &types.declared);
            assert(tokens_of(declared) =~= self.swift_declarations(call_site));
            put_stream(&mut body, &foreign_block_tokens(declared, call_site));
        }
        assert(tokens_of(body) =~= self.body_tokens(call_site));

        let attributes = module_attribute_tokens(&self.cfg_attrs, call_site);
        put_stream(tokens, &mod_item_tokens(&attributes, &self.name, body, call_site));
    }

    /// Adds the tokens of the module to `tokens`. What is not carried over from a part of the
    /// module stands at the call of the macro that is being expanded.
    pub fn to_tokens(&self, tokens: &mut TokenStream)
        requires
            self.is_supported(),
        ensures
            exists|span: Span|
                call_ensures(Span::call_site, (), span) && tokens_of(*final(tokens)) == tokens_of(
                    *old(tokens),
                ) + #[trigger] self.module_tokens(span),
    {
        self.to_tokens_at(macro_call_site(), tokens);
    }

    /// Tells whether tokens can be made of the module, and what stands in the way otherwise.
    pub fn check_supported(&self) -> (result: Result<(), UnsupportedModule>)
        ensures
            self.is_supported() <==> result is Ok,
            result matches Err(reason) ==> self.is_first_obstacle(reason),
    {
        let mut n: usize = 0;
        while n < self.functions.len()
            invariant
                n <= self.functions@.len(),
                forall|i: int| 0 <= i < n ==> !Self::is_unsupported(#[trigger] self.functions@[i]),
            decreases self.functions@.len() - n,
        {
            let f = &self.functions[n];
            if let (HostLang::Swift, Some(TypeDeclaration::Shared(_))) = (
                f.host_lang,
                &f.associated_type,
            ) {
                assert(Self::is_unsupported(self.functions@[n as int]));
                return Err(UnsupportedModule::SharedTypeMethod { function: n });
            }
            n = n + 1;
        }
        let mut n: usize = 0;
        while n < self.types.len()
            invariant
                n <= self.types@.len(),
                forall|i: int|
                    0 <= i < self.functions@.len() ==> !Self::is_unsupported(
                        #[trigger] self.functions@[i],
                    ),
                forall|i: int| 0 <= i < n ==> !Self::is_misnamed(#[trigger] self.types@[i]),
            decreases self.types@.len() - n,
        {
            if let TypeDeclaration::Opaque(opaque) = &self.types[n] {
                if !check_ident(opaque.ty.text.as_str()) {
                    assert(Self::is_misnamed(self.types@[n as int]));
                    return Err(UnsupportedModule::TypeName { ty: n });
                }
            }
            n = n + 1;
        }
        Ok(())
    }

    /// Adds the tokens of the module to `tokens` if it is supported, with what is not carried
    /// over from a part of it at `call_site`. Leaves `tokens` as it is otherwise.
    pub fn try_to_tokens_at(&self, call_site: Span, tokens: &mut TokenStream) -> (result: Result<
        (),
        UnsupportedModule,
    >)
        ensures
            self.is_supported() <==> result is Ok,
            result is Ok ==> tokens_of(*final(tokens)) == tokens_of(*old(tokens))
                + self.module_tokens(call_site),
            result matches Err(reason) ==> self.is_first_obstacle(reason) && *final(tokens)
                == *old(tokens),
    {
        match self.check_supported() {
            Ok(()) => {
                self.to_tokens_at(call_site, tokens);
                Ok(())
            },
            Err(reason) => Err(reason),
        }
    }

    /// Adds the tokens of the module to `tokens` if it is supported, with what is not carried
    /// over from a part of it at the call of the macro that is being expanded. Leaves `tokens` as
    /// it is otherwise.
    pub fn try_to_tokens(&self, tokens: &mut TokenStream) -> (result: Result<
        (),
        UnsupportedModule,
    >)
        ensures
            self.is_supported() <==> result is Ok,
            result is Ok ==> exists|span: Span|
                call_ensures(Span::call_site, (), span) && tokens_of(*final(tokens)) == tokens_of(
                    *old(tokens),
                ) + #[trigger] self.module_tokens(span),
            result matches Err(reason) ==> self.is_first_obstacle(reason) && *final(tokens)
                == *old(tokens),
    {
        match self.check_supported() {
            Ok(()) => {
                self.to_tokens(tokens);
                Ok(())
            },
            Err(reason) => Err(reason),
        }
    }
}

} // verus!
