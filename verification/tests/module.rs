//! Modules in all their variety: types of every kind, conditions, order, and what is refused.

use proc_macro2::{Span, TokenStream};

use swift_bridge_ir::codegen::UnsupportedModule;
use swift_bridge_ir::module::{
    CfgAttr, HostLang, Name, OpaqueCopyTypeAttr, OpaqueForeignTypeDeclaration, ParsedExternFn,
    SharedEnum, SharedStruct, SharedTypeDeclaration, SwiftBridgeModule, TypeDeclaration,
};

fn tokens(text: &str) -> TokenStream {
    text.parse().unwrap()
}

fn module(types: Vec<TypeDeclaration>, functions: Vec<ParsedExternFn>) -> SwiftBridgeModule {
    SwiftBridgeModule {
        name: tokens("ffi"),
        types,
        functions,
        swift_bridge_path: tokens("my::swift_bridge"),
        cfg_attrs: vec![],
    }
}

fn opaque(name: &str, host_lang: HostLang) -> OpaqueForeignTypeDeclaration {
    OpaqueForeignTypeDeclaration {
        ty: Name { text: name.to_string(), span: Span::call_site() },
        host_lang,
        already_declared: false,
        copy: None,
        vec_functions: tokens("mod vec_functions {}"),
    }
}

fn shared_struct(definition: Option<&str>) -> TypeDeclaration {
    TypeDeclaration::Shared(SharedTypeDeclaration::Struct(SharedStruct {
        definition: definition.map(tokens),
    }))
}

fn shared_enum(definition: Option<&str>) -> TypeDeclaration {
    TypeDeclaration::Shared(SharedTypeDeclaration::Enum(SharedEnum {
        definition: definition.map(tokens),
    }))
}

fn function(
    host_lang: HostLang,
    associated_type: Option<TypeDeclaration>,
    extern_c_function: &str,
    rust_fn_that_calls_swift: &str,
) -> ParsedExternFn {
    ParsedExternFn {
        host_lang,
        associated_type,
        extern_c_function: tokens(extern_c_function),
        rust_fn_that_calls_swift: tokens(rust_fn_that_calls_swift),
    }
}

fn rust_class(name: &str) -> TypeDeclaration {
    TypeDeclaration::Opaque(opaque(name, HostLang::Rust))
}

fn swift_class(name: &str) -> TypeDeclaration {
    TypeDeclaration::Opaque(opaque(name, HostLang::Swift))
}

fn written(module: &SwiftBridgeModule) -> String {
    let mut out = TokenStream::new();
    assert_eq!(module.try_to_tokens(&mut out), Ok(()));
    out.to_string()
}

fn expect(module: &SwiftBridgeModule, expected: &str) {
    assert_eq!(written(module), tokens(expected).to_string());
}

fn refused(module: &SwiftBridgeModule) -> UnsupportedModule {
    let mut out = tokens("earlier tokens");
    let reason = module.try_to_tokens(&mut out).unwrap_err();
    assert_eq!(out.to_string(), "earlier tokens");
    assert_eq!(module.try_to_tokens_at(Span::call_site(), &mut out), Err(reason));
    assert_eq!(out.to_string(), "earlier tokens");
    assert_eq!(module.check_supported(), Err(reason));
    reason
}

#[test]
fn empty_module() {
    expect(&module(vec![], vec![]), "#[allow(non_snake_case)] mod ffi {}");
}

#[test]
fn raw_module_name() {
    let mut m = module(vec![], vec![]);
    m.name = tokens("r#type");
    expect(&m, "#[allow(non_snake_case)] mod r#type {}");
}

#[test]
fn tokens_are_added_behind_those_that_are_there() {
    let m = module(vec![], vec![]);
    let mut out = tokens("struct Before;");
    m.to_tokens(&mut out);
    m.to_tokens_at(Span::call_site(), &mut out);
    assert_eq!(
        out.to_string(),
        tokens(
            "struct Before; #[allow(non_snake_case)] mod ffi {} #[allow(non_snake_case)] mod ffi {}"
        )
        .to_string()
    );
}

#[test]
fn conditions_stand_between_the_allowance_and_the_module() {
    let mut m = module(vec![], vec![]);
    m.cfg_attrs = vec![
        CfgAttr::Feature(tokens("\"alpha\"")),
        CfgAttr::Feature(tokens("\"beta\"")),
    ];
    expect(
        &m,
        r#"
        #[allow(non_snake_case)]
        #[cfg(feature = "alpha")]
        #[cfg(feature = "beta")]
        mod ffi {}
        "#,
    );
}

#[test]
fn copy_type_is_checked_and_carried_by_its_bytes() {
    let mut point = opaque("Point", HostLang::Rust);
    point.copy = Some(OpaqueCopyTypeAttr { size_bytes: 16 });
    let expected = r#"
        #[allow(non_snake_case)]
        mod ffi {
            const _: () = {
                let _: [u8; std::mem::size_of:: < super::Point>()] = [0; 16usize];
                fn _assert_copy() {
                    my::swift_bridge::assert_copy:: < super::Point>();
                }
            };

            #[repr(C)]
            #[doc(hidden)]
            pub struct __swift_bridge__Point([u8; 16usize]);
            impl __swift_bridge__Point {
                #[inline(always)]
                fn into_rust_repr(self) -> super::Point {
                    unsafe { std::mem::transmute(self) }
                }
                #[inline(always)]
                fn from_rust_repr(repr: super::Point) -> Self {
                    unsafe { std::mem::transmute(repr) }
                }
            }
        }
    "#;
    expect(&module(vec![TypeDeclaration::Opaque(point)], vec![]), expected);

    let mut declared = opaque("Point", HostLang::Rust);
    declared.copy = Some(OpaqueCopyTypeAttr { size_bytes: 16 });
    declared.already_declared = true;
    expect(&module(vec![TypeDeclaration::Opaque(declared)], vec![]), expected);
}

#[test]
fn type_of_another_module_gets_no_items() {
    let mut ty = opaque("Elsewhere", HostLang::Rust);
    ty.already_declared = true;
    expect(
        &module(vec![TypeDeclaration::Opaque(ty)], vec![]),
        "#[allow(non_snake_case)] mod ffi {}",
    );
}

#[test]
fn module_is_the_same_without_a_type_of_another_module() {
    let mut ty = opaque("Elsewhere", HostLang::Rust);
    ty.already_declared = true;
    let types = vec![rust_class("Stack"), TypeDeclaration::Opaque(ty), swift_class("Player")];
    assert_eq!(
        written(&module(types, vec![])),
        written(&module(vec![rust_class("Stack"), swift_class("Player")], vec![])),
    );
}

#[test]
fn types_keep_their_order() {
    let m = module(
        vec![
            swift_class("Zoo"),
            rust_class("Yak"),
            shared_enum(Some("enum X {}")),
            shared_struct(Some("struct W;")),
            swift_class("Ape"),
            rust_class("Bee"),
            shared_enum(Some("enum C {}")),
            shared_struct(Some("struct D;")),
        ],
        vec![],
    );
    let text = written(&m);
    let order = [
        "struct W",
        "struct D",
        "enum X",
        "enum C",
        "fn __swift_bridge__Yak__free",
        "fn __swift_bridge__Bee__free",
        "pub struct Zoo",
        "pub struct Ape",
        "fn __swift_bridge__Zoo__free",
        "fn __swift_bridge__Ape__free",
    ];
    let places: Vec<usize> = order.iter().map(|part| text.find(part).unwrap()).collect();
    assert!(places.windows(2).all(|pair| pair[0] < pair[1]), "{:?} in {}", places, text);
}

#[test]
fn opaque_rust_type_is_released_and_handled_in_vectors() {
    expect(
        &module(vec![rust_class("Stack")], vec![]),
        r#"
        #[allow(non_snake_case)]
        mod ffi {
            #[export_name = "__swift_bridge__$Stack$_free"]
            pub extern "C" fn __swift_bridge__Stack__free(this: *mut super::Stack) {
                let this = unsafe { Box::from_raw(this) };
                drop(this);
            }
            mod vec_functions {}
        }
        "#,
    );
}

#[test]
fn names_may_hold_any_letters() {
    expect(
        &module(vec![rust_class("Größe")], vec![]),
        r#"
        #[allow(non_snake_case)]
        mod ffi {
            #[export_name = "__swift_bridge__$Größe$_free"]
            pub extern "C" fn __swift_bridge__Größe__free(this: *mut super::Größe) {
                let this = unsafe { Box::from_raw(this) };
                drop(this);
            }
            mod vec_functions {}
        }
        "#,
    );
}

#[test]
fn already_declared_swift_class_is_still_wrapped() {
    let first = written(&module(vec![swift_class("Player")], vec![]));
    let mut ty = opaque("Player", HostLang::Swift);
    ty.already_declared = true;
    assert_eq!(written(&module(vec![TypeDeclaration::Opaque(ty)], vec![])), first);
}

#[test]
fn sections_come_in_a_fixed_order() {
    let types = vec![
        swift_class("Player"),
        rust_class("Stack"),
        shared_enum(Some("enum Color {}")),
        shared_struct(Some("struct First;")),
        shared_enum(None),
        shared_struct(None),
        shared_struct(Some("struct Second;")),
    ];
    let functions = vec![
        function(HostLang::Swift, Some(swift_class("Player")), "fn extern_play();", "fn play() {}"),
        function(HostLang::Swift, None, "fn extern_free();", "fn free() {}"),
        function(HostLang::Rust, None, "fn exported_one() {}", "fn never() {}"),
        function(HostLang::Swift, Some(swift_class("Player")), "fn extern_stop();", "fn stop() {}"),
        function(HostLang::Rust, Some(rust_class("Stack")), "fn exported_two() {}", ""),
    ];
    expect(
        &module(types, functions),
        r#"
        #[allow(non_snake_case)]
        mod ffi {
            struct First;
            struct Second;
            enum Color {}
            fn exported_one() {}
            fn exported_two() {}
            #[export_name = "__swift_bridge__$Stack$_free"]
            pub extern "C" fn __swift_bridge__Stack__free(this: *mut super::Stack) {
                let this = unsafe { Box::from_raw(this) };
                drop(this);
            }
            mod vec_functions {}
            fn free() {}
            #[repr(C)]
            pub struct Player(*mut std::ffi::c_void);
            impl Player {
                fn play() {}
                fn stop() {}
            }
            impl Drop for Player {
                fn drop(&mut self) {
                    unsafe { __swift_bridge__Player__free(self.0) }
                }
            }
            extern "C" {
                fn extern_play();
                fn extern_free();
                fn extern_stop();
                #[link_name = "__swift_bridge__$Player$_free"]
                fn __swift_bridge__Player__free(this: *mut std::ffi::c_void);
            }
        }
        "#,
    );
}

#[test]
fn methods_go_to_the_class_of_their_name() {
    let types = || vec![swift_class("A"), swift_class("B"), swift_class("C")];
    let method = |ty: &str, name: &str| {
        function(HostLang::Swift, Some(swift_class(ty)), "", &format!("fn {}() {{}}", name))
    };
    let m = module(types(), vec![method("B", "b1"), method("A", "a"), method("B", "b2")]);
    let all = written(&m);
    assert!(all.contains("impl A { fn a () { } }"));
    assert!(all.contains("impl B { fn b1 () { } fn b2 () { } }"));
    assert!(!all.contains("impl C"));
}

#[test]
fn empty_method_still_makes_a_method_impl() {
    let quiet = function(HostLang::Swift, Some(swift_class("A")), "", "");
    assert!(written(&module(vec![swift_class("A")], vec![quiet])).contains("impl A { } impl Drop"));
    assert!(!written(&module(vec![swift_class("A")], vec![])).contains("impl A"));
}

#[test]
fn swift_function_without_tokens_still_makes_a_foreign_block() {
    let quiet = function(HostLang::Swift, None, "", "");
    expect(
        &module(vec![], vec![quiet]),
        "#[allow(non_snake_case)] mod ffi { extern \"C\" {} }",
    );
}

#[test]
fn caller_of_a_method_of_an_undeclared_class_is_left_out() {
    let orphan = |caller: &str| {
        function(HostLang::Swift, Some(swift_class("Gone")), "fn extern_orphan();", caller)
    };
    let here = written(&module(vec![rust_class("Gone")], vec![orphan("fn orphan() {}")]));
    let other = written(&module(vec![rust_class("Gone")], vec![orphan("fn other() {}")]));
    assert_eq!(here, other);
    assert!(!here.contains("fn orphan"));
    assert!(here.contains("extern \"C\" { fn extern_orphan () ; }"));
}

#[test]
fn languages_may_be_interleaved_in_any_way() {
    let rust = |name: &str| function(HostLang::Rust, None, &format!("fn {}() {{}}", name), "");
    let swift = |name: &str| {
        function(
            HostLang::Swift,
            None,
            &format!("fn extern_{}();", name),
            &format!("fn {}() {{}}", name),
        )
    };
    assert_eq!(
        written(&module(vec![], vec![rust("a"), swift("b"), rust("c"), swift("d")])),
        written(&module(vec![], vec![swift("b"), swift("d"), rust("a"), rust("c")])),
    );
    assert_ne!(
        written(&module(vec![], vec![rust("a"), rust("c")])),
        written(&module(vec![], vec![rust("c"), rust("a")])),
    );
}

#[test]
fn both_sides_release_under_the_same_symbol() {
    let rust = written(&module(vec![rust_class("Thing")], vec![]));
    let swift = written(&module(vec![swift_class("Thing")], vec![]));
    assert!(rust.contains("# [export_name = \"__swift_bridge__$Thing$_free\"]"));
    assert!(swift.contains("# [link_name = \"__swift_bridge__$Thing$_free\"]"));
    assert!(rust.contains("fn __swift_bridge__Thing__free"));
    assert!(swift.contains("fn __swift_bridge__Thing__free"));
}

#[test]
fn swift_method_of_a_shared_type_is_refused() {
    let fine = function(HostLang::Swift, None, "", "");
    let shared = function(HostLang::Swift, Some(shared_struct(None)), "", "");
    let another = function(HostLang::Swift, Some(shared_enum(None)), "", "");
    let m = module(vec![rust_class("not a name")], vec![fine, shared, another]);
    assert_eq!(refused(&m), UnsupportedModule::SharedTypeMethod { function: 1 });
}

#[test]
fn rust_method_of_a_shared_type_is_fine() {
    let shared = function(HostLang::Rust, Some(shared_struct(None)), "fn exported() {}", "");
    expect(
        &module(vec![], vec![shared]),
        "#[allow(non_snake_case)] mod ffi { fn exported() {} }",
    );
}

#[test]
fn name_that_is_no_identifier_is_refused() {
    for name in ["", "r#type", "1st", "a-b", "a b", "$x", "é!", "\u{301}a"] {
        let m = module(
            vec![shared_struct(None), rust_class("Fine"), swift_class(name), rust_class("")],
            vec![],
        );
        assert_eq!(refused(&m), UnsupportedModule::TypeName { ty: 2 }, "{:?}", name);
    }
}
