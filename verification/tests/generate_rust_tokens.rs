//! The tokens of whole modules, for functions and types of either language.

use proc_macro2::{Span, TokenStream};

use swift_bridge_ir::module::{
    HostLang, Name, OpaqueForeignTypeDeclaration, ParsedExternFn, SwiftBridgeModule,
    TypeDeclaration,
};

/// Reads a text as tokens.
fn tokens(text: &str) -> TokenStream {
    text.parse().unwrap()
}

/// A module named `foo`.
fn foo(types: Vec<TypeDeclaration>, functions: Vec<ParsedExternFn>) -> SwiftBridgeModule {
    SwiftBridgeModule {
        name: tokens("foo"),
        types,
        functions,
        swift_bridge_path: tokens("swift_bridge"),
        cfg_attrs: vec![],
    }
}

fn opaque(name: &str, host_lang: HostLang) -> TypeDeclaration {
    TypeDeclaration::Opaque(OpaqueForeignTypeDeclaration {
        ty: Name { text: name.to_string(), span: Span::call_site() },
        host_lang,
        already_declared: false,
        copy: None,
        vec_functions: tokens("const VEC_FUNCTIONS: () = ();"),
    })
}

fn rust_type(name: &str) -> TypeDeclaration {
    opaque(name, HostLang::Rust)
}

fn swift_type(name: &str) -> TypeDeclaration {
    opaque(name, HostLang::Swift)
}

/// A Rust function, by the function that is exported for it.
fn rust_fn(exported: &str) -> ParsedExternFn {
    ParsedExternFn {
        host_lang: HostLang::Rust,
        associated_type: None,
        extern_c_function: tokens(exported),
        rust_fn_that_calls_swift: TokenStream::new(),
    }
}

/// A Rust method, by the function that is exported for it.
fn rust_method(ty: &str, exported: &str) -> ParsedExternFn {
    ParsedExternFn { associated_type: Some(rust_type(ty)), ..rust_fn(exported) }
}

/// A Swift function, by the Rust function that calls it and its declaration.
fn swift_fn(caller: &str, declaration: &str) -> ParsedExternFn {
    ParsedExternFn {
        host_lang: HostLang::Swift,
        associated_type: None,
        extern_c_function: tokens(declaration),
        rust_fn_that_calls_swift: tokens(caller),
    }
}

/// A Swift method, by the Rust method that calls it and its declaration.
fn swift_method(ty: &str, caller: &str, declaration: &str) -> ParsedExternFn {
    ParsedExternFn { associated_type: Some(swift_type(ty)), ..swift_fn(caller, declaration) }
}

fn to_token_stream(module: &SwiftBridgeModule) -> TokenStream {
    let mut out = TokenStream::new();
    assert!(module.try_to_tokens(&mut out).is_ok());
    out
}

fn assert_tokens_eq(module: &SwiftBridgeModule, expected: &str) {
    assert_eq!(to_token_stream(module).to_string(), tokens(expected).to_string());
}

fn assert_tokens_contain(module: &SwiftBridgeModule, expected: &str) {
    let all = to_token_stream(module).to_string();
    let part = tokens(expected).to_string();
    assert!(all.contains(&part), "{}\ndoes not contain\n{}", all, part);
}

/// The module is that of one exported function and of the Rust type that it belongs to.
fn assert_exports_for_type(module: &SwiftBridgeModule, ty: &str, exported: &str) {
    assert_tokens_contain(module, exported);
    assert_tokens_eq(
        module,
        &format!(
            r#"
            #[allow(non_snake_case)]
            mod foo {{
                {exported}

                #[export_name = "__swift_bridge__${ty}$_free"]
                pub extern "C" fn __swift_bridge__{ty}__free (this: *mut super::{ty}) {{
                    let this = unsafe {{ Box::from_raw(this) }};
                    drop(this);
                }}

                const VEC_FUNCTIONS: () = ();
            }}
            "#
        ),
    );
}

#[test]
fn freestanding_rust_function_no_args() {
    let exported = r#"
        #[export_name = "__swift_bridge__$some_function"]
        pub extern "C" fn __swift_bridge__some_function () {
            super::some_function()
        }
    "#;
    assert_tokens_eq(
        &foo(vec![], vec![rust_fn(exported)]),
        r#"
        #[allow(non_snake_case)]
        mod foo {
            #[export_name = "__swift_bridge__$some_function"]
            pub extern "C" fn __swift_bridge__some_function () {
                super::some_function()
            }
        }
        "#,
    );
}

#[test]
fn freestanding_swift_function_no_args() {
    let function = swift_fn(
        "pub fn some_function() { unsafe { __swift_bridge__some_function() } }",
        r#"#[link_name = "__swift_bridge__$some_function"] fn __swift_bridge__some_function ();"#,
    );
    assert_tokens_eq(
        &foo(vec![], vec![function]),
        r#"
        #[allow(non_snake_case)]
        mod foo {
            pub fn some_function() {
                unsafe { __swift_bridge__some_function() }
            }

            extern "C" {
                #[link_name = "__swift_bridge__$some_function"]
                fn __swift_bridge__some_function ();
            }
        }
        "#,
    );
}

#[test]
fn freestanding_swift_function_one_arg() {
    let function = swift_fn(
        "pub fn some_function(start: bool) { unsafe { __swift_bridge__some_function(start) } }",
        r#"
        #[link_name = "__swift_bridge__$some_function"]
        fn __swift_bridge__some_function (start: bool);
        "#,
    );
    assert_tokens_eq(
        &foo(vec![], vec![function]),
        r#"
        #[allow(non_snake_case)]
        mod foo {
            pub fn some_function(start: bool) {
                unsafe { __swift_bridge__some_function(start) }
            }

            extern "C" {
                #[link_name = "__swift_bridge__$some_function"]
                fn __swift_bridge__some_function (start: bool);
            }
        }
        "#,
    );
}

#[test]
fn freestanding_rust_one_arg() {
    let exported = r#"
        #[export_name = "__swift_bridge__$some_function"]
        pub extern "C" fn __swift_bridge__some_function (bar: u8) {
            super::some_function(bar)
        }
    "#;
    assert_tokens_eq(
        &foo(vec![], vec![rust_fn(exported)]),
        r#"
        #[allow(non_snake_case)]
        mod foo {
            #[export_name = "__swift_bridge__$some_function"]
            pub extern "C" fn __swift_bridge__some_function (bar: u8) {
                super::some_function(bar)
            }
        }
        "#,
    );
}

#[test]
fn freestanding_rust_func_with_declared_swift_type_arg() {
    let exported = r#"
        #[export_name = "__swift_bridge__$some_function"]
        pub extern "C" fn __swift_bridge__some_function (
            bar: MyType
        ) {
            super::some_function(
                bar
            )
        }
    "#;
    assert_tokens_contain(&foo(vec![swift_type("MyType")], vec![rust_fn(exported)]), exported);
}

#[test]
fn freestanding_rust_func_returns_opaque_swift_type() {
    let exported = r#"
        #[export_name = "__swift_bridge__$some_function"]
        pub extern "C" fn __swift_bridge__some_function () -> MyType {
            super::some_function()
        }
    "#;
    assert_tokens_contain(&foo(vec![swift_type("MyType")], vec![rust_fn(exported)]), exported);
}

#[test]
fn freestanding_rust_with_built_in_return_type() {
    let exported = r#"
        #[export_name = "__swift_bridge__$some_function"]
        pub extern "C" fn __swift_bridge__some_function () -> u8 {
            super::some_function()
        }
    "#;
    assert_tokens_eq(
        &foo(vec![], vec![rust_fn(exported)]),
        r#"
        #[allow(non_snake_case)]
        mod foo {
            #[export_name = "__swift_bridge__$some_function"]
            pub extern "C" fn __swift_bridge__some_function () -> u8 {
                super::some_function()
            }
        }
        "#,
    );
}

#[test]
fn extern_rust_freestanding_function_rust_name() {
    let exported = r#"
        #[export_name = "__swift_bridge__$some_function"]
        pub extern "C" fn __swift_bridge__some_function () -> *mut super::Foo {
            Box::into_raw(Box::new(super::another_function())) as *mut super::Foo
        }
    "#;
    assert_exports_for_type(
        &foo(vec![rust_type("Foo")], vec![rust_fn(exported)]),
        "Foo",
        exported,
    );
}

#[test]
fn extern_rust_into_return_type() {
    let exported = r#"
        #[export_name = "__swift_bridge__$some_function"]
        pub extern "C" fn __swift_bridge__some_function () -> *mut super::Foo {
            Box::into_raw(Box::new(super::some_function().into())) as *mut super::Foo
        }
    "#;
    assert_exports_for_type(
        &foo(vec![rust_type("Foo")], vec![rust_fn(exported)]),
        "Foo",
        exported,
    );
}

#[test]
fn associated_fn_return_reference_to_bridged_type() {
    let exported = r#"
        #[export_name = "__swift_bridge__$some_function"]
        pub extern "C" fn __swift_bridge__some_function () -> *const super::Foo {
            super::some_function() as *const super::Foo
        }
    "#;
    assert_exports_for_type(
        &foo(vec![rust_type("Foo")], vec![rust_fn(exported)]),
        "Foo",
        exported,
    );
}

#[test]
fn method_return_reference_to_bridged_type() {
    let exported = r#"
        #[export_name = "__swift_bridge__$Foo$some_function"]
        pub extern "C" fn __swift_bridge__Foo_some_function (
            this: *mut super::Foo
        ) -> *mut super::Foo {
            (unsafe { &mut * this }).some_function() as *mut super::Foo
        }
    "#;
    assert_exports_for_type(
        &foo(vec![rust_type("Foo")], vec![rust_method("Foo", exported)]),
        "Foo",
        exported,
    );
}

#[test]
fn generates_struct_for_swift_type() {
    assert_tokens_contain(
        &foo(vec![swift_type("Foo")], vec![]),
        r#"
        #[repr(C)]
        pub struct Foo(*mut std::ffi::c_void);

        impl Drop for Foo {
            fn drop (&mut self) {
                unsafe { __swift_bridge__Foo__free(self.0) }
            }
        }

        extern "C" {
            #[link_name = "__swift_bridge__$Foo$_free"]
            fn __swift_bridge__Foo__free (this: *mut std::ffi::c_void);
        }
        "#,
    );
}

#[test]
fn associated_rust_static_method_no_args() {
    let exported = r#"
        #[export_name = "__swift_bridge__$SomeType$new"]
        pub extern "C" fn __swift_bridge__SomeType_new () -> *mut super::SomeType {
            Box::into_raw(Box::new(super::SomeType::new())) as *mut super::SomeType
        }
    "#;
    assert_exports_for_type(
        &foo(vec![rust_type("SomeType")], vec![rust_method("SomeType", exported)]),
        "SomeType",
        exported,
    );
}

#[test]
fn swift_class_method_no_args() {
    let new = swift_method(
        "Foo",
        "pub fn new () -> Foo { unsafe{ __swift_bridge__Foo_new() } }",
        r#"#[link_name = "__swift_bridge__$Foo$new"] fn __swift_bridge__Foo_new() -> Foo;"#,
    );
    assert_tokens_contain(
        &foo(vec![swift_type("Foo")], vec![new]),
        r#"
        #[repr(C)]
        pub struct Foo(*mut std::ffi::c_void);

        impl Foo {
            pub fn new () -> Foo {
                unsafe{ __swift_bridge__Foo_new() }
            }
        }

        impl Drop for Foo {
            fn drop (&mut self) {
                unsafe { __swift_bridge__Foo__free(self.0) }
            }
        }

        extern "C" {
            #[link_name = "__swift_bridge__$Foo$new"]
            fn __swift_bridge__Foo_new() -> Foo;

            #[link_name = "__swift_bridge__$Foo$_free"]
            fn __swift_bridge__Foo__free (this: *mut std::ffi::c_void);
        }
        "#,
    );
}

#[test]
fn associated_rust_static_method_one_arg() {
    let exported = r#"
        #[export_name = "__swift_bridge__$SomeType$new"]
        pub extern "C" fn __swift_bridge__SomeType_new (foo: u8) -> u8 {
            super::SomeType::new(foo)
        }
    "#;
    assert_exports_for_type(
        &foo(vec![rust_type("SomeType")], vec![rust_method("SomeType", exported)]),
        "SomeType",
        exported,
    );
}

#[test]
fn associated_static_method_no_return_type() {
    let exported = r#"
        #[export_name = "__swift_bridge__$SomeType$new"]
        pub extern "C" fn __swift_bridge__SomeType_new ()  {
             super::SomeType::new()
        }
    "#;
    assert_exports_for_type(
        &foo(vec![rust_type("SomeType")], vec![rust_method("SomeType", exported)]),
        "SomeType",
        exported,
    );
}

#[test]
fn associated_rust_method_no_args() {
    let exported = r#"
        #[export_name = "__swift_bridge__$MyType$increment"]
        pub extern "C" fn __swift_bridge__MyType_increment (
            this: *mut super::MyType
        ) {
            (unsafe { &mut *this }).increment()
        }
    "#;
    assert_exports_for_type(
        &foo(vec![rust_type("MyType")], vec![rust_method("MyType", exported)]),
        "MyType",
        exported,
    );
}

#[test]
fn swift_instance_methods() {
    let notify = swift_method(
        "Foo",
        r#"
        pub fn notify (&self) {
            unsafe { __swift_bridge__Foo_notify(swift_bridge::PointerToSwiftType(self.0)) }
        }
        "#,
        r#"
        #[link_name = "__swift_bridge__$Foo$notify"]
        fn __swift_bridge__Foo_notify(this: swift_bridge::PointerToSwiftType);
        "#,
    );
    let message = swift_method(
        "Foo",
        r#"
        pub fn message (&self) {
            unsafe { __swift_bridge__Foo_message(swift_bridge::PointerToSwiftType(self.0)) }
        }
        "#,
        r#"
        #[link_name = "__swift_bridge__$Foo$message"]
        fn __swift_bridge__Foo_message(this: swift_bridge::PointerToSwiftType);
        "#,
    );
    let call = swift_method(
        "Foo",
        r#"
        pub fn call (&mut self, volume: u8) {
            unsafe { __swift_bridge__Foo_call(swift_bridge::PointerToSwiftType(self.0), volume) }
        }
        "#,
        r#"
        #[link_name = "__swift_bridge__$Foo$call"]
        fn __swift_bridge__Foo_call(this: swift_bridge::PointerToSwiftType, volume: u8);
        "#,
    );
    assert_tokens_contain(
        &foo(vec![swift_type("Foo")], vec![notify, message, call]),
        r#"
        #[repr(C)]
        pub struct Foo(*mut std::ffi::c_void);

        impl Foo {
            pub fn notify (&self) {
                unsafe { __swift_bridge__Foo_notify(swift_bridge::PointerToSwiftType(self.0)) }
            }

            pub fn message (&self) {
                unsafe { __swift_bridge__Foo_message(swift_bridge::PointerToSwiftType(self.0)) }
            }

            pub fn call (&mut self, volume: u8) {
                unsafe {
                    __swift_bridge__Foo_call(swift_bridge::PointerToSwiftType(self.0), volume)
                }
            }
        }

        impl Drop for Foo {
            fn drop (&mut self) {
                unsafe { __swift_bridge__Foo__free(self.0) }
            }
        }

        extern "C" {
            #[link_name = "__swift_bridge__$Foo$notify"]
            fn __swift_bridge__Foo_notify(this: swift_bridge::PointerToSwiftType);

            #[link_name = "__swift_bridge__$Foo$message"]
            fn __swift_bridge__Foo_message(this: swift_bridge::PointerToSwiftType);

            #[link_name = "__swift_bridge__$Foo$call"]
            fn __swift_bridge__Foo_call(this: swift_bridge::PointerToSwiftType, volume: u8);

            #[link_name = "__swift_bridge__$Foo$_free"]
            fn __swift_bridge__Foo__free (this: *mut std::ffi::c_void);
        }
        "#,
    );
}

#[test]
fn rust_associated_method_one_args() {
    let exported = r#"
        #[export_name = "__swift_bridge__$SomeType$message"]
        pub extern "C" fn __swift_bridge__SomeType_message (
            this: *mut super::SomeType,
            val: u8
        ) {
            (unsafe { &*this }).message(val)
        }
    "#;
    assert_exports_for_type(
        &foo(vec![rust_type("SomeType")], vec![rust_method("SomeType", exported)]),
        "SomeType",
        exported,
    );
}

#[test]
fn extern_rust_void_pointers() {
    let exported = r#"
        #[export_name = "__swift_bridge__$void_pointers"]
        pub extern "C" fn __swift_bridge__void_pointers (
            arg1: *const super::c_void,
            arg2: *mut super::c_void
        ) -> *const super::c_void {
            super::void_pointers(arg1, arg2)
        }
    "#;
    assert_tokens_eq(
        &foo(vec![], vec![rust_fn(exported)]),
        &format!("#[allow(non_snake_case)] mod foo {{ {} }}", exported),
    );
}

#[test]
fn extern_swift_built_in_pointers() {
    let function = swift_fn(
        r#"
        pub fn built_in_pointers (arg1: *const u8, arg2: *mut i16) -> *const u32 {
            unsafe { __swift_bridge__built_in_pointers(arg1, arg2) }
        }
        "#,
        r#"
        #[link_name = "__swift_bridge__$built_in_pointers"]
        fn __swift_bridge__built_in_pointers (
            arg1: *const u8,
            arg2: *mut i16
        ) -> *const u32;
        "#,
    );
    assert_tokens_contain(
        &foo(vec![], vec![function]),
        r#"
        pub fn built_in_pointers (arg1: *const u8, arg2: *mut i16) -> *const u32 {
            unsafe { __swift_bridge__built_in_pointers(arg1, arg2) }
        }

        extern "C" {
            #[link_name = "__swift_bridge__$built_in_pointers"]
            fn __swift_bridge__built_in_pointers (
                arg1: *const u8,
                arg2: *mut i16
            ) -> *const u32;
        }
        "#,
    );
}

#[test]
fn extern_swift_void_pointers() {
    let function = swift_fn(
        r#"
        pub fn void_pointers (
            arg1: *const super::c_void,
            arg2: *mut super::c_void
        ) -> *const super::c_void {
            unsafe { __swift_bridge__void_pointers(arg1, arg2) }
        }
        "#,
        r#"
        #[link_name = "__swift_bridge__$void_pointers"]
        fn __swift_bridge__void_pointers (
            arg1: *const super::c_void,
            arg2: *mut super::c_void
        ) -> *const super::c_void;
        "#,
    );
    assert_tokens_contain(
        &foo(vec![], vec![function]),
        r#"
        pub fn void_pointers (
            arg1: *const super::c_void,
            arg2: *mut super::c_void
        ) -> *const super::c_void {
            unsafe { __swift_bridge__void_pointers(arg1, arg2) }
        }

        extern "C" {
            #[link_name = "__swift_bridge__$void_pointers"]
            fn __swift_bridge__void_pointers (
                arg1: *const super::c_void,
                arg2: *mut super::c_void
            ) -> *const super::c_void;
        }
        "#,
    );
}

#[test]
fn associated_method_drops_owned_self() {
    let exported = r#"
        #[export_name = "__swift_bridge__$SomeType$consume"]
        pub extern "C" fn __swift_bridge__SomeType_consume (
            this: *mut super::SomeType
        ) {
            (* unsafe { Box::from_raw(this) }).consume()
        }
    "#;
    assert_exports_for_type(
        &foo(vec![rust_type("SomeType")], vec![rust_method("SomeType", exported)]),
        "SomeType",
        exported,
    );
}
