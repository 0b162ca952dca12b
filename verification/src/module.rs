//! The parts of a bridge module.

use vstd::prelude::*;

use proc_macro2::{Span, TokenStream};

verus! {

/// The language that a function or a type lives in.
#[derive(Clone, Copy, PartialEq, Eq, Debug, Structural)]
pub enum HostLang {
    Rust,
    Swift,
}

/// An identifier and the place where it stands.
pub struct Name {
    /// The identifier as it is written.
    pub text: String,
    /// Where it stands.
    pub span: Span,
}

/// What is declared of an opaque type that is `Copy`.
#[derive(Clone, Copy, PartialEq, Eq, Debug, Structural)]
pub struct OpaqueCopyTypeAttr {
    /// The number of bytes of a value.
    pub size_bytes: usize,
}

/// A type whose values cross the bridge without their contents being known on the other side.
pub struct OpaqueForeignTypeDeclaration {
    /// The name of the type.
    pub ty: Name,
    /// Where the type is defined.
    pub host_lang: HostLang,
    /// Whether another bridge module already carries the type's items.
    pub already_declared: bool,
    /// The declared size, for a type that is `Copy`.
    pub copy: Option<OpaqueCopyTypeAttr>,
    /// The functions by which Swift handles a vector of values of a Rust type.
    pub vec_functions: TokenStream,
}

/// A struct with the same fields on both sides.
pub struct SharedStruct {
    /// The items that define the struct, unless they stand elsewhere.
    pub definition: Option<TokenStream>,
}

/// An enum with the same variants on both sides.
pub struct SharedEnum {
    /// The items that define the enum, unless they stand elsewhere.
    pub definition: Option<TokenStream>,
}

/// A type whose values have the same contents on both sides.
pub enum SharedTypeDeclaration {
    Struct(SharedStruct),
    Enum(SharedEnum),
}

/// A type of a bridge module.
pub enum TypeDeclaration {
    Shared(SharedTypeDeclaration),
    Opaque(OpaqueForeignTypeDeclaration),
}

/// A function of a bridge module.
pub struct ParsedExternFn {
    /// Where the function is defined.
    pub host_lang: HostLang,
    /// The type that the function is a method or an associated function of.
    pub associated_type: Option<TypeDeclaration>,
    /// The function as C sees it: an exported definition for a Rust function, a declaration for
    /// a Swift function.
    pub extern_c_function: TokenStream,
    /// The Rust function that calls a Swift function.
    pub rust_fn_that_calls_swift: TokenStream,
}

/// A condition under which a bridge module is compiled.
pub enum CfgAttr {
    /// The feature of that name is on.
    Feature(TokenStream),
}

/// A module that bridges Rust and Swift.
pub struct SwiftBridgeModule {
    /// The name of the module.
    pub name: TokenStream,
    /// The types, in the order of their declaration.
    pub types: Vec<TypeDeclaration>,
    /// The functions, in the order of their declaration.
    pub functions: Vec<ParsedExternFn>,
    /// The path of the crate that supports bridge modules at run time.
    pub swift_bridge_path: TokenStream,
    /// The conditions under which the module is compiled.
    pub cfg_attrs: Vec<CfgAttr>,
}

} // verus!
