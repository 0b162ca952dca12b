# swift_bridge_ir

The Rust side of modules that bridge Rust and Swift, as a verified library. Given the parts of a
bridge module, `SwiftBridgeModule::to_tokens` writes one `mod` item that

- defines the shared structs and enums,
- exports the Rust functions and the functions that release opaque Rust values,
- carries `Copy` types across by their bytes, after checking their size,
- wraps every Swift class in a Rust struct that releases it when it is dropped,
- declares in one `extern "C"` block what Swift exports.

The contract of `to_tokens_at` fixes every token of that item, with its span. `try_to_tokens`
takes any module and says what stands in the way where no tokens can be made of it.

## Layout

- `src/token.rs`: token streams of `proc_macro2`, and the tokens that they hold
- `src/ident.rs`: which texts are identifiers
- `src/names.rs`: the names that belong to an opaque type
- `src/module.rs`: the parts of a bridge module
- `src/items.rs`: the items that a module is made of
- `src/codegen.rs`: the tokens of a whole module
- `src/laws.rs`: what holds of the tokens of every module
- `app/`: a bridge module as a value that `quote` can interpolate

## What is trusted

`src/token.rs` and `src/ident.rs` state what `proc_macro2`, `quote` and `unicode-ident` do. The
first two are used without their default features. Unless another crate of the same build turns
on the default features of `proc_macro2`, token streams are then those that `proc_macro2` itself
implements and not the compiler's own. It is of the former that the statements are made.

The tokens of single functions, of the definitions of shared types and of the functions that
handle vectors are parts of a module. They are taken as they are given.
