//! The names under which an opaque type is known on both sides of the bridge.

use vstd::prelude::*;

use crate::ident::{is_ident, law_ident_in_affixes};

verus! {

/// What the name of every item that the bridge adds begins with.
pub const SWIFT_BRIDGE_PREFIX: &'static str = "__swift_bridge__";

/// The function that releases a value of the opaque type `ty`.
pub open spec fn free_fn_name(ty: Seq<char>) -> Seq<char> {
    SWIFT_BRIDGE_PREFIX@ + ty + "__free"@
}

/// The symbol under which that function is linked.
pub open spec fn free_link_name(ty: Seq<char>) -> Seq<char> {
    SWIFT_BRIDGE_PREFIX@ + "$"@ + ty + "$_free"@
}

/// The struct that carries the bytes of a value of the `Copy` type `ty` across the bridge.
pub open spec fn copy_type_name(ty: Seq<char>) -> Seq<char> {
    SWIFT_BRIDGE_PREFIX@ + ty
}

/// Names the function that releases a value of the opaque type `ty`.
pub fn make_free_fn_name(ty: &str) -> (name: String)
    ensures
        name@ == free_fn_name(ty@),
{
    let mut name = String::from_str(SWIFT_BRIDGE_PREFIX);
    name.append(ty);
    name.append("__free");
    name
}

/// Names the symbol under which the function that releases a value of `ty` is linked.
pub fn make_free_link_name(ty: &str) -> (name: String)
    ensures
        name@ == free_link_name(ty@),
{
    let mut name = String::from_str(SWIFT_BRIDGE_PREFIX);
    name.append("$");
    name.append(ty);
    name.append("$_free");
    name
}

/// Names the struct that carries the bytes of a value of the `Copy` type `ty`.
pub fn make_copy_type_name(ty: &str) -> (name: String)
    ensures
        name@ == copy_type_name(ty@),
{
    let mut name = String::from_str(SWIFT_BRIDGE_PREFIX);
    name.append(ty);
    name
}

/// The names of the items that belong to an opaque type are identifiers if the type's name is.
pub proof fn law_names_are_identifiers(ty: Seq<char>)
    requires
        is_ident(ty),
    ensures
        is_ident(free_fn_name(ty)),
        is_ident(copy_type_name(ty)),
{
    reveal(is_ident);
    reveal_strlit("__swift_bridge__");
    reveal_strlit("__free");
    assert(is_ident(SWIFT_BRIDGE_PREFIX@));
    law_ident_in_affixes(SWIFT_BRIDGE_PREFIX@, ty, "__free"@);
    law_ident_in_affixes(SWIFT_BRIDGE_PREFIX@, ty, Seq::<char>::empty());
    assert(SWIFT_BRIDGE_PREFIX@ + ty + Seq::<char>::empty() =~= copy_type_name(ty));
}

/// A text between two fixed texts can be read back.
proof fn lemma_affixes_injective(prefix: Seq<char>, a: Seq<char>, b: Seq<char>, suffix: Seq<char>)
    requires
        prefix + a + suffix == prefix + b + suffix,
    ensures
        a == b,
{
    let (x, y) = (prefix + a + suffix, prefix + b + suffix);
    assert(a.len() == b.len()) by {
        assert(x.len() == prefix.len() + a.len() + suffix.len());
        assert(y.len() == prefix.len() + b.len() + suffix.len());
    }
    assert(a =~= x.subrange(prefix.len() as int, (prefix.len() + a.len()) as int));
    assert(b =~= y.subrange(prefix.len() as int, (prefix.len() + b.len()) as int));
}

/// No two opaque types share a function that releases their values, a symbol under which it is
/// linked, or a struct that carries their bytes.
pub proof fn law_names_are_distinct(a: Seq<char>, b: Seq<char>)
    requires
        a != b,
    ensures
        free_fn_name(a) != free_fn_name(b),
        free_link_name(a) != free_link_name(b),
        copy_type_name(a) != copy_type_name(b),
{
    if free_fn_name(a) == free_fn_name(b) {
        lemma_affixes_injective(SWIFT_BRIDGE_PREFIX@, a, b, "__free"@);
    }
    if free_link_name(a) == free_link_name(b) {
        lemma_affixes_injective(SWIFT_BRIDGE_PREFIX@ + "$"@, a, b, "$_free"@);
    }
    if copy_type_name(a) == copy_type_name(b) {
        let none = Seq::<char>::empty();
        assert(SWIFT_BRIDGE_PREFIX@ + a + none == SWIFT_BRIDGE_PREFIX@ + b + none);
        lemma_affixes_injective(SWIFT_BRIDGE_PREFIX@, a, b, none);
    }
}

/// The names that belong to a type, character by character around the type's own name.
pub proof fn law_names_by_characters(ty: Seq<char>)
    ensures
        ({
            let prefix = seq![
                '_', '_', 's', 'w', 'i', 'f', 't', '_', 'b', 'r', 'i', 'd', 'g', 'e', '_', '_',
            ];
            &&& free_fn_name(ty) =~= prefix + ty + seq!['_', '_', 'f', 'r', 'e', 'e']
            &&& free_link_name(ty) =~= prefix + seq!['$'] + ty + seq![
                '$', '_', 'f', 'r', 'e', 'e',
            ]
            &&& copy_type_name(ty) =~= prefix + ty
        }),
{
    reveal_strlit("__swift_bridge__");
    reveal_strlit("__free");
    reveal_strlit("$");
    reveal_strlit("$_free");
}

} // verus!
