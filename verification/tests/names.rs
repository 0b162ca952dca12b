//! Names and identifiers.

use swift_bridge_ir::ident::check_ident;
use swift_bridge_ir::names::{
    make_copy_type_name, make_free_fn_name, make_free_link_name, SWIFT_BRIDGE_PREFIX,
};

#[test]
fn names_of_an_opaque_type() {
    assert_eq!(SWIFT_BRIDGE_PREFIX, "__swift_bridge__");
    assert_eq!(make_free_fn_name("Foo"), "__swift_bridge__Foo__free");
    assert_eq!(make_free_link_name("Foo"), "__swift_bridge__$Foo$_free");
    assert_eq!(make_copy_type_name("Foo"), "__swift_bridge__Foo");
}

#[test]
fn names_differ_between_types() {
    assert_ne!(make_free_fn_name("A"), make_free_fn_name("A_"));
    assert_ne!(make_free_link_name("A"), make_free_link_name("A$"));
    assert_ne!(make_copy_type_name("A"), make_copy_type_name("B"));
}

#[test]
fn names_are_identifiers() {
    for name in ["Foo", "_", "fn", "日本", "x9"] {
        assert!(check_ident(&make_free_fn_name(name)));
        assert!(check_ident(&make_copy_type_name(name)));
        assert!(!check_ident(&make_free_link_name(name)));
    }
}

#[test]
fn identifiers() {
    for text in ["a", "_", "_1", "Foo", "self", "fn", "é", "日本", "a\u{301}", "x９"] {
        assert!(check_ident(text), "{:?}", text);
    }
    for text in ["", "1", "12", "1a", "r#a", "a.b", " a", "a ", "'a", "\u{301}a", "😀", "a😀"] {
        assert!(!check_ident(text), "{:?}", text);
    }
}

/// `proc_macro2` takes the same texts for identifiers.
#[test]
fn identifiers_agree_with_tokens() {
    for text in ["a", "_", "_1", "Foo", "self", "fn", "é", "日本", "a\u{301}", "x９"] {
        let ident = proc_macro2::Ident::new(text, proc_macro2::Span::call_site());
        assert_eq!(ident.to_string(), text);
    }
}
