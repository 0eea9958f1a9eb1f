use aspis_rust_annotations::ident::is_valid_ident;
use aspis_rust_annotations::item::{ItemHead, ItemKind};
use aspis_rust_annotations::marker::{
    aspis, expand_parsed, marker_for, marker_name, marker_static, symbol_name,
    unsupported_message, AspisError,
};
use proc_macro2::TokenStream;

fn toks(src: &str) -> TokenStream {
    src.parse().unwrap()
}

fn declaration(marker: &str, attr: &str) -> String {
    format!(
        "#[used] #[unsafe(no_mangle)] pub static {}: &[u8] = concat!(\"{}\", \"\\0\").as_bytes();",
        marker, attr
    )
}

fn ok(attr: &str, item: &str) -> String {
    match aspis(attr, toks(item)) {
        Ok(d) => d,
        Err(e) => panic!("no marker: {:?}", e),
    }
}

fn head(kind: ItemKind, name: &str) -> ItemHead {
    ItemHead { kind, ident: Some(name.to_string()) }
}

#[test]
fn static_item_gets_marker() {
    assert_eq!(
        ok("to_harden", "pub static mut SUM: i32 = 0;"),
        declaration("__ASPIS_to_harden_SUM", "to_harden")
    );
}

#[test]
fn each_supported_kind_gets_marker() {
    assert_eq!(ok("to_harden", "pub fn fact(n: u32) -> u64 { 1 }"), declaration("__ASPIS_to_harden_fact", "to_harden"));
    assert_eq!(ok("exclude", "const LIMIT: u8 = 3;"), declaration("__ASPIS_exclude_LIMIT", "exclude"));
    assert_eq!(
        ok("to_duplicate", "struct MyClass { a: i32, b: i32 }"),
        declaration("__ASPIS_to_duplicate_MyClass", "to_duplicate")
    );
    assert_eq!(ok("to_harden", "enum Mode { A, B }"), declaration("__ASPIS_to_harden_Mode", "to_harden"));
    assert_eq!(ok("to_harden", "type Word = u32;"), declaration("__ASPIS_to_harden_Word", "to_harden"));
    assert_eq!(ok("to_harden", "mod inner { fn f() {} }"), declaration("__ASPIS_to_harden_inner", "to_harden"));
}

#[test]
fn attributes_on_the_item_are_kept_out_of_the_name() {
    assert_eq!(
        ok("to_harden", "#[unsafe(no_mangle)] pub extern \"C\" fn fact(n: u32) -> u64 { 1 }"),
        declaration("__ASPIS_to_harden_fact", "to_harden")
    );
}

#[test]
fn empty_attribute_text() {
    assert_eq!(ok("", "static X: u8 = 0;"), declaration("__ASPIS__X", ""));
}

#[test]
fn attribute_literal_escapes_combining_mark() {
    assert_eq!(
        ok("a\u{301}", "static X: u8 = 0;"),
        "#[used] #[unsafe(no_mangle)] pub static __ASPIS_a\u{301}_X: &[u8] = concat!(\"a\\u{301}\", \"\\0\").as_bytes();"
    );
}

#[test]
fn quoted_or_listed_attributes_are_no_identifiers() {
    assert!(matches!(aspis("\"s\"", toks("static X: u8 = 0;")), Err(AspisError::MarkerNotIdent(_))));
    assert!(matches!(aspis("a, b", toks("static X: u8 = 0;")), Err(AspisError::MarkerNotIdent(_))));
}

#[test]
fn unsupported_message_text() {
    assert_eq!(unsupported_message(), "#[aspis] does not support this item");
}

#[test]
fn attribute_literal_is_quoted() {
    let d = ok("a", "static X: u8 = 0;");
    assert_eq!(d, declaration("__ASPIS_a_X", "a"));
    let head = head(ItemKind::Static, "X");
    assert_eq!(
        expand_parsed("a", "\"a\"", Ok(head)).unwrap(),
        declaration("__ASPIS_a_X", "a")
    );
}

#[test]
fn unsupported_kinds_are_refused() {
    for item in [
        "use std::io::Write;",
        "impl MyClass { fn sum(&self) -> i32 { 0 } }",
        "trait T {}",
        "trait Both = Send + Sync;",
        "union U { a: u8 }",
        "extern crate core;",
        "extern \"C\" { fn printf(fmt: *const u8, ...) -> i32; }",
        "macro_rules! m { () => {} }",
        "m!();",
    ] {
        assert!(matches!(aspis("to_harden", toks(item)), Err(AspisError::Unsupported)), "{}", item);
    }
}

#[test]
fn non_items_are_parse_errors() {
    assert!(matches!(aspis("to_harden", toks("1 + 2")), Err(AspisError::Parse(_))));
    assert!(matches!(aspis("to_harden", toks("fn")), Err(AspisError::Parse(_))));
    assert!(matches!(aspis("to_harden", toks("")), Err(AspisError::Parse(_))));
}

#[test]
fn parse_error_is_passed_on() {
    let expected = match syn::parse2::<syn::Item>(toks("fn")) {
        Err(e) => e,
        Ok(_) => panic!("`fn` alone parsed as an item"),
    };
    match aspis("to_harden", toks("fn")) {
        Err(AspisError::Parse(e)) => assert_eq!(e.to_string(), expected.to_string()),
        other => panic!("unexpected: {:?}", other),
    }
    let e = syn::Error::new(proc_macro2::Span::call_site(), "custom");
    match expand_parsed("to_harden", "\"to_harden\"", Err(e)) {
        Err(AspisError::Parse(e)) => assert_eq!(e.to_string(), "custom"),
        other => panic!("unexpected: {:?}", other),
    }
}

#[test]
fn attribute_with_space_is_no_identifier() {
    match aspis("to harden", toks("static X: u8 = 0;")) {
        Err(AspisError::MarkerNotIdent(m)) => assert_eq!(m, "__ASPIS_to harden_X"),
        other => panic!("unexpected: {:?}", other),
    }
}

#[test]
fn raw_item_name_is_no_identifier() {
    match aspis("to_harden", toks("fn r#match() {}")) {
        Err(AspisError::MarkerNotIdent(m)) => assert_eq!(m, "__ASPIS_to_harden_r#match"),
        other => panic!("unexpected: {:?}", other),
    }
}

#[test]
fn unicode_names_make_identifiers() {
    assert_eq!(ok("to_harden", "static ÉTAT: u8 = 0;"), declaration("__ASPIS_to_harden_ÉTAT", "to_harden"));
}

#[test]
fn marker_name_concatenates() {
    assert_eq!(marker_name("to_harden", "fact"), "__ASPIS_to_harden_fact");
    assert_eq!(marker_name("a_b", "c"), "__ASPIS_a_b_c");
    assert_eq!(marker_name("", ""), "__ASPIS__");
}

#[test]
fn marker_static_declares() {
    assert_eq!(marker_static("__ASPIS_x_Y", "\"x\""), declaration("__ASPIS_x_Y", "x"));
}

#[test]
fn symbol_name_by_kind() {
    assert_eq!(symbol_name(&head(ItemKind::Enum, "Mode")).unwrap(), "Mode");
    assert_eq!(symbol_name(&head(ItemKind::Mod, "inner")).unwrap(), "inner");
    for kind in [
        ItemKind::ExternCrate,
        ItemKind::Trait,
        ItemKind::TraitAlias,
        ItemKind::Union,
        ItemKind::Macro,
        ItemKind::Other,
    ] {
        assert!(matches!(symbol_name(&head(kind, "N")), Err(AspisError::Unsupported)));
    }
    let nameless = ItemHead { kind: ItemKind::Impl, ident: None };
    assert!(matches!(symbol_name(&nameless), Err(AspisError::Unsupported)));
}

#[test]
fn marker_for_read_head() {
    assert_eq!(marker_for("to_harden", &head(ItemKind::Fn, "fact")).unwrap(), "__ASPIS_to_harden_fact");
    assert!(matches!(marker_for("to_harden", &head(ItemKind::Use, "T")), Err(AspisError::Unsupported)));
    assert!(matches!(
        aspis("a+b", toks("const C: u8 = 0;")),
        Err(AspisError::MarkerNotIdent(_))
    ));
}

#[test]
fn identifier_rules() {
    assert!(is_valid_ident("_"));
    assert!(is_valid_ident("__ASPIS_to_harden_SUM"));
    assert!(is_valid_ident("abc9"));
    assert!(is_valid_ident("état"));
    assert!(is_valid_ident("x\u{0301}"));
    assert!(!is_valid_ident(""));
    assert!(!is_valid_ident("123"));
    assert!(!is_valid_ident("1abc"));
    assert!(!is_valid_ident("a-b"));
    assert!(!is_valid_ident("a b"));
    assert!(!is_valid_ident("r#match"));
    assert!(!is_valid_ident("\u{0301}x"));
    assert!(!is_valid_ident("a\u{2028}"));
}
