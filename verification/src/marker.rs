//! The marker that the attribute adds beside an item: its name, and the
//! declaration of the static that carries it.
use vstd::prelude::*;
use crate::ident::{ascii_alpha, ascii_digit, ascii_ident, all_ascii, is_valid_ident, valid_ident};
use crate::item::{item_ident, item_kind, parse_item, parsed_head, ItemHead, ItemKind};
use crate::literal::string_literal_value;

verus! {

/// Why no marker is added beside an item.
#[derive(Debug)]
pub enum AspisError {
    /// The annotated tokens are not an item; the parser's error, as it came.
    Parse(syn::Error),
    /// The item is of a kind that carries no marker (`use`, `impl`, `trait`, ...).
    Unsupported,
    /// The marker's name, which is not an identifier (the attribute text holds
    /// a space or punctuation, or the item's name is a raw identifier).
    MarkerNotIdent(String),
}

/// The kinds of item that get a marker.
pub open spec fn supported(kind: ItemKind) -> bool {
    ||| kind == ItemKind::Static
    ||| kind == ItemKind::Fn
    ||| kind == ItemKind::Const
    ||| kind == ItemKind::Struct
    ||| kind == ItemKind::Enum
    ||| kind == ItemKind::Type
    ||| kind == ItemKind::Mod
}

/// The text that starts every marker name.
pub open spec fn marker_prefix() -> Seq<char> {
    seq!['_', '_', 'A', 'S', 'P', 'I', 'S', '_']
}

/// The marker name for an attribute text and an item name:
/// `__ASPIS_<attr>_<symbol>`.
pub open spec fn marker_text(attr: Seq<char>, symbol: Seq<char>) -> Seq<char> {
    marker_prefix() + attr + seq!['_'] + symbol
}

/// The declaration added after the item: an exported, always-kept static named
/// `marker` whose bytes are the string literal `attr_literal` followed by a
/// NUL byte.
pub open spec fn static_text(marker: Seq<char>, attr_literal: Seq<char>) -> Seq<char> {
    "#[used] #[unsafe(no_mangle)] pub static "@ + marker + ": &[u8] = concat!("@ + attr_literal
        + ", \"\\0\").as_bytes();"@
}

/// Letters, digits and `_` only (the characters of a plain ASCII word).
pub open spec fn word_chars(s: Seq<char>) -> bool {
    forall|i: int|
        0 <= i < s.len() ==> ascii_alpha(#[trigger] s[i]) || ascii_digit(s[i]) || s[i] == '_'
}

/// The head names an item that gets a marker.
pub open spec fn marked(head: (ItemKind, Option<Seq<char>>)) -> bool {
    supported(head.0) && head.1 is Some
}

/// The marker name for `attr` on an item with head `head` is an identifier,
/// where the item gets a marker at all: the inputs on which making the
/// marker's `Ident` does not panic.
pub open spec fn marker_is_ident(attr: Seq<char>, head: (ItemKind, Option<Seq<char>>)) -> bool {
    marked(head) ==> valid_ident(marker_text(attr, head.1->Some_0))
}

/// `r` is what the attribute gives for attribute text `attr` (written as the
/// string literal `attr_literal`) on an item whose head is `head`: no marker
/// for an item that gets none; otherwise the declaration of the marker static,
/// or the refusal of the marker's name where it is no identifier.
pub open spec fn expansion_outcome(
    r: Result<String, AspisError>,
    attr: Seq<char>,
    attr_literal: Seq<char>,
    head: (ItemKind, Option<Seq<char>>),
) -> bool {
    if !marked(head) {
        r matches Err(AspisError::Unsupported)
    } else {
        let m = marker_text(attr, head.1->Some_0);
        if valid_ident(m) {
            r matches Ok(s) && s@ == static_text(m, attr_literal)
        } else {
            r matches Err(AspisError::MarkerNotIdent(s)) && s@ == m
        }
    }
}

/// Calls `proc_macro2::Literal::string` and renders the literal as text: the
/// token that `quote!` makes of a string. Inside a procedural macro the
/// compiler writes it, elsewhere `proc_macro2` does (quotes around the text,
/// `\0` or `\x00` for NUL, `'` as it is, `char::escape_debug` for the rest);
/// which escapes are used is left unsaid, but either way the token is a string
/// literal whose value is `s`.
#[verifier::external_body]
fn string_literal(s: &str) -> (r: String)
    ensures
        string_literal_value(r@) == Some(s@),
{
    proc_macro2::Literal::string(s).to_string()
}

/// The name of the item, for the kinds that get a marker.
pub fn symbol_name(head: &ItemHead) -> (r: Result<String, AspisError>)
    ensures
        marked(head@) ==> (r matches Ok(s) && s@ == head@.1->Some_0),
        !marked(head@) ==> (r matches Err(AspisError::Unsupported)),
{
    match head.kind {
        ItemKind::Static | ItemKind::Fn | ItemKind::Const | ItemKind::Struct | ItemKind::Enum
        | ItemKind::Type | ItemKind::Mod => match &head.ident {
            Some(name) => Ok(name.clone()),
            None => Err(AspisError::Unsupported),
        },
        _ => Err(AspisError::Unsupported),
    }
}

/// `__ASPIS_<attr>_<symbol>`.
pub fn marker_name(attr: &str, symbol: &str) -> (r: String)
    ensures
        r@ == marker_text(attr@, symbol@),
{
    let mut m = String::from_str("__ASPIS_");
    proof {
        reveal_strlit("__ASPIS_");
        reveal_strlit("_");
    }
    m.append(attr);
    m.append("_");
    m.append(symbol);
    assert(m@ =~= marker_text(attr@, symbol@));
    m
}

/// The declaration of the marker static named `marker`, holding the string
/// literal `attr_literal` followed by a NUL byte.
pub fn marker_static(marker: &str, attr_literal: &str) -> (r: String)
    ensures
        r@ == static_text(marker@, attr_literal@),
{
    let mut d = String::from_str("#[used] #[unsafe(no_mangle)] pub static ");
    d.append(marker);
    d.append(": &[u8] = concat!(");
    d.append(attr_literal);
    d.append(", \"\\0\").as_bytes();");
    d
}

/// A marker name is an identifier when the attribute text and the item name
/// are plain ASCII words.
proof fn lemma_word_marker_is_ident(attr: Seq<char>, symbol: Seq<char>)
    requires
        word_chars(attr),
        word_chars(symbol),
    ensures
        all_ascii(marker_text(attr, symbol)),
        ascii_ident(marker_text(attr, symbol)),
{
    let m = marker_text(attr, symbol);
    assert forall|i: int| 0 <= i < m.len() implies (#[trigger] m[i] as u32) < 128 && (i >= 1 ==> (
    ascii_alpha(m[i]) || ascii_digit(m[i]) || m[i] == '_')) by {
        if i < 8 {
        } else if i < 8 + attr.len() {
            assert(m[i] == attr[i - 8]);
        } else if i == 8 + attr.len() {
        } else {
            assert(m[i] == symbol[i - 9 - attr.len()]);
        }
    }
}

/// The marker name for attribute text `attr` on an item already read into
/// `head`. Where the name would be no identifier, the original panics; that
/// input is left out.
pub fn marker_for(attr: &str, head: &ItemHead) -> (r: Result<String, AspisError>)
    requires
        marker_is_ident(attr@, head@),
    ensures
        !marked(head@) ==> (r matches Err(AspisError::Unsupported)),
        marked(head@) ==> (r matches Ok(s) && s@ == marker_text(attr@, head@.1->Some_0)),
{
    let symbol = match symbol_name(head) {
        Ok(s) => s,
        Err(e) => return Err(e),
    };
    Ok(marker_name(attr, symbol.as_str()))
}

/// What the attribute gives, once the item has been parsed into `parsed`:
/// the parser's error as it came, or the marker's declaration, or why there
/// is none. `attr_literal` is the string literal of `attr` that the
/// declaration holds. Where the marker's name would be no identifier, the
/// original panics; that input is left out.
pub fn expand_parsed(
    attr: &str,
    attr_literal: &str,
    parsed: Result<ItemHead, syn::Error>,
) -> (r: Result<String, AspisError>)
    requires
        parsed matches Ok(h) ==> marker_is_ident(attr@, h@),
    ensures
        parsed matches Err(e) ==> r == Err::<String, AspisError>(AspisError::Parse(e)),
        parsed matches Ok(h) ==> expansion_outcome(r, attr@, attr_literal@, h@),
{
    match parsed {
        Err(e) => Err(AspisError::Parse(e)),
        Ok(head) => match marker_for(attr, &head) {
            Ok(marker) => Ok(marker_static(marker.as_str(), attr_literal)),
            Err(e) => Err(e),
        },
    }
}

/// The message with which an item of a kind that carries no marker is refused.
pub fn unsupported_message() -> (r: &'static str)
    ensures
        r@ == "#[aspis] does not support this item"@,
{
    "#[aspis] does not support this item"
}

/// The attribute with attribute text `attr` on the item made of the tokens
/// `item`: the parser's error; no marker for an item that gets none; the
/// refusal of the marker's name where it is no identifier (where the original
/// panics); otherwise the declaration of the marker static
/// `__ASPIS_<attr>_<name>`, holding a string literal whose value is `attr`.
pub fn aspis(attr: &str, item: proc_macro2::TokenStream) -> (r: Result<String, AspisError>)
    ensures
        parsed_head(item) is None ==> (r matches Err(AspisError::Parse(_))),
        parsed_head(item) matches Some(h) ==> exists|lit: Seq<char>|
            #[trigger] string_literal_value(lit) == Some(attr@) && expansion_outcome(
                r,
                attr@,
                lit,
                h,
            ),
        parsed_head(item) matches Some(h) ==> (marked(h) && all_ascii(
            marker_text(attr@, h.1->Some_0),
        ) ==> (r is Ok <==> ascii_ident(marker_text(attr@, h.1->Some_0)))),
        parsed_head(item) matches Some(h) ==> (marked(h) && word_chars(attr@) && word_chars(
            h.1->Some_0,
        ) ==> r is Ok),
{
    let attr_literal = string_literal(attr);
    let parsed = match parse_item(item) {
        Ok(i) => Ok(ItemHead { kind: item_kind(&i), ident: item_ident(&i) }),
        Err(e) => Err(e),
    };
    if let Ok(head) = &parsed {
        if let Ok(symbol) = symbol_name(head) {
            let marker = marker_name(attr, symbol.as_str());
            proof {
                if word_chars(attr@) && word_chars(symbol@) {
                    lemma_word_marker_is_ident(attr@, symbol@);
                }
            }
            if !is_valid_ident(marker.as_str()) {
                return Err(AspisError::MarkerNotIdent(marker));
            }
        }
    }
    expand_parsed(attr, attr_literal.as_str(), parsed)
}

} // verus!
