//! What the attribute promises of every input, stated without the spec
//! functions' own wording: the marker name is the whole concatenation, the
//! declaration has one fixed form ending in a NUL byte, identifiers are
//! decided character by character, and only the item's kind decides whether
//! it gets a marker.
use vstd::prelude::*;
use crate::ident::{ascii_digit, valid_ident, xid_continue, xid_start};
use crate::item::ItemKind;
use crate::marker::{expansion_outcome, marked, marker_text, static_text, AspisError};

verus! {

/// `__ASPIS_` as characters.
pub open spec fn aspis_prefix_chars() -> Seq<char> {
    seq!['_', '_', 'A', 'S', 'P', 'I', 'S', '_']
}

/// The seven kinds of item that get a marker, listed.
pub open spec fn listed_kind(k: ItemKind) -> bool {
    k == ItemKind::Static || k == ItemKind::Fn || k == ItemKind::Const || k == ItemKind::Struct
        || k == ItemKind::Enum || k == ItemKind::Type || k == ItemKind::Mod
}

/// The declaration's text for marker `m` and literal `lit`, character by
/// character: `#[used] #[unsafe(no_mangle)] pub static <m>: &[u8] =
/// concat!(<lit>, "\0").as_bytes();`.
pub open spec fn declaration_chars(m: Seq<char>, lit: Seq<char>) -> Seq<char> {
    seq!['#', '[', 'u', 's', 'e', 'd', ']', ' ']
        + seq!['#', '[', 'u', 'n', 's', 'a', 'f', 'e', '(', 'n', 'o', '_', 'm', 'a', 'n', 'g', 'l', 'e', ')', ']', ' ']
        + seq!['p', 'u', 'b', ' ', 's', 't', 'a', 't', 'i', 'c', ' ']
        + m
        + seq![':', ' ', '&', '[', 'u', '8', ']', ' ', '=', ' ', 'c', 'o', 'n', 'c', 'a', 't', '!', '(']
        + lit
        + seq![',', ' ', '"', '\\', '0', '"', ')', '.', 'a', 's', '_', 'b', 'y', 't', 'e', 's', '(', ')', ';']
}

/// The marker name is the whole of `__ASPIS_`, the attribute text, `_` and the
/// item name, however long: nothing is cut, and both parts can be read back.
pub proof fn law_marker_name_is_whole(attr: Seq<char>, symbol: Seq<char>)
    ensures
        marker_text(attr, symbol) == aspis_prefix_chars() + attr + seq!['_'] + symbol,
        marker_text(attr, symbol).len() == 9 + attr.len() + symbol.len(),
        marker_text(attr, symbol).subrange(0, 8) == aspis_prefix_chars(),
        marker_text(attr, symbol).subrange(8, 8 + attr.len() as int) == attr,
        marker_text(attr, symbol)[8 + attr.len() as int] == '_',
        marker_text(attr, symbol).subrange(9 + attr.len() as int, 9 + attr.len() + symbol.len() as int) == symbol,
{
    let m = marker_text(attr, symbol);
    assert(m =~= aspis_prefix_chars() + attr + seq!['_'] + symbol);
    assert(m.subrange(0, 8) =~= aspis_prefix_chars());
    assert(m.subrange(8, 8 + attr.len() as int) =~= attr);
    assert(m.subrange(9 + attr.len() as int, 9 + attr.len() + symbol.len() as int) =~= symbol);
}

/// For one attribute text, different item names give different marker names.
pub proof fn law_marker_name_tells_items_apart(attr: Seq<char>, s1: Seq<char>, s2: Seq<char>)
    ensures
        marker_text(attr, s1) == marker_text(attr, s2) ==> s1 == s2,
{
    law_marker_name_is_whole(attr, s1);
    law_marker_name_is_whole(attr, s2);
}

/// The declaration has one form for every marker and literal: the attributes
/// `#[used] #[unsafe(no_mangle)]`, the marker as the static's name, and the
/// literal followed by the NUL literal `"\0"` as its bytes.
pub proof fn law_declaration_form(m: Seq<char>, lit: Seq<char>)
    ensures
        static_text(m, lit) == declaration_chars(m, lit),
        static_text(m, lit).len() == 77 + m.len() + lit.len(),
        static_text(m, lit).subrange(static_text(m, lit).len() - 19int, static_text(m, lit).len() as int)
            == seq![',', ' ', '"', '\\', '0', '"', ')', '.', 'a', 's', '_', 'b', 'y', 't', 'e', 's', '(', ')', ';'],
{
    reveal_strlit("#[used] #[unsafe(no_mangle)] pub static ");
    reveal_strlit(": &[u8] = concat!(");
    reveal_strlit(", \"\\0\").as_bytes();");
    assert(static_text(m, lit) =~= declaration_chars(m, lit));
    let d = declaration_chars(m, lit);
    assert(d.subrange(d.len() - 19int, d.len() as int) =~= seq![',', ' ', '"', '\\', '0', '"', ')', '.', 'a', 's', '_', 'b', 'y', 't', 'e', 's', '(', ')', ';']);
}

/// A text is an identifier exactly when it is not empty, not all digits,
/// starts with `_` or an XID_Start character and goes on with XID_Continue
/// characters; no other condition ties characters together.
pub proof fn law_ident_by_characters(s: Seq<char>)
    ensures
        valid_ident(s) <==> (s.len() > 0 && !(forall|i: int| 0 <= i < s.len() ==> #[trigger] ascii_digit(s[i]))
            && (s[0] == '_' || xid_start(s[0])) && (forall|i: int| 1 <= i < s.len() ==> #[trigger] xid_continue(s[i]))),
{
}

/// An identifier followed by any XID_Continue characters is an identifier.
pub proof fn law_ident_extends(s: Seq<char>, t: Seq<char>)
    requires
        valid_ident(s),
        forall|i: int| 0 <= i < t.len() ==> #[trigger] xid_continue(t[i]),
    ensures
        valid_ident(s + t),
{
    let u = s + t;
    let j = choose|j: int| 0 <= j < s.len() && !ascii_digit(#[trigger] s[j]);
    assert(!ascii_digit(u[j]));
    assert forall|i: int| 1 <= i < u.len() implies #[trigger] xid_continue(u[i]) by {
        if i < s.len() {
            assert(u[i] == s[i]);
            assert(xid_continue(s[i]));
        } else {
            assert(u[i] == t[i - s.len()]);
        }
    }
}

/// A start character that is no digit, followed by XID_Continue characters,
/// is an identifier.
pub proof fn law_ident_from_start(c: char, t: Seq<char>)
    requires
        c == '_' || xid_start(c),
        !ascii_digit(c),
        forall|i: int| 0 <= i < t.len() ==> #[trigger] xid_continue(t[i]),
    ensures
        valid_ident(seq![c] + t),
{
    let u = seq![c] + t;
    assert(u[0] == c);
    assert forall|i: int| 1 <= i < u.len() implies #[trigger] xid_continue(u[i]) by {
        assert(u[i] == t[i - 1]);
    }
}

/// Whether an item gets a marker depends on its kind and on its having a
/// name, never on the name's text: the seven listed kinds with a name do,
/// nothing else does.
pub proof fn law_marker_by_kind(k: ItemKind, n: Seq<char>)
    ensures
        marked((k, Some(n))) <==> listed_kind(k),
        !marked((k, None)),
{
}

/// What the attribute gives for an item read into `(k, name)`: for a listed
/// kind and a marker name that is an identifier, the declaration of the whole
/// marker name in the one fixed form, whatever the kind and the attribute; for
/// a listed kind and a name that is no identifier, the refusal of exactly that
/// name; for any other kind, or an item without a name, no marker.
pub proof fn law_expansion(
    r: Result<String, AspisError>,
    attr: Seq<char>,
    lit: Seq<char>,
    k: ItemKind,
    name: Option<Seq<char>>,
)
    requires
        expansion_outcome(r, attr, lit, (k, name)),
    ensures
        !(listed_kind(k) && name is Some) ==> (r matches Err(AspisError::Unsupported)),
        listed_kind(k) && name is Some && valid_ident(aspis_prefix_chars() + attr + seq!['_'] + name->Some_0)
            ==> (r matches Ok(s) && s@ == declaration_chars(
            aspis_prefix_chars() + attr + seq!['_'] + name->Some_0,
            lit,
        )),
        listed_kind(k) && name is Some && !valid_ident(aspis_prefix_chars() + attr + seq!['_'] + name->Some_0)
            ==> (r matches Err(AspisError::MarkerNotIdent(s)) && s@ == aspis_prefix_chars() + attr
            + seq!['_'] + name->Some_0),
{
    law_marker_by_kind(k, name.unwrap_or(Seq::empty()));
    if name is Some {
        let n = name->Some_0;
        law_marker_name_is_whole(attr, n);
        law_declaration_form(marker_text(attr, n), lit);
    }
}

/// Two items of listed kinds with the same name get the same answer.
pub proof fn law_expansion_same_for_listed_kinds(
    r1: Result<String, AspisError>,
    r2: Result<String, AspisError>,
    attr: Seq<char>,
    lit: Seq<char>,
    k1: ItemKind,
    k2: ItemKind,
    name: Seq<char>,
)
    requires
        listed_kind(k1),
        listed_kind(k2),
        expansion_outcome(r1, attr, lit, (k1, Some(name))),
        expansion_outcome(r2, attr, lit, (k2, Some(name))),
    ensures
        (r1 is Ok) == (r2 is Ok),
        r1 matches Ok(s1) ==> (r2 matches Ok(s2) && s1@ == s2@),
{
    law_expansion(r1, attr, lit, k1, Some(name));
    law_expansion(r2, attr, lit, k2, Some(name));
}

} // verus!
