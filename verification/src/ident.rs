//! Identifier validity, as `proc_macro2` checks it when an `Ident` is made.
use vstd::prelude::*;

verus! {

/// Whether `c` has the Unicode property XID_Start, as `unicode_ident` answers it.
pub uninterp spec fn xid_start(c: char) -> bool;

/// Whether `c` has the Unicode property XID_Continue, as `unicode_ident` answers it.
pub uninterp spec fn xid_continue(c: char) -> bool;

/// An ASCII letter.
pub open spec fn ascii_alpha(c: char) -> bool {
    ('a' <= c && c <= 'z') || ('A' <= c && c <= 'Z')
}

/// An ASCII decimal digit.
pub open spec fn ascii_digit(c: char) -> bool {
    '0' <= c && c <= '9'
}

/// Calls `unicode_ident::is_xid_start`. The crate decides ASCII characters by a
/// mask whose set bits are exactly the ASCII letters; for other characters the
/// result is a function of the character alone, left unstated.
#[verifier::external_body]
fn is_xid_start(c: char) -> (r: bool)
    ensures
        r == xid_start(c),
        (c as u32) < 128 ==> (r <==> ascii_alpha(c)),
{
    unicode_ident::is_xid_start(c)
}

/// Calls `unicode_ident::is_xid_continue`. The crate decides ASCII characters by
/// a mask whose set bits are exactly the ASCII letters, the digits and `_`;
/// for other characters the result is a function of the character alone, left
/// unstated.
#[verifier::external_body]
fn is_xid_continue(c: char) -> (r: bool)
    ensures
        r == xid_continue(c),
        (c as u32) < 128 ==> (r <==> (ascii_alpha(c) || ascii_digit(c) || c == '_')),
{
    unicode_ident::is_xid_continue(c)
}

/// A character that may begin an identifier.
pub open spec fn ident_start(c: char) -> bool {
    c == '_' || xid_start(c)
}

/// What `proc_macro2` accepts as the text of an identifier: not empty, not a
/// number, an identifier start followed by identifier continuations.
pub open spec fn valid_ident(s: Seq<char>) -> bool {
    &&& s.len() > 0
    &&& !(forall|i: int| 0 <= i < s.len() ==> ascii_digit(#[trigger] s[i]))
    &&& ident_start(s[0])
    &&& forall|i: int| 1 <= i < s.len() ==> xid_continue(#[trigger] s[i])
}

/// An identifier made of ASCII characters only: a letter or `_`, then letters,
/// digits and `_`.
pub open spec fn ascii_ident(s: Seq<char>) -> bool {
    &&& s.len() > 0
    &&& (ascii_alpha(s[0]) || s[0] == '_')
    &&& forall|i: int|
        1 <= i < s.len() ==> ascii_alpha(#[trigger] s[i]) || ascii_digit(s[i]) || s[i] == '_'
}

/// Every character of `s` is ASCII.
pub open spec fn all_ascii(s: Seq<char>) -> bool {
    forall|i: int| 0 <= i < s.len() ==> (#[trigger] s[i] as u32) < 128
}

/// Whether `s` is accepted as an identifier (the check that `Ident::new` makes
/// before it panics).
pub fn is_valid_ident(s: &str) -> (r: bool)
    ensures
        r == valid_ident(s@),
        all_ascii(s@) ==> (r <==> ascii_ident(s@)),
{
    broadcast use vstd::string::axiom_spec_iter;
    let mut seen_any = false;
    let mut all_digits = true;
    let mut ok = true;
    for c in it: s.chars()
        invariant
            it.seq() == s@,
            seen_any == (it.index() > 0),
            all_digits == (forall|j: int| 0 <= j < it.index() ==> ascii_digit(#[trigger] s@[j])),
            ok == ((it.index() > 0 ==> ident_start(s@[0])) && (forall|j: int|
                1 <= j < it.index() ==> xid_continue(#[trigger] s@[j]))),
            all_ascii(s@) ==> (ok == ((it.index() > 0 ==> ascii_alpha(s@[0]) || s@[0] == '_')
                && (forall|j: int|
                1 <= j < it.index() ==> ascii_alpha(#[trigger] s@[j]) || ascii_digit(s@[j])
                    || s@[j] == '_'))),
    {
        let ghost k = it.index();
        assert(c == s@[k]);
        if !('0' <= c && c <= '9') {
            all_digits = false;
        }
        if !seen_any {
            ok = c == '_' || is_xid_start(c);
        } else if ok {
            ok = is_xid_continue(c);
        }
        seen_any = true;
    }
    seen_any && !all_digits && ok
}

} // verus!
