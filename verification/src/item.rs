//! The part of a parsed item that the attribute reads: what kind of item it is
//! and the name it declares.
use vstd::prelude::*;
use syn::Item;

verus! {

/// The kinds of item that `syn` tells apart, one for each variant of
/// `syn::Item`; `Other` stands for variants that a later `syn` may add.
#[derive(Clone, Copy, Debug, PartialEq, Eq, Structural)]
pub enum ItemKind {
    Const,
    Enum,
    ExternCrate,
    Fn,
    ForeignMod,
    Impl,
    Macro,
    Mod,
    Static,
    Struct,
    Trait,
    TraitAlias,
    Type,
    Union,
    Use,
    Verbatim,
    Other,
}

/// An item's kind and the text of the identifier it declares, where it
/// declares one (`extern` blocks, `impl` blocks, `use` items, unnamed macro
/// invocations and verbatim tokens declare none).
#[derive(Debug)]
pub struct ItemHead {
    pub kind: ItemKind,
    pub ident: Option<String>,
}

impl View for ItemHead {
    type V = (ItemKind, Option<Seq<char>>);

    open spec fn view(&self) -> (ItemKind, Option<Seq<char>>) {
        (
            self.kind,
            match self.ident {
                Some(s) => Some(s@),
                None => None,
            },
        )
    }
}

#[verifier::external_type_specification]
#[verifier::external_body]
pub struct ExSynError(syn::Error);

#[verifier::external_type_specification]
#[verifier::external_body]
pub struct ExSynItem(syn::Item);

#[verifier::external_type_specification]
#[verifier::external_body]
pub struct ExTokenStream(proc_macro2::TokenStream);

/// What `syn::parse2::<syn::Item>` makes of a token stream; `None` where it
/// reports an error. Parsing tokens involves no lexer: the outcome is a
/// function of the tokens alone.
pub uninterp spec fn parsed_item(tokens: proc_macro2::TokenStream) -> Option<syn::Item>;

/// Which variant of `syn::Item` an item is.
pub uninterp spec fn item_kind_of(item: syn::Item) -> ItemKind;

/// The `Display` text of the identifier an item declares, where its variant
/// carries one.
pub uninterp spec fn item_ident_of(item: syn::Item) -> Option<Seq<char>>;

/// The head of the item that the tokens parse into, if they parse.
pub open spec fn parsed_head(tokens: proc_macro2::TokenStream) -> Option<(ItemKind, Option<Seq<char>>)> {
    match parsed_item(tokens) {
        Some(i) => Some((item_kind_of(i), item_ident_of(i))),
        None => None,
    }
}

/// Calls `syn::parse2::<syn::Item>` on the item's tokens; its result is named
/// by `parsed_item`.
#[verifier::external_body]
pub(crate) fn parse_item(tokens: proc_macro2::TokenStream) -> (r: Result<syn::Item, syn::Error>)
    ensures
        r is Ok <==> parsed_item(tokens) is Some,
        r matches Ok(i) ==> parsed_item(tokens) == Some(i),
{
    syn::parse2::<Item>(tokens)
}

/// Tells the variants of `syn::Item` apart, one arm each; its result is named
/// by `item_kind_of`.
#[verifier::external_body]
pub(crate) fn item_kind(item: &syn::Item) -> (r: ItemKind)
    ensures
        r == item_kind_of(*item),
{
    match item {
        Item::Const(_) => ItemKind::Const, Item::Enum(_) => ItemKind::Enum,
        Item::ExternCrate(_) => ItemKind::ExternCrate, Item::Fn(_) => ItemKind::Fn,
        Item::ForeignMod(_) => ItemKind::ForeignMod, Item::Impl(_) => ItemKind::Impl,
        Item::Macro(_) => ItemKind::Macro, Item::Mod(_) => ItemKind::Mod,
        Item::Static(_) => ItemKind::Static, Item::Struct(_) => ItemKind::Struct,
        Item::Trait(_) => ItemKind::Trait, Item::TraitAlias(_) => ItemKind::TraitAlias,
        Item::Type(_) => ItemKind::Type, Item::Union(_) => ItemKind::Union,
        Item::Use(_) => ItemKind::Use, Item::Verbatim(_) => ItemKind::Verbatim,
        _ => ItemKind::Other,
    }
}

/// The `Display` text (`r#` included for a raw identifier) of the identifier
/// that the item declares, for the variants of `syn::Item` that carry one; its
/// result is named by `item_ident_of`.
#[verifier::external_body]
pub(crate) fn item_ident(item: &syn::Item) -> (r: Option<String>)
    ensures
        r is Some <==> item_ident_of(*item) is Some,
        r matches Some(s) ==> item_ident_of(*item) == Some(s@),
{
    Some(match item {
        Item::Const(i) => &i.ident,
        Item::Enum(i) => &i.ident,
        Item::ExternCrate(i) => &i.ident,
        Item::Fn(i) => &i.sig.ident,
        Item::Macro(i) => i.ident.as_ref()?,
        Item::Mod(i) => &i.ident,
        Item::Static(i) => &i.ident,
        Item::Struct(i) => &i.ident,
        Item::Trait(i) => &i.ident,
        Item::TraitAlias(i) => &i.ident,
        Item::Type(i) => &i.ident,
        Item::Union(i) => &i.ident,
        _ => return None,
    }.to_string())
}

} // verus!
