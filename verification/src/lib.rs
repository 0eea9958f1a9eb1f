//! Markers for items annotated with `#[aspis(..)]`.
//!
//! The attribute leaves the annotated item unchanged and adds beside it an
//! exported static named `__ASPIS_<attribute>_<item name>` whose bytes are the
//! attribute text followed by a NUL byte. This crate holds the decisions
//! behind that expansion: which items are supported, which name the marker
//! gets, whether that name is an identifier, and the text of the static's
//! declaration.
pub mod ident;
pub mod item;
pub mod laws;
pub mod literal;
pub mod marker;

