# aspis_rust_annotations

The `#[aspis(<attr>)]` attribute keeps the item it annotates and adds after it
an exported static `__ASPIS_<attr>_<name>` whose bytes are the attribute text
followed by a NUL byte. Statics, functions, constants, structs, enums, type
aliases and modules get such a marker; other items are refused.

Layout:

- `src/` — the verified library (Verus):
  - `ident.rs`: when a text is an identifier, as `proc_macro2` checks it;
  - `item.rs`: the kind and name of a parsed item (`syn`);
  - `literal.rs`: the value of a string literal token;
  - `marker.rs`: the marker's name, its declaration, and `aspis`, which
    decides the whole expansion for an item's tokens.
- `app/` — the token-stream side: printing, turning the library's answer into
  tokens or a compile error, and re-emitting the item.
- `tests/` — tests of the library on concrete items.
