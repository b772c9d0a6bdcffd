# soa_derive

The `Soa` derive writes, for a struct with named fields, a struct-of-arrays
companion: a collection `{Name}Soa` with one `Vec` column per field, the column
pointer types `{Name}Ptr` and `{Name}MutPtr`, the row types `{Name}Ref` and
`{Name}Mut`, owning, shared and mutable iterators, and, when no field is a raw
pointer or a non-`Send` wrapper, a parallel-extend implementation.

Layout:

- `src/` is the verified library (Verus). `input` models the derive input,
  `names` forms the generated identifiers, `send` decides which field types are
  not `Send`, `lines` writes one line of source per field, `expand` writes the
  whole generated source and decides when the derive is refused, and `laws`
  proves properties of the generated text.
- `app/` reads the input tokens with `syn`, hands their shape to the library
  and turns the generated text back into tokens.
- `tests/` runs the library on concrete structs and checks that the generated
  source parses as Rust.
