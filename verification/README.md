# open_ai_rust_fn_call_extension (verified core)

The decisions behind the `#[derive(FunctionCall)]`, `#[function_call]` and
`#[tool]` macros, written in Verus and proved against their contracts.

- `src/model.rs` — a plain-value model of the annotated item (attributes,
  fields, parameters, types) and the errors a macro can refuse it with.
- `src/text.rs` — trimming, joining, replacing and decimal rendering over
  the character view of strings.
- `src/describe.rs` — descriptions (macro argument, doc comment,
  `#[function_call_description]`), `Option`/`Result` detection, printed types.
- `src/opts.rs` — `#[function_call(crate | skip | rename | description)]`.
- `src/derive.rs` — the `FunctionCallable` impl a type is described by.
- `src/function.rs` — the schema constant, dispatch plan and registry entry
  of a function.
- `src/laws.rs` — properties that span several functions.
- `src/external.rs` — the trusted calls into `std` and `syn`.
- `app/lib.rs` — reading the compiler's tokens with `syn` into the model and
  writing the expansion back with `quote`.
