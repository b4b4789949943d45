# rust_to_wgsl

Turns a compute shader written as a Rust module into WGSL. The conversion is
verified by Verus, with three exceptions that are trusted rather than proved:
removing documentation comments relies on the `regex` crate, whose matching is only
named in the contracts; the upper- and lower-case forms of type names come from
std's `to_uppercase` and `to_lowercase`, also only named; and the front end in
`app/` (parsing with `syn`, producing tokens) is not verified at all.

A shader module holds constants, structs and type aliases (plain GPU types, or
marked `#[wgsl_config]`, `#[wgsl_input_array]`, `#[wgsl_output_array]`,
`#[wgsl_output_vec]`), helper functions and a `main` entry point. Calls such as
`WgslVecInput::vec_val::<T>(i)` or `WgslOutput::push::<T>(v)` are rewritten into
the WGSL buffer accesses they stand for, each part is converted to WGSL, and the
library adds pipeline constants, buffer bindings and the workgroup declaration.

## Layout

- `src/` — the verified library. It works on its own syntax model
  (`syntax.rs`); `transform_wgsl_helper_methods.rs` rewrites helper calls,
  `module_parser.rs` splits a module into its parts, `wgsl_types.rs`,
  `wgsl_exprs.rs` and `wgsl_items.rs` write WGSL, `wgsl_shader_module*.rs` and
  `compose_wgsl_module.rs` assemble whole shaders, and `laws.rs` proves properties
  that relate several operations.
- `app/` — the front end: it parses a module with `syn`, converts it to the
  syntax model, and turns the library's answer into tokens.
- `tests/` — tests on concrete values.
