# jrsonnet (context library)

The lexical environment of a Jsonnet evaluator, with its contracts proved.

- `src/ctx.rs`: `Context` (a shared, immutable scope with a branch point and the
  objects that `$`, `self` and `super` name) and `ContextBuilder`; lookups are
  specified by `Context::lookup`.
- `src/function.rs`: the context of a function body whose parameters take their
  defaults (`parse_default_function_call`).
- `src/names.rs`: the order of names, and the sorted listing of a set of names
  that a failed lookup reports.
- `src/scope.rs`: the rustc_hash map and set that hold a scope, behind small
  trusted wrappers.
- `src/laws.rs`: what holds of every context (shadowing, branch points, the two
  ways of extending a context).
- `src/value.rs`, `src/error.rs`, `src/kind.rs`, `src/span.rs`: values, errors,
  value kinds and source spans.
- `app/lib.rs`: `binding`, which ranks the names of a failed lookup by similarity
  (floating point) into the suggestions of `VariableIsNotDefined`, and the
  shared cell that hands a context to thunks made before it.
