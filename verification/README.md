# module_host

The module-host seam and its write-path substrate: how feature Modules reach
one composed GraphQL schema, and how their writes run. The decisions are a
Verus-verified library; the framework glue that performs them against
Seaography, SeaORM, and Rust syntax is ordinary Rust.

## Layout

- `src/` — the verified library.
  - `writes` — per-operation selection of a Model's generated writes, and
    the registration steps that publish a selection.
  - `prefix_check` — namespace ownership of every type and root field a
    Module registers, and the composition errors.
  - `compose`, `custom_ops` — what a Module registered, whether it
    contributes anything, and what the schema keeps, drops, and attaches.
  - `custom_fields`, `output`, `naming` — the rules of `#[custom_fields]`
    resolvers and `#[output]` structs, and their camel-cased GraphQL names.
  - `hooks`, `dispatch` — write hooks over a mutation's write set, and the
    order in which composed guards, hooks, and filters are asked.
  - `pipeline` — the order of a hooked or restricted mutation: guards,
    transaction, save hooks, write-set hooks, persistence, create filter,
    commit, watch, permit release.
  - `restricted`, `signals`, `events`, `module_ctx`, `exports` — restricted
    mutations, post-commit signals, subscription streams, transaction
    outcomes, and the export tools' text.
- `tests/` — tests of the library on concrete values.
- `app/` — the glue: schema building, resolvers that drive the pipeline,
  the lifecycle hook composer, the macro expansions, and the Store.
