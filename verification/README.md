# migration_engine

The verified core of a schema migration engine, written in Verus.

- `src/` is the library. Each module states its behaviour in `requires` /
  `ensures` contracts that Verus proves:
  - `dmmf`, `dml`: DMMF documents and their conversion into datamodels, with
    the first problem reported where a document has no datamodel.
  - `template`: variables and format strings of user-facing error messages.
  - `user_facing_errors`: known and unknown errors as users see them.
  - `connector`, `persistence`, `database`, `datetime`: the SQL connector's
    families, parts and statements, and its table of applied migrations.
  - `destructive`: the destructive change check, as a state machine that asks
    for one count query at a time.
  - `nested_delete`: nested deletes of write queries and the rules on their
    graph edges.
  - `rpc`, `commands`: the JSON-RPC commands and the decisions of the
    migration commands.
  - `text`: string comparison, lexicographic order and decimal rendering.
- `tests/` runs the library on concrete values.
- `app/` holds what the library leaves out: JSON forms of its types (serde),
  the JSON-RPC server, rendering of the migration table's SQL (barrel), and
  the file system and database effects of the connector's plans.
