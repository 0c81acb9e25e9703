# tiny_orm

The logic of a small ORM derive, verified with Verus.

- `src/` is the verified library: `SetOption` (a value that is set or
  deliberately left out of a write), the reading of a struct's
  `#[tiny_orm(...)]` arguments and fields (`attr`), the choice of operations,
  the generation of the source of the CRUD methods (`quotes`, `derive`), and
  the derive on a struct's source text (`item`), which reads it with `syn`.
  Each generated method builds its SQL with `sqlx::QueryBuilder`.
- `app/` holds what stays outside the proof: the entry point on token streams
  (the struct's tokens in as text, the generated source back as tokens) and
  the `serde`/`sqlx` trait impls of `SetOption`.
- `tests/` runs the library on concrete structs.
