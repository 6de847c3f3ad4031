# builder

The logic of a `#[derive(Builder)]` macro, verified with Verus.

For a struct such as

```rust
#[derive(Builder)]
struct Command {
    executable: String,
    #[builder(each = "arg")]
    args: Vec<String>,
    #[builder(skip_get)]
    current_dir: Option<String>,
}
```

the macro generates `Command::builder()`, a `CommandBuilder` struct with one
`Option`/`Vec` field per kept field, a setter per field (or an `each` setter that
adds one item), `get_*`/`get_mut_*` getters, and `build()`, which returns `None`
while a field of a plain type is unset. `#[builder(no_default)]` on the struct
makes `builder()` fill the fields itself instead of deriving `Default`.

Layout:

- `src/` — the verified library. It reads the struct as plain values
  (`expand::DeriveInputModel`) and computes the plan of the generated code
  (`expand::do_expend`), with contracts that state the plan exactly.
  `src/laws.rs` holds the properties that relate the functions.
- `app/` — the macro itself: it reads the struct with `syn` into the library's
  model (running the attribute parser, which asks the library about each
  nested item), and writes the plan out as tokens with `quote`.
- `tests/` — tests of the library on concrete values.
