# nomenclature

Composable readers and writers of binary data, verified with Verus.

A reader is built from small pieces and run on an in-memory `Cursor`:

```rust
let mut data = Cursor::new(bytes);
let header = u32::reader().pad_after(4).read(&mut data, Endian::Big, ())?;
let values = u16::reader().repeat_vec(3).read(&mut data, Endian::Little, ())?;
```

Every reader states, as a relation `collects(data, pos, endian, args, outcome)`,
which outcomes reading at `pos` of `data` may give; every writer states the same
of the bytes it leaves (`writes`). The adapters (`map`, `assert_value`,
`pad_after`, `pad_after_to`, `pad_before`, `repeat_array`, `repeat_vec`,
`repeat_vec_args_iter`, `restore_position`, `seek_before`) are proved to
transform these relations as documented, and `read` / `write` are proved to put
the stream back where it was on an error.

Layout of `src/`:

- `cursor.rs`: the byte stream, with exact contracts for reads, writes and seeks.
- `bytes.rs`, `number.rs`: integers as bytes in either byte order.
- `read/`: the reader traits, the readers of built-in types and tuples, and the adapters.
- `write/`: the writer traits, the writers of built-in types, and the checking adapter.
- `helpers/`: position markers and null-terminated strings (Latin-1, UTF-8, UTF-16).
- `laws.rs`: properties across calls, such as numbers reading back as written.

`app/` holds what needs the standard library's I/O and formatting.
