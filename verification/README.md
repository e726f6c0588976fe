# perima

The core of a media index, verified with Verus: domain types, the ports that
adapters implement, and the rules of the SQLite adapter.

- `src/`: the verified library.
  - `types`, `ids`, `hlc`, `tag`, `errors`, `events`, `metadata`, `dedup`,
    `search`, `transcription`: the domain.
  - `ports/`: the traits that adapters implement.
  - `db/`: the database adapter as decisions. The `*_repo` modules hold the queries
    and read rows; `writer/` holds the write commands: what each looks up, the
    statements it runs, its reply and its events. `writer/job.rs` takes a command
    from its transaction to its answer. `schema/` makes the triggers of the
    full-text indexes, `manifest` the manifest of a volume.
  - `db/model/`: tables as sequences of rows, the effect of each statement on them,
    what each list gives back of them, what the full-text index holds of them, and the
    laws that commands, lists and index keep.
- `app/`: connections, threads, channels, files, and the values on the wire. It runs
  what the library asks for and hands back what came of it.
- `tests/`: the library on concrete values, with a real database in memory.

What the proofs rest on besides Verus is marked `external_body` or
`assume_specification`, with a comment that says what is believed of the outside
function. The meaning of the SQL statements and queries is stated in `db/model/`; the tests run
the same statements on SQLite.
