# cjdic2_core

The core of a Japanese dictionary service built on Yomitan dictionaries, written in Verus.

`src/` is the verified library:

- `normalize`, `search`: the normal forms under which terms and readings are stored, and
  how a search (with `GLOB` wildcards) is put to the database.
- `sync`, `order`: which dictionary archives of a directory are imported, in which order,
  and which installed dictionaries are removed.
- `archive`, `dictionary`, `json`: reading a dictionary archive and what each row of its
  banks becomes.
- `codec`, `intern`: glossary keys (BLAKE3) and compression (zstd), and the ids already
  given to glossaries, tag sets and rule sets during an import.
- `tokenizer`, `search_index`: word segmentation (vibrato) and the full-text index of terms.
- `setup`, `progress`: which bundled archives to fetch, when a setup calls for a restart,
  and the progress an import reports.
- `db`, `download`, `timer`, `error`, `types`, `numbers`, `text`: database layout, download
  rules, timing, errors, records and text utilities.

`app/` holds the SQLite databases, the files on disk and the serialisable forms of the
records around it. `tests/` exercises the library.
