# octanest

The core of a self-hosted Git forge: its shared vocabularies (issue, pull-request,
organization, token and repository types with their text forms), the rules that
validate user and repository names, and the decisions its database adapter makes
around each query (listing windows, search patterns, event routing, update merges,
redirect keys, command-line options of the migration tool).

Layout:

- `src/` — the library, written and proved with Verus. `text.rs` holds the
  character-level helpers (trimming, ASCII case, UTF-8 length, substring search);
  the `*_types.rs` modules hold the domain types; `db/` holds the row types and the
  adapter's decisions; `migrate_cli.rs` parses the migration tool's flags.
- `tests/` — tests of the library on concrete values.
- `app/` — ordinary Rust around the library: the connection pools and the SQL each
  operation runs for the three supported dialects, and the JSON forms of the types.
