# alani-terminal

Interactive shell and CLI contracts for Alani diagnostics and demos, written
in Verus: command registration, command-line parsing, terminal sessions, and
output formatting, each operation specified exactly and proved.

- `src/lib.rs` — error taxonomy, data classes and redaction rules, trace
  contexts, the rights bitmap, the catalog, and label validation.
- `src/text.rs` — whitespace, trimming, word and line splitting, and byte
  search, as specifications with verified implementations.
- `src/commands.rs` — command descriptors, requests, results, built-ins, and
  the fixed-capacity registry with fail-closed dispatch.
- `src/parser.rs` — the command-line and script parser, specified by
  `parse_outcome` and `script_outcome`.
- `src/session.rs` — the session state machine and its bounded history.
- `src/format.rs` — formatter descriptors, diagnostics, and formatted output.
- `app/main.rs` — prints the catalog summary.

Functions named `law_*` are the library's cross-cutting guarantees, proved
as lemmas over the same specifications the operations' contracts use.
