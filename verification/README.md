# suppressor

A daemon that keeps the user name and edit summary of edits to watched wiki
pages hidden: it reads the watched-page list from a source page, follows the
wiki's recent changes, hides what it finds through the MediaWiki
`revisiondelete` API, and rechecks the watched pages on a schedule (a rolling
last-24-hours verification and a nightly full recheck).

## Layout

- `src/` is the verified library (Verus). It holds the daemon's logic: title
  normalisation and source-list parsing (`titles`), the watched-page cache
  (`cache`), the command line (`cli`), configuration and environment
  (`config`), API failure classification, retry rules and response reading
  (`mw_api`), the runtime status and its health rules (`health`, `runtime`,
  `realtime`, `recovery`, `outcomes`, `passes`, `startup`), the hide queue
  (`dispatch`, `locks`, `processed`, `daemon_backlog`), catch-up runs
  (`catchup`, `catchup_run`, `warnings`), reconciliation passes and their
  scheduling (`reconcile`, `scheduler`), the background worker's decisions
  (`background`), command output (`commands`, `panel`) and memory sampling
  (`memory`). Each public function states its result in its contract; the
  laws that relate several functions are public proof functions.
- `tests/` runs the library on concrete values.
- `app/` is the program around the library: HTTP requests, files, signals,
  processes and the daemon's main loop. It makes no decision of its own.

Verification: `verus src/lib.rs` (with the outside crates of `Cargo.toml`).
