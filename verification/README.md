# mini-ci

A single-binary CI server: register Git repositories, run the shell scripts
under their `.mini-ci/` directory against a branch, follow the logs in the
browser, and keep zips of successful builds' output as artifacts.

- `src/` is the library, verified with Verus: file layout (`paths`), the
  records (`models`), incremental log reading (`runlog`), task discovery and
  task-name checks (`tasks`, `order`), artifact naming (`artifacts`), the
  steps of a run (`pipeline`) and of bringing a clone up to date (`gitsync`),
  terminal-control stripping of script output (`ansi`), the web interface's
  file routing (`web`), the command line (`cli`) and automatic runs
  (`autorun`).
- `app/` is the server around it: HTTP (axum), SQLite storage (rusqlite),
  git and shell processes (tokio), zipping (walkdir, zip).
- `tests/` exercises the library on concrete values.

Run `mini-ci [--port N] [--dir PATH]`; the data directory defaults to
`MINICI_DATA`, then `~/.mini-ci`, and the server listens on
`127.0.0.1:8787`. The web interface's files are read from `MINICI_UI_DIR`
(default `frontend/dist`).
