# hyperdb_mcp

The logic of a server that gives its clients a Hyper database to work with, written in
Verus: executable Rust whose behaviour is stated in contracts and proved.

- `src/` is the verified library.
  - `text`, `json`, `paths`, `version`, `calendar`: the vocabulary of the rest.
  - `error`, `sql`: what failures mean, and which statements only read.
  - `attach`: databases that are attached, one by one or not at all.
  - `engine`: a session with the database, its statements, its cells and its status.
  - `daemon`: the process that shares one database among many clients.
  - `diagnostics`: a report on an installation that is safe to show.
  - `compile_check`: queries that are tried against registered tables.
  - `chart`: from the rows of a query to the plan of an image.
- `app/` is ordinary Rust around it: files, sockets, processes, JSON and drawing.
- `tests/` runs the library on concrete values.

What the library takes from `chrono`, `semver` and std stands behind a few functions whose
contracts say what is relied on.
