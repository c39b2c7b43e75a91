# todo_app

A to-do list library verified with Verus, and a small terminal program
around it.

- `src/models` — tasks, the bare to-do list, and the error type, with the
  texts shown to the user.
- `src/text.rs` — Unicode whitespace, trimming, decimal rendering and
  parsing of `usize`, each proved against a short specification.
- `src/repository` — the `TodoRepository` interface; `model.rs`, the
  abstract store (a sequence of tasks and the next identifier) with every
  operation as a function and the laws proved over them;
  `in_memory_repo.rs`, a vector-backed repository proved to refine that
  model; `sqllite.rs`, an SQLite repository whose calls into `r2d2` and
  `rusqlite` go through small trusted functions.
- `src/cli` — the decisions of the terminal program: which command a line
  names, what a typed line holds, and the messages and listing shown.
- `app/main.rs` — the terminal program itself: reading, printing, and the
  command loop.
