# ifecaro

The logic of the Ifecaro interactive fiction reader and editor, written in
Verus: the functions under `src/` carry `requires` / `ensures` contracts
that Verus proves, and the properties that span several calls stand as
public proof functions named `law_*`. The exceptions are the few trusted
wrappers around outside calls (listed below), whose contracts Verus takes
on trust.

Layout:

- `src/` — the verified library: story data and its JSON model, impacts on
  characters and relationships, multi-attribute checks, the node runtime,
  the choice editor's reducer, the reader page's decisions (keys, overlays,
  countdowns, searches, titles, settings), deployment settings, and the
  rules of the command-line tools.
- `tests/` — ordinary Rust tests that run the library on concrete values.
- `app/` — the command-line program around the library: argument handling,
  file and process I/O, serde copies of the library's types, and the parts
  that compute in floating point.

Calls into outside crates that the logic makes (`rand`, `smallvec`,
`str::to_lowercase`, `String::push_str`) go through small trusted wrappers
whose doc comments state what their contracts claim.
