# herding_cats_rust

The logic of a writing application (projects, documents, codex entries,
research materials, search, backups, ePub export, fonts, automation and the
bookkeeping around them) as a library whose functions carry contracts that
Verus proves.

- `src/` is the verified library. Services that talk to a database, the file
  system or the clock are split: the library decides, from the rows, the
  directory listing or the time it is handed, and states exactly what it
  returns; the caller does the reading and writing.
- `tests/` runs the library on concrete values.
- `app/` is the program around it: the window and its event loop, database
  access, file reading and writing, and the few computations on floating
  point numbers.

Calls into outside crates (`uuid`, `chrono`, `serde_json`, `url`, `sha2`,
`rand`, `fontdb`) and into the parts of std that Verus does not specify go
through small wrappers. Their contracts are trusted, not proved: each says
what the crate's source or documentation shows, and where a result is too
large to restate (a parse, a digest, a formatted date) it is given a name.
The code built on these wrappers is proved against their contracts.
