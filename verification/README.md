# no_extraneous_dependencies

A lint rule for JavaScript and TypeScript: it reports the use of packages that the nearest
`package.json` does not declare, and of packages that it declares as development dependencies only,
unless an option allows those in the file.

- `src/` is the rule, verified with Verus. It performs no input or output. A `Session` says which
  file to look for, which to read, or which module to resolve next; it is told the outcome, and
  ends with the diagnostics.
- `src/world.rs` states what the rule says of a file while nothing around it changes, and proves
  that a session ends with exactly those reports. `src/laws.rs` holds what follows from it.
- `app/` reads the options, performs what a session asks for, and hands back the diagnostics.
- `tests/` runs sessions against files held in memory.

What is believed without proof of other crates stands in `collections.rs`, `glob.rs`, `json.rs`
and `module.rs`, each item with a comment that says what it claims.
