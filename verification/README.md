# registry_conformance

Conformance tests for Cargo registries. Each test writes a few crates to a
scratch space, publishes them to the registry under test, lets Cargo use them,
and looks at what came of it.

- `src/` decides. It says which steps each test takes, how crates, manifests and
  calls of Cargo are made up, what is to be done after every outcome, and how
  the tests are judged and reported. All of it is verified with Verus. The
  proofs rest on what is stated, and not proved, of a few calls: `search` in
  `selection` (the crate `regex`), `encode_string` in `cargo_command` (the crate
  `base64`), and `from_utf8_lossy` in `command` and `String::push` in `text` (the
  standard library).
- `app/` acts. It reads and writes files, runs commands, talks to the registry,
  and hands the outcomes back to the library. A registry takes part by
  implementing its traits `RegistryBuilder` and `Registry`. It is built with the
  environment variable `CURRENT_TARGET` set to the target triple, for instance to
  what `rustc -vV` shows as the host; one test needs it.
- `tests/` runs the library on concrete values.

Every function of the library that acts in several steps comes as a state and
an action: the caller performs the action, hands the outcome to `next`, and gets
the following state and action, until the action is to finish.
