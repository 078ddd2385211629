# bkmt

The decision logic of the Bro Know My Toolbox command line (`bkmt`) and of its desktop
commands, written in Verus and proved against its contracts.

- `src/` is the verified library: template ids and the template catalog, consent and
  capability errors, the data root switches, file generation plans and reports, the order of
  the steps of a generation (consent before any write), locale packs, Spark Analyzer report
  inputs, tool arguments and preferences, and the update check. Calls into `serde_json`,
  `url`, `semver` and `bkmsa-core` stand behind small trusted wrappers whose contracts say
  what the library relies on.
- `app/` is the program around it: argument parsing, files, directories, locks, the network,
  and the calls into the toolbox's own `toolbox_core` and `file_generator` crates, which it
  needs to build.
- `tests/` runs the library on concrete values.
