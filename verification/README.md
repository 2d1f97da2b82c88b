# hc_ecowitt

A HomeCore plugin for Ecowitt weather stations, with its rules verified by Verus.

- `src/` holds the rules, each with a contract that Verus proves: the registry of devices and its
  cache, the management actions and their manifest, who may report, what a battery value means,
  the configuration with its defaults, and the order of a start. Work that waits for the network
  is written as a state machine: a step says which request is due, and the answer gives the next
  step. `action_laws.rs`, `registry_laws.rs` and the ends of the other modules state what holds of
  whole runs.
- `app/` is the program around them: sockets, files, threads and the HomeCore SDK.
- `tests/` runs the library on concrete values.

The library calls `serde_json` for the cache file, `reqwest` for the text of a status code, and
`std::path` for the place of the cache. What it believes of them stands in the contracts of
`write_list`, `read_list`, `display_status`, `parent_of` and `join_name`.
