# quick-os

A host that runs agents in Firecracker microVMs (quick-os), and the runtime
inside each VM (agent-os), with their logic verified by Verus.

- `src/` is the verified library. Its modules:
  - `path`: Unix path handling on strings (absolute paths, `..` components,
    join, parent) and the law relating parent and join.
  - `workspace`, `primitives`, `protocol`, `runtime`: the agent runtime; the
    workspace never yields a path with a `..` beyond its root, and
    `read_confined` reads a file only when its canonical path (symbolic links
    followed) lies within the root's. The runtime keeps, as ghost state, the
    requests it has handled, and records exactly the events they emitted.
  - `config`, `error`, `environment`, `snapshot`, `agent`: host configuration,
    errors, prerequisite checks, snapshot layout, agent records.
  - `firecracker`, `dispatcher`: the API calls and steps that boot, restore and
    snapshot VMs, and the dispatcher's decisions and registry.
  - `observe`, `registry`: the bounded event log (which holds, in every
    state, the newest of all events pushed onto it) and the tool surface.
  The dispatcher keeps its agents in a `HashMap` keyed by identifier, never
  more than the configured maximum.
  - `json`, `text`: JSON values and string helpers.
- `app/` is the program: the CLI, the HTTP tool surface, the Firecracker
  client, process handling, file access and the JSON/TOML codecs.
- `tests/` runs the library on concrete values, and compares the path
  handling with `std::path`.
