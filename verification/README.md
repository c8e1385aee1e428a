# peat_sapient

The logic of a bridge between SAPIENT (BSI Flex 335 v2.0) sensors and a mesh, in
Rust verified with Verus.

- `src/` is the library. Its functions state what they do, and Verus proves it.
  Believed without proof are the small wrappers around calls of other crates;
  each says what it claims of its call.
  - `codec`: framing of messages, a 4-byte little-endian length and a payload
  - `transform`: messages to tracks, node states, capabilities and alerts, and
    commands to tasks
  - `bridge`, `registry`, `task_queue`, `rate_limit`, `watchdog`: what a manager
    knows of its nodes, and how it reacts to what they send
  - `mesh_fields`, `translator`, `subscriber`, `transport`: documents of the mesh
  - `config`, `settings`, `connection`, `tls`, `compliance`: how the programs are set up
    and what they decide
- `tests/` runs the library.
- `app/` holds sockets, files, the command line and floating point arithmetic.

Real numbers are held as the bit patterns of IEEE 754, times as nanoseconds, and
addresses and paths as text. Arithmetic on real numbers comes in from outside, as
a `Geodesy`: the library decides which conversion a position needs and hands it
over as a `PositionPlan`.
