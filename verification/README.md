# amk

The decision-making core of a small game engine, written in Verus: every
function under `src/` carries a contract that the verifier proves.

## Layout

- `src/test/` — an in-game test runner: a tree of named test groups and
  leaves whose results roll up to their parents (`tree.rs`), the manager that
  turns the root's outcome into an exit code (`manager.rs`), test errors and
  assertions.
- `src/scene/` — the root scene as a state machine from events to actions
  (`main.rs`), resize throttling (`handle_resize.rs`), the events and actions
  themselves (`event.rs`), texture-size polling and draw-log checks.
- `src/ui/` — event routing to widgets, hover tracking of containers, focus,
  alignment and widget ids.
- `src/utils/` — identifiers, a sliding sample window for frequency
  measurement, text order, command-line defaults, clocks and small helpers.
- `app/` — plain Rust around the library: argument parsing, logging, locks and
  channels, floating-point geometry and layout, and the loop that performs the
  actions the scenes ask for.
- `tests/` — tests run against the compiled library.

Laws that span several calls (what a group reports once all its children
finished, that a resize burst ends at its last size, that identifiers from one
counter are distinct, ...) are public proof functions named `law_*`.
