# route_tool

A Windows tool that sends traffic through a bypass router on the local network and back
with one switch, watches whether the router answers, and falls back to the direct way by
itself when it does not.

There are two ways to switch. The route overlay lays `0.0.0.0/1` and `128.0.0.0/1` over
the default route. The adapter reconfiguration gives the adapter a fixed address with the
router as its gateway, after backing up what it had. Only IPv4 is handled.

## Layout

- `src/` is the library, verified with Verus. It decides; it performs no input or output.
  Whatever takes several steps on the system (an operation of the controller, a round of
  the health monitor, enabling the overlay, restoring an adapter, replacing a file,
  changing the registry) is a state machine: it says what to do next and is told how that
  went. So is the client, which keeps its window in step with the core. What holds of the
  machines as a whole stands in `control_laws.rs`, `health_laws.rs`, `route_laws.rs`,
  `table_laws.rs`, `autostart_laws.rs` and at the end of the other modules.
- `app/` is the program around it: the service, the pipe, the files, the calls into
  Windows, and a client in a terminal. The types that travel as JSON are in `wire.rs`.
- `tests/` runs the library.

## Trusted

The library relies on a few functions outside of it: `String::push`, `char::from_u32`,
`String::from_utf8_lossy`, `str::to_uppercase`, four calls of `serde_json` in `json.rs`,
and the reading of times by `chrono` in `logs.rs`. What is taken for granted of each is
said where it is declared.
