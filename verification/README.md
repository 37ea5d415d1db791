# pico_limbo

A lightweight Minecraft limbo server library, verified with Verus: the
protocol versions it speaks, the per-client and server state, the packet
reports, the forwarding checks, and the packet handlers that decide what a
client is sent at each step (handshake, status, login, configuration, play).
The `wake` module holds the decisions of the wake-up proxy that starts a
backend server on demand.

Layout:

- `src/` — the verified library.
- `tests/` — tests of the library on concrete values.
- `app/` — the program around it: command line, logging, configuration file,
  reading the game data from disk, and the backend process of the wake-up
  proxy.

World coordinates are carried as the bits of their `f64` together with their
floor, which is all the library reads of them.
