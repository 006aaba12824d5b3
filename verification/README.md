# masq

Verified core of the MASQ command-line tools and of automap, the router
port-mapping tester, written in Verus.

- `src/automap/status.rs`: router errors and the running status of a test.
- `src/automap/probe.rs`: the library's protocol test (PCP, PMP, IGDP) as a
  state machine from answers to actions, with its laws.
- `src/automap/check.rs`: the automap program's protocol check, which also
  removes every hole it pokes, as a state machine with its laws.
- `src/automap/removal.rs`: what to tell the user after removing a hole.
- `src/set_configuration.rs`: the `set-configuration` command: option
  schema, value checks, and the command a command line gives (read by clap).
- `src/decimal.rs`: reading and writing unsigned decimal numbers.
- `src/timer.rs`, `src/utils.rs`, `src/net.rs`, `src/stream_handler_pool.rs`:
  stopwatch, prompt, addresses and node messages.
- `app/`: the parts that talk to routers, sockets, terminals and actors,
  driving the state machines above.
