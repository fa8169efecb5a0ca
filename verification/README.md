# hitl_daemon

The logic of a hardware-in-the-loop daemon: it couples a simulated quadrotor to
a real PX4 flight controller over MAVLink, and both to a browser over a
WebSocket. The library is written in Verus; what it promises is stated in
`requires` and `ensures`, and proved.

- `src/protocol`, `src/wire.rs`: the binary protocol spoken with browsers.
- `src/handler`, `src/server.rs`: what a browser may ask for, how often, and the
  life of its session.
- `src/mavlink_io`: frames, heartbeats, ports, and the reader and writer of the
  link.
- `src/param_io.rs`, `src/param_read.rs`, `src/exchange.rs`: reading and writing
  the board's parameters, each confirmed by its echo.
- `src/preflight`, `src/board_identity.rs`, `src/snapshot.rs`: provisioning a
  board, and putting it back as it was.
- `src/build_config`: from a parts list to gains that were pushed and confirmed.
- `src/terrain.rs`: the terrain cache.
- `src/simulation`, `src/flight.rs`, `src/daemon.rs`: one tick of the simulation
  after another.
- `src/ieee.rs`, `src/bytes.rs`, `src/text.rs`: floating-point numbers as bit
  patterns, byte order, and text.

Everything that waits (sockets, serial ports, timers) is in `app/`, and so is
floating-point arithmetic. The library decides; `app/` performs what it asks for
and reports what happened. Functions named `law_...` state what holds of several
functions together.

The library trusts seven calls: four text functions of the standard library
(`src/text.rs`) and three functions of the `mavlink` crate
(`src/mavlink_io/codec.rs`).
