# CoActor

An embedded, distributed Actor framework: Actors are addressed by a type and an
ID, activated on demand, owned by one Server at a time, and reached through
bidirectional Sessions.

The library in `src/` holds the decisions of the framework as verified Rust.
It performs no input or output: each protocol is a state machine that names the
next operation and takes back what came of it.

- `actor`, `error`, `transport_protocol`, `time`, `text`, `keyed`, `mailbox`:
  names, errors, messages, moments and the collections that the rest is built on.
- `runtime`: routes, the life of an Active Actor, Sessions, inbound messages,
  shutdown and fencing of a Server.
- `cluster`: leases, ownership, placement, the start of a Server, and the rules
  of the store in S3.
- `client`: finding an Owner, opening a Session, connections, and what arrives
  on them.
- `transport`: the transport within a process and the rules of the one over gRPC.
- `command`: the runtime for commands with replies, on the same routes.
- `macros`: the rules for the attributes that mark Actors and commands.
- `test_support`: a Coordination Store within the process.

Public proof functions whose names start with `law_` state what holds across
operations.

`app/` is the shell around the library: tasks, clocks, sockets, stores and
serialised forms. `tests/` runs the library on concrete values.
