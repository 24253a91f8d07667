# tow

`tow` carries TCP streams and UDP datagrams over WebSocket connections, so
that they pass networks that only let HTTPS through.

- `src/` is the verified library: the `network-type` handshake between
  client and server, the step each pump takes with what it read, and the
  client's registry of UDP tunnels together with the two ways it retires
  them (the kernel's socket table, or an idle timeout). `src/laws.rs` states
  and proves the properties that span these operations.
- `app/` is the program: argument parsing, sockets, WebSocket connections,
  tasks and timers. It reads, hands plain values to the library, and acts on
  what the library decides.
- `tests/` runs the library on concrete values.
