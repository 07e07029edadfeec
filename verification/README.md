# vor_router

The decisions of an OSC packet router, verified with Verus.

- `src/osc.rs` decodes and re-encodes OSC datagrams through `rosc`.
- `src/filter.rs` is the packet filter (whitelist, blacklist, bad packets)
  and its laws.
- `src/route.rs` is the state machine of one application route.
- `src/receiver.rs` is the state machine of the receiving side.
- `src/router.rs` is the router's shutdown order.
- `src/status.rs` holds the status reports.
- `app/` runs the sockets, channels, threads and the async runtime and
  feeds their events to the library.
