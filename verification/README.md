# fusion_runtime

The runtime between database backends and a query worker, with its behaviour
stated in contracts and proved by Verus.

- `src/control`: slots, leases and framed rings of the control transport, the
  worker's generations and claims, and the reset of a region in place.
- `src/protocol`: the messages of executions and scans, their MsgPack bytes, and
  the rules for producers and channels.
- `src/filter`: Bloom filters with a lifecycle, and a pool that counts the
  references to them.
- `src/metrics`: counters, timers and page stamps.
- `src/worker`: the state machine of an execution, scans over the transport,
  filters for hash joins, and spill directories.
- `src/bytes.rs`, `src/text.rs`: big-endian numbers and decimal text.

Regions, pools and metrics are owned values, and each method is one step on
them. What other processes did between two steps shows in the state that the next
step finds; what the operating system says (process ids, liveness, clock
readings) comes in as arguments. Properties that span several calls are proof
functions whose names begin with `law_`.

`app` is ordinary Rust around the library: locks, signals, the clock, floating
point, files, Arrow and DataFusion. `tests` runs the library on concrete values.
