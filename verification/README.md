# harmonic_tpu

Keeps a validator's TPU addresses in gossip in step with the connection to the
bundle tile: the remote TPU while it is connected, the local TPU while it is not.

- `src/` is the verified library. `update` reads what the bundle tile reports,
  `state` decides what a report changes, `service` starts and stops, `gossip`
  derives the QUIC addresses and walks through the setter calls, `net` and
  `byte_order` hold addresses, and `laws` states what holds of them together.
- `app/` is the code around it: the C callback, the lock around the shared state,
  the calls into `solana-gossip`, and logging. It needs `solana-gossip` besides
  the dependencies of the library.
- `tests/` runs the library.
