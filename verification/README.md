# robustmq

Verified core of an MQTT broker's connection handling.

- `src/tools.rs`: clock readings since the Unix epoch, random identifiers
  (a version 4 UUID as 32 hex digits), the local-address fallback and the
  missing-file error.
- `src/tls.rs`: certificates and private keys taken from PEM text.
- `src/frame.rs`: the decisions of the per-connection read loop.
- `src/command.rs`: which service handles each incoming packet, the
  responses the dispatcher gives itself, and the record of logged-in
  connections.
- `app/`: file, network and asynchronous plumbing around the library.
