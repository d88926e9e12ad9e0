# krot_server

The decision core of a tunnel relay server, written and verified in Verus, with
the server around it.

- `src/` decides. It holds the tunnel registry with its resume leases, the
  session's answer to each control frame, admin tokens, the steps of an ACME
  issuance, PEM reading, port ranges and the configuration. Every function
  carries its contract. What an outside crate computes (hashes, base32 and
  base64, certificate parsing, key generation) stands behind small trusted
  functions that say what is claimed of the crate.
- `src/registry_laws.rs` and `src/session_laws.rs` state what holds across calls:
  the registry's consistency, what a resume keeps, what a goodbye ends, which caps
  hold. Laws on one module alone stand in that module.
- `tests/` run the library with the real crates linked.
- `app/` is ordinary Rust: sockets, files, tasks and threads. It performs what the
  library decides and hands back what happened. What belongs to a deployment (the
  wire codec, the handshake, key files, rate limiting, routers) comes in through
  the trait `Platform`; a binary calls `relay_main` with its implementation. What
  federated peers know of a label comes in through `PeerLabelLookup`.

Instants and durations are nanoseconds on one monotonic clock that the caller
reads; the library reads no clock but the calendar, for certificates.
A path is its bytes, as on Unix, so that one that is no UTF-8 text is kept too.
