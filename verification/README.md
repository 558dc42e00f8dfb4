# gtpv2

A GTPv2-C library verified with Verus, and load-test tools built on it.

- `src/` is the verified library. Each information element, the header, whole
  messages and the typed request and response messages have their wire
  encoding stated as specification functions; parsing and writing are proved
  against them, and round-trip laws state that what is written reads back.
  `codec` frames messages on a byte stream. `load_server`, `load_client`,
  `closed_loop` and `metrics` hold the decisions of the load tools: which
  reply a server sends, the requests a client builds, how a closed-loop
  worker goes through one round, and the counters a test keeps.
  `buf` and `clock` are the only places that call outside code: the byte
  buffers of `tokio_util`/`bytes`, a few `std` string functions, and the
  system clock, each behind a contract.
- `tests/` runs the library on concrete values.
- `app/` is the command-line program (`server` and `client` subcommands): it
  owns the sockets, timers and tasks, and asks the library what to do.
