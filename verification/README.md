# my-web-socket-client

A reconnecting WebSocket client whose decisions are verified with Verus.

- `src/` is the verified library: taking `host[:port]` and the server name out
  of a URL (`host_port`), the TLS server name rustls accepts for it (`tls_name`), the client's timeouts and the reconnect policy
  (`timings`), planning an attempt and its upgrade request (`endpoint`), the
  connection loop as a state machine (`connection_loop`), the state of one
  connection (`connection_status`), the read and ping loops' decisions
  (`read_loop`, `ping`) and the random bytes of a `Sec-WebSocket-Key` (`key`).
- `app/` is the asynchronous side: tokio tasks, sockets, TLS, the HTTP upgrade
  and the user's callbacks. It performs what the library decides.
- `tests/` runs the library on concrete values.

Timeouts are held in nanoseconds, so a `Duration` converts to and from them
without loss; instants are Unix times in microseconds.

Reconnect policy: the first attempt after start is immediate; every failed
attempt waits `reconnect_timeout`; a connection that lived at least
`reconnect_delay_skip_threshold` is re-established at once, a shorter-lived one
after `reconnect_timeout`.
