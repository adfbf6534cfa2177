# Stream gateway

A gateway for media streams. It receives MPEG transport streams over UDP and SRT, hands them on to
outputs over UDP and SRT, can take single programs out of a stream, and is controlled over HTTP.

- `src/` is the library: what requests mean, which of them are refused and why, how streams start,
  stop, change state and come back from the database, how packets of a program are filtered, which
  metrics change, and how sockets are set up. Its functions are verified with Verus, but for the
  small ones that call other crates or std: what their contracts say of those calls is trusted,
  and stands in the comment above each.
- `app/` is the program around it: the HTTP server, the database, sockets, the tasks that move
  packets, and the metrics that are scraped.
- `tests/` runs the library on concrete values.

## Settings

| Variable | Default | Meaning |
|---|---|---|
| `BIND_ADDRESS` | `127.0.0.1:8080` | address of the HTTP interface |
| `DATABASE_URL` | `state.db` | path of the SQLite database |
| `LOG_LEVEL` | `info` | level of the log |
| `AUTO_PORT_RANGE_START` | `10000` | first port to assign |
| `AUTO_PORT_RANGE_END` | `11000` | end of the ports to assign, not included |
