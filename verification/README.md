# samsung-tv-rs

Control of Samsung Smart TVs over their WebSocket remote-control API, as a
verified library with a thin I/O shell.

- `src/` is the library, verified with Verus: key codes and their parsing,
  the JSON messages for keys, apps, the browser and text input, the
  connection URL, reading the TV's replies (tokens, authentication errors),
  the connection state, the steps of each remote-control operation, token
  handling, and SSDP discovery (requests, response parsing, one record per
  address). Calls into `serde_json`, `url`, `base64` and a few std functions
  go through small trusted wrappers whose contracts are documented where
  they stand.
- `app/` holds the WebSocket and HTTP connections, the token file, the UDP
  sockets and timers, and the serde forms of the library's types.
- `tests/` exercises the library on concrete values.
