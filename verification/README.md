# wsgator

A WebSocket load generator whose decision logic is verified with Verus.

- `src/` is the verified library: the launch plans of the runners (flat,
  linear, stepped and exponential ramp-ups), the waves of the executors, how
  a client behaviour or an attack strategy reacts to what the server sends,
  the stop signal of a batch, the classification and counting of errors, the
  configuration taken from the command line, and the answers of a small test
  server. Each public function states what it returns in its `ensures`; the
  properties that span several calls are proved as `law_*` proof functions.
- `app/` is the program around it: command-line parsing, sockets, timers,
  spawned tasks, and the test server's network loop. Started under the name
  `ws-mini-server`, the program is that test server.
- `tests/` exercises the library on concrete values.
