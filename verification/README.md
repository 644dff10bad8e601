# hyperion_framework

A component-based TCP framework: each component runs inside a container that routes its
messages, talks to other containers over length-prefixed TCP frames, and monitors their liveness
with heartbeats.

The library in `src/` holds the framework's decisions, each with a contract proved by Verus:

- `network::framing` — the wire format (four-byte big-endian length, then the payload) and a
  decoder that reassembles frames from reads cut anywhere; decoding what was encoded gives the
  payloads back, whatever the read boundaries.
- `network::client` — when a client retries, backs off, or gives up.
- `heartbeat` — configuration, the sender's request ids and pending requests (which are answered,
  which are overdue), and the receiver's replies and watchdog.
- `containerisation` — the container's lifecycle step, where each incoming message goes, which
  heartbeat task starts, and how the client broker delivers messages.
- `utilities` — the retry schedule of a full channel, duration formatting.
- `logging` — level filtering and the layout of a log line.

`app/` is the tokio runtime around it: tasks, sockets, channels, clocks, configuration files and
the global logger. It performs what the library decides.
