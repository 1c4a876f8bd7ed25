# lgtv-service

A Windows service that turns an LG webOS TV off when the PC sleeps or shuts
down, and back on with Wake-on-LAN when the PC wakes or starts again.

- `src/` is the verified library (Verus): configuration defaults and paths,
  the client-key and shutdown-state files' meaning, the service's reactions
  to power and control events, the SSAP turn-off and pairing sessions as
  state machines, the Wake-on-LAN magic packet, the connectivity probe and
  the command line.
- `app/` is the executable: Windows service plumbing, power notifications,
  the event-log query, file, socket and WebSocket I/O. It performs the
  actions that the library decides.
- `tests/` exercises the library.
