# st3215

Verified host-side library for the ST3215 serial bus servo.

- `src/servo_protocol.rs`: frame layout, checksum, request builders and the
  reply parser, with their specifications and the framing laws.
- `src/registers.rs`: the servo memory table and the laws on its layout,
  storage areas and ranges.
- `src/commands.rs`: the decisions of the host commands (when a reply is
  complete, status decoding, move requests, register reads, port labels).
- `app/main.rs`: the Tauri desktop tool around the library (serial port I/O,
  JSON shapes for the front end).
