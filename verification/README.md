# raftor

Bully leader election for ESP32 nodes that talk over ESP-NOW, with a
terminal monitor that shows the role each node reports.

`src/` is the verified library:

- `bully` — node identifiers (station MAC addresses), their order and text,
  roles, the election state and its timeouts in milliseconds.
- `led` — the LED indication of a role: action per step and pause.
- `wire` — the messages, what handling each one does to a node's role and
  what it answers, and their postcard encoding.
- `tasks` — the decisions of the node's tasks: the election rounds of the
  governor, reading received packets, writing the status report.
- `monitor` — the monitor's decisions: keys, row selection, shown role and
  its colour.

`app/` runs them: on the host it is the monitor (UDP listener and
terminal UI); built for the ESP32 target it is the node firmware, whose
tasks do the radio, network, timer and LED work around the library.
