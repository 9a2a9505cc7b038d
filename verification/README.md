# adboost

An ADB server and a command line program around it, with the logic verified by Verus.

The library in `src/` decides; it opens no socket and no device. What a client asks for
and what it is told, which rules stand and which are released, which connection is used
and which is opened anew, how a server process is started and stopped, and how the cases
of a self-test end are functions from plain values to plain values. Their contracts say
exactly what they return.

- `protocol`, `models`, `number`, `text`, `words`, `order`, `path`: bytes, texts and
  numbers, with the laws that reading undoes writing.
- `server`: the host protocol. `frontend` turns a request into a `Step`; `forward`,
  `on_disconnect`, `wait_for`, `transport`, `listing` and `service` are its parts, and
  `default_backend` keeps the connections to USB and TCP devices. `laws` and `wire_laws`
  state what holds of the server as a whole.
- `daemon`: the server as a process.
- `cli`: what the commands do and print.
- `selftest`: the suites, the cases, and what their outcomes mean.

The program in `app/` performs what the library decides. Devices are reached through the
traits in `app/link.rs`, which a device library implements.
